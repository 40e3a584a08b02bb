//! What holds of every run, whatever the host reports to it.
//!
//! A run is followed from its start through a sequence of inputs. Beside
//! the state, three things are read off the steps: the events that the
//! subscriber acknowledged, the tool executions that were asked for, and
//! those that came back.

use vstd::prelude::*;

use crate::controller::{
    ActionView, FailureView, InputView, OutcomeView, PhaseView, RunView, MAX_DEPTH,
};
use crate::accumulator::AccumulatorView;
use crate::event::{EventView, SinkEvent, SinkEventKind, SinkEventView, ToolOutcomeView};
use crate::event::RawItemView;
use crate::normalizer::{normalized, STREAM_ERROR};

verus! {

/// The state after a sequence of inputs.
pub open spec fn state_after(start: RunView, inputs: Seq<InputView>) -> RunView
    decreases inputs.len(),
{
    if inputs.len() == 0 {
        start
    } else {
        state_after(start, inputs.drop_last()).step(inputs.last()).0
    }
}

/// Whether this input acknowledges an event, in this state.
pub open spec fn acknowledges(state: RunView, input: InputView) -> bool {
    state.awaits_delivery() && input is Delivered
}

/// Whether this input brings a tool's outcome that the state waits for.
pub open spec fn finishes_execution(state: RunView, input: InputView) -> bool {
    !(state.phase is Terminated) && state.awaits_tool() && input is ToolFinished
}

/// Whether this input is answered by the request to run a tool.
pub open spec fn starts_execution(state: RunView, input: InputView) -> bool {
    state.step(input).1 is Execute
}

/// The events that the subscriber acknowledged, in order.
pub open spec fn delivered_after(start: RunView, inputs: Seq<InputView>) -> Seq<SinkEventView>
    decreases inputs.len(),
{
    if inputs.len() == 0 {
        Seq::empty()
    } else {
        let earlier = delivered_after(start, inputs.drop_last());
        let state = state_after(start, inputs.drop_last());
        if acknowledges(state, inputs.last()) {
            earlier.push(state.outbox[0])
        } else {
            earlier
        }
    }
}

/// How many tool executions were asked for.
pub open spec fn executions_started(start: RunView, inputs: Seq<InputView>) -> nat
    decreases inputs.len(),
{
    if inputs.len() == 0 {
        0
    } else {
        let earlier = executions_started(start, inputs.drop_last());
        if starts_execution(state_after(start, inputs.drop_last()), inputs.last()) {
            earlier + 1
        } else {
            earlier
        }
    }
}

/// How many tool executions came back.
pub open spec fn executions_finished(start: RunView, inputs: Seq<InputView>) -> nat
    decreases inputs.len(),
{
    if inputs.len() == 0 {
        0
    } else {
        let earlier = executions_finished(start, inputs.drop_last());
        if finishes_execution(state_after(start, inputs.drop_last()), inputs.last()) {
            earlier + 1
        } else {
            earlier
        }
    }
}

/// How many of the events are of this kind.
pub open spec fn occurrences(events: Seq<SinkEventView>, kind: SinkEventKind) -> nat
    decreases events.len(),
{
    if events.len() == 0 {
        0
    } else {
        let earlier = occurrences(events.drop_last(), kind);
        if SinkEvent::kind_of(events.last()) == kind {
            earlier + 1
        } else {
            earlier
        }
    }
}

/// Whether an event belongs to the end of a run: a final response, a
/// stream error or the completion marker.
pub open spec fn closes_run(event: SinkEventView) -> bool {
    let kind = SinkEvent::kind_of(event);
    kind == SinkEventKind::FinalResponse || kind == SinkEventKind::Error || kind
        == SinkEventKind::Complete
}

/// Whether none of the events belongs to the end of a run.
pub open spec fn quiet(events: Seq<SinkEventView>) -> bool {
    forall|i: int| 0 <= i < events.len() ==> !closes_run(#[trigger] events[i])
}

/// Whether the events end as a run with this outcome ends: quiet up to
/// the event that decided the outcome, then that event, then the
/// completion marker. A run whose stream merely ended has no deciding
/// event. Nothing is said of a run that a failed delivery or an input
/// out of turn cut short.
pub open spec fn closes_with(events: Seq<SinkEventView>, outcome: OutcomeView) -> bool {
    let len = events.len() as int;
    match outcome {
        OutcomeView::Completed => {
            &&& len >= 2
            &&& quiet(events.take(len - 2))
            &&& SinkEvent::kind_of(events[len - 2]) == SinkEventKind::FinalResponse
            &&& events[len - 1] == SinkEventView::Complete
        },
        OutcomeView::Failed(FailureView::Stream(message)) => {
            &&& len >= 2
            &&& quiet(events.take(len - 2))
            &&& events[len - 2] == SinkEventView::Event(EventView::StreamError { message })
            &&& events[len - 1] == SinkEventView::Complete
        },
        OutcomeView::Failed(FailureView::DepthExhausted) => {
            &&& len >= 2
            &&& quiet(events.take(len - 2))
            &&& SinkEvent::kind_of(events[len - 2]) == SinkEventKind::ToolCall
            &&& events[len - 1] == SinkEventView::Complete
        },
        OutcomeView::Failed(FailureView::StreamEnded) => {
            &&& len >= 1
            &&& quiet(events.take(len - 1))
            &&& events[len - 1] == SinkEventView::Complete
        },
        OutcomeView::Failed(_) => true,
    }
}

/// Whether the outcome is one that a run announces to the subscriber
/// before it ends.
pub open spec fn announced(outcome: OutcomeView) -> bool {
    match outcome {
        OutcomeView::Failed(FailureView::Delivery { .. }) => false,
        OutcomeView::Failed(FailureView::OutOfTurn) => false,
        _ => true,
    }
}

/// What holds between the state of a run, the events that were
/// acknowledged and the executions that were counted.
pub open spec fn consistent(
    state: RunView,
    delivered: Seq<SinkEventView>,
    started: nat,
    finished: nat,
) -> bool {
    let committed = delivered + state.outbox;
    &&& state.depth_remaining + finished == MAX_DEPTH
    &&& match state.phase {
        PhaseView::Streaming => quiet(committed) && started == finished,
        PhaseView::ToolPending(_) => {
            &&& quiet(committed)
            &&& state.outbox.len() > 0
            &&& state.depth_remaining > 0
            &&& started == finished
        },
        PhaseView::Executing => {
            &&& quiet(committed)
            &&& if state.outbox.len() == 0 {
                state.depth_remaining > 0 && started == finished + 1
            } else {
                started == finished
            }
        },
        PhaseView::Closing(outcome) => {
            &&& state.outbox.len() > 0
            &&& announced(outcome)
            &&& closes_with(committed, outcome)
            &&& (started == finished || (started == finished + 1 && state.depth_remaining > 0))
        },
        PhaseView::Terminated(outcome) => {
            &&& state.outbox.len() == 0
            &&& closes_with(committed, outcome)
            &&& (started == finished || (started == finished + 1 && state.depth_remaining > 0))
        },
    }
}

proof fn quiet_grows(events: Seq<SinkEventView>, event: SinkEventView)
    requires
        quiet(events),
        !closes_run(event),
    ensures
        quiet(events.push(event)),
{
}

proof fn quiet_has_none(events: Seq<SinkEventView>, kind: SinkEventKind)
    requires
        quiet(events),
        kind == SinkEventKind::FinalResponse || kind == SinkEventKind::Error || kind
            == SinkEventKind::Complete,
    ensures
        occurrences(events, kind) == 0,
    decreases events.len(),
{
    if events.len() > 0 {
        assert(!closes_run(events[events.len() - 1]));
        assert forall|i: int| 0 <= i < events.drop_last().len() implies !closes_run(
            #[trigger] events.drop_last()[i],
        ) by {
            assert(events.drop_last()[i] == events[i]);
        }
        quiet_has_none(events.drop_last(), kind);
    }
}

proof fn absorb_keeps_consistent(
    state: RunView,
    delivered: Seq<SinkEventView>,
    started: nat,
    finished: nat,
    event: EventView,
)
    requires
        consistent(state, delivered, started, finished),
        state.phase is Streaming,
    ensures
        consistent(state.absorb(event), delivered, started, finished),
{
    let committed = delivered + state.outbox;
    let forwarded = state.outbox.push(SinkEventView::Event(event));
    let next = state.absorb(event);
    assert(delivered + forwarded =~= committed.push(SinkEventView::Event(event)));
    let closing = forwarded.push(SinkEventView::Complete);
    let all = committed.push(SinkEventView::Event(event)).push(SinkEventView::Complete);
    assert(delivered + closing =~= all);
    assert(all.take(all.len() - 2) =~= committed);
    match event {
        EventView::ToolCallRequested { name, raw_arguments } => {
            if state.depth_remaining > 0 {
                quiet_grows(committed, SinkEventView::Event(event));
            }
        },
        EventView::FinalResponse { .. } => {},
        EventView::StreamError { message } => {},
        _ => {
            quiet_grows(committed, SinkEventView::Event(event));
        },
    }
}

proof fn absorb_all_keeps_consistent(
    state: RunView,
    delivered: Seq<SinkEventView>,
    started: nat,
    finished: nat,
    events: Seq<EventView>,
)
    requires
        consistent(state, delivered, started, finished),
    ensures
        consistent(state.absorb_all(events), delivered, started, finished),
    decreases events.len(),
{
    if events.len() > 0 {
        absorb_all_keeps_consistent(state, delivered, started, finished, events.drop_last());
        let before = state.absorb_all(events.drop_last());
        if before.phase is Streaming {
            absorb_keeps_consistent(before, delivered, started, finished, events.last());
        }
    }
}

/// What holds when the last due event has just been acknowledged, and
/// the phase has not yet moved on.
spec fn drained(
    state: RunView,
    delivered: Seq<SinkEventView>,
    started: nat,
    finished: nat,
) -> bool {
    &&& state.outbox.len() == 0
    &&& state.depth_remaining + finished == MAX_DEPTH
    &&& match state.phase {
        PhaseView::Streaming => quiet(delivered) && started == finished,
        PhaseView::ToolPending(_) => {
            quiet(delivered) && state.depth_remaining > 0 && started == finished
        },
        PhaseView::Executing => quiet(delivered) && started == finished,
        PhaseView::Closing(outcome) => {
            &&& announced(outcome)
            &&& closes_with(delivered, outcome)
            &&& (started == finished || (started == finished + 1 && state.depth_remaining > 0))
        },
        PhaseView::Terminated(_) => false,
    }
}

proof fn settle_keeps_consistent(
    state: RunView,
    delivered: Seq<SinkEventView>,
    started: nat,
    finished: nat,
)
    requires
        drained(state, delivered, started, finished) || (!state.awaits_tool() && consistent(
            state,
            delivered,
            started,
            finished,
        )),
    ensures
        consistent(
            state.settle().0,
            delivered,
            if state.settle().1 is Execute {
                started + 1
            } else {
                started
            },
            finished,
        ),
{
    assert(delivered + state.outbox =~= delivered + state.settle().0.outbox);
    if state.outbox.len() == 0 {
        assert(delivered + state.outbox =~= delivered);
    }
}

/// One step keeps what holds between state, acknowledged events and
/// counted executions.
pub proof fn step_keeps_consistent(
    state: RunView,
    delivered: Seq<SinkEventView>,
    started: nat,
    finished: nat,
    input: InputView,
)
    requires
        consistent(state, delivered, started, finished),
    ensures
        consistent(
            state.step(input).0,
            if acknowledges(state, input) {
                delivered.push(state.outbox[0])
            } else {
                delivered
            },
            if starts_execution(state, input) {
                started + 1
            } else {
                started
            },
            if finishes_execution(state, input) {
                finished + 1
            } else {
                finished
            },
        ),
{
    let committed = delivered + state.outbox;
    if state.phase is Terminated {
    } else if state.outbox.len() > 0 {
        match input {
            InputView::Delivered => {
                let popped = RunView { outbox: state.outbox.drop_first(), ..state };
                let acknowledged = delivered.push(state.outbox[0]);
                assert(acknowledged + popped.outbox =~= committed);
                if popped.outbox.len() == 0 {
                    assert(acknowledged =~= committed);
                }
                settle_keeps_consistent(popped, acknowledged, started, finished);
            },
            _ => {
                assert(delivered + Seq::<SinkEventView>::empty() =~= delivered);
            },
        }
    } else {
        assert(committed =~= delivered);
        match input {
            InputView::Item(item) => {
                if state.phase is Streaming {
                    assert(RunView { phase: PhaseView::Streaming, ..state } == state);
                    absorb_all_keeps_consistent(
                        state,
                        delivered,
                        started,
                        finished,
                        normalized(item),
                    );
                    settle_keeps_consistent(
                        state.absorb_all(normalized(item)),
                        delivered,
                        started,
                        finished,
                    );
                } else if state.takes(item) {
                    let events = normalized(item);
                    let reading = RunView { phase: PhaseView::Streaming, ..state };
                    assert(events.drop_last() =~= Seq::<EventView>::empty());
                    assert(reading.absorb_all(events.drop_last()) == reading);
                    let next = state.taken(item);
                    assert(next == reading.absorb(events.last()));
                    let all = delivered + next.outbox;
                    assert(all.take(all.len() - 2) =~= delivered);
                    settle_keeps_consistent(next, delivered, started, finished);
                } else {
                    assert(delivered + Seq::<SinkEventView>::empty() =~= delivered);
                }
            },
            InputView::StreamEnded => {
                if state.phase is Streaming || state.phase is Executing {
                    let next = state.abandoned();
                    let all = delivered + next.outbox;
                    assert(all.take(all.len() - 1) =~= delivered);
                    settle_keeps_consistent(next, delivered, started, finished);
                } else {
                    assert(delivered + Seq::<SinkEventView>::empty() =~= delivered);
                }
            },
            InputView::ToolFinished(outcome) => {
                if state.phase is Executing {
                    let next = state.executed(outcome);
                    quiet_grows(delivered, next.outbox[0]);
                    quiet_grows(delivered.push(next.outbox[0]), next.outbox[1]);
                    assert(delivered + next.outbox =~= delivered.push(next.outbox[0]).push(
                        next.outbox[1],
                    ));
                    settle_keeps_consistent(next, delivered, started, (finished + 1) as nat);
                } else {
                    assert(delivered + Seq::<SinkEventView>::empty() =~= delivered);
                }
            },
            _ => {
                assert(delivered + Seq::<SinkEventView>::empty() =~= delivered);
            },
        }
    }
}

/// Every run, from its start, keeps what holds between state,
/// acknowledged events and counted executions.
pub proof fn run_is_consistent(inputs: Seq<InputView>)
    ensures
        consistent(
            state_after(RunView::initial(), inputs),
            delivered_after(RunView::initial(), inputs),
            executions_started(RunView::initial(), inputs),
            executions_finished(RunView::initial(), inputs),
        ),
    decreases inputs.len(),
{
    let start = RunView::initial();
    if inputs.len() == 0 {
        assert(Seq::<SinkEventView>::empty() + start.outbox =~= Seq::<SinkEventView>::empty());
    } else {
        run_is_consistent(inputs.drop_last());
        step_keeps_consistent(
            state_after(start, inputs.drop_last()),
            delivered_after(start, inputs.drop_last()),
            executions_started(start, inputs.drop_last()),
            executions_finished(start, inputs.drop_last()),
            inputs.last(),
        );
    }
}

/// A run that ended with its final response has delivered exactly one
/// final response, directly before the completion marker, which is the
/// last event and the only one of its kind; and no error.
pub proof fn completed_run_delivers_one_final_response(inputs: Seq<InputView>)
    requires
        state_after(RunView::initial(), inputs).phase == PhaseView::Terminated(
            OutcomeView::Completed,
        ),
    ensures
        ({
            let delivered = delivered_after(RunView::initial(), inputs);
            &&& delivered.len() >= 2
            &&& SinkEvent::kind_of(delivered[delivered.len() - 2])
                == SinkEventKind::FinalResponse
            &&& delivered.last() == SinkEventView::Complete
            &&& occurrences(delivered, SinkEventKind::FinalResponse) == 1
            &&& occurrences(delivered, SinkEventKind::Complete) == 1
            &&& occurrences(delivered, SinkEventKind::Error) == 0
        }),
{
    run_is_consistent(inputs);
    let state = state_after(RunView::initial(), inputs);
    let delivered = delivered_after(RunView::initial(), inputs);
    assert(delivered + state.outbox =~= delivered);
    closing_events_are_counted(delivered);
}

/// A run that ended with a stream error has delivered exactly one error,
/// which carries the stream error's message, directly before the
/// completion marker, which is the last event and the only one of its
/// kind; and no final response.
pub proof fn failed_stream_delivers_one_error(inputs: Seq<InputView>, message: Seq<char>)
    requires
        state_after(RunView::initial(), inputs).phase == PhaseView::Terminated(
            OutcomeView::Failed(FailureView::Stream(message)),
        ),
    ensures
        ({
            let delivered = delivered_after(RunView::initial(), inputs);
            &&& delivered.len() >= 2
            &&& delivered[delivered.len() - 2] == SinkEventView::Event(
                EventView::StreamError { message },
            )
            &&& delivered.last() == SinkEventView::Complete
            &&& occurrences(delivered, SinkEventKind::Error) == 1
            &&& occurrences(delivered, SinkEventKind::Complete) == 1
            &&& occurrences(delivered, SinkEventKind::FinalResponse) == 0
        }),
{
    run_is_consistent(inputs);
    let state = state_after(RunView::initial(), inputs);
    let delivered = delivered_after(RunView::initial(), inputs);
    assert(delivered + state.outbox =~= delivered);
    closing_events_are_counted(delivered);
}

/// A run that met a tool call with no execution left has delivered that
/// call, unanswered, directly before the completion marker; and neither
/// a final response nor an error.
pub proof fn exhausted_run_delivers_the_call(inputs: Seq<InputView>)
    requires
        state_after(RunView::initial(), inputs).phase == PhaseView::Terminated(
            OutcomeView::Failed(FailureView::DepthExhausted),
        ),
    ensures
        ({
            let delivered = delivered_after(RunView::initial(), inputs);
            &&& delivered.len() >= 2
            &&& SinkEvent::kind_of(delivered[delivered.len() - 2]) == SinkEventKind::ToolCall
            &&& delivered.last() == SinkEventView::Complete
            &&& occurrences(delivered, SinkEventKind::Complete) == 1
            &&& occurrences(delivered, SinkEventKind::FinalResponse) == 0
            &&& occurrences(delivered, SinkEventKind::Error) == 0
        }),
{
    run_is_consistent(inputs);
    let state = state_after(RunView::initial(), inputs);
    let delivered = delivered_after(RunView::initial(), inputs);
    assert(delivered + state.outbox =~= delivered);
    closing_events_are_counted(delivered);
}

/// Every run that ends with an outcome it announces, which is every
/// outcome but a failed delivery and an input out of turn, has delivered
/// the completion marker, once, as its last event.
pub proof fn ended_run_is_marked_complete(inputs: Seq<InputView>)
    requires
        state_after(RunView::initial(), inputs).phase is Terminated,
        announced(state_after(RunView::initial(), inputs).phase->Terminated_0),
    ensures
        ({
            let delivered = delivered_after(RunView::initial(), inputs);
            &&& delivered.len() >= 1
            &&& delivered.last() == SinkEventView::Complete
            &&& occurrences(delivered, SinkEventKind::Complete) == 1
        }),
{
    run_is_consistent(inputs);
    let state = state_after(RunView::initial(), inputs);
    let delivered = delivered_after(RunView::initial(), inputs);
    assert(delivered + state.outbox =~= delivered);
    if state.phase->Terminated_0 == OutcomeView::Failed(FailureView::StreamEnded) {
        let head = delivered.take(delivered.len() - 1);
        assert(delivered.drop_last() =~= head);
        quiet_has_none(head, SinkEventKind::Complete);
        occurrences_unfold(delivered, SinkEventKind::Complete);
    } else {
        closing_events_are_counted(delivered);
    }
}

/// While a run has not ended, the subscriber has received neither a
/// final response nor an error nor the completion marker: whatever ends
/// a run comes last.
pub proof fn closing_events_come_last(inputs: Seq<InputView>)
    requires
        ({
            let phase = state_after(RunView::initial(), inputs).phase;
            phase is Streaming || phase is ToolPending || phase is Executing
        }),
    ensures
        quiet(delivered_after(RunView::initial(), inputs)),
{
    run_is_consistent(inputs);
    let state = state_after(RunView::initial(), inputs);
    let delivered = delivered_after(RunView::initial(), inputs);
    let committed = delivered + state.outbox;
    assert forall|i: int| 0 <= i < delivered.len() implies !closes_run(
        #[trigger] delivered[i],
    ) by {
        assert(committed[i] == delivered[i]);
    }
}

proof fn closing_events_are_counted(events: Seq<SinkEventView>)
    requires
        events.len() >= 2,
        quiet(events.take(events.len() - 2)),
        events.last() == SinkEventView::Complete,
        SinkEvent::kind_of(events[events.len() - 2]) != SinkEventKind::Complete,
    ensures
        occurrences(events, SinkEventKind::Complete) == 1,
        occurrences(events, SinkEventKind::FinalResponse) == if SinkEvent::kind_of(
            events[events.len() - 2],
        ) == SinkEventKind::FinalResponse {
            1nat
        } else {
            0nat
        },
        occurrences(events, SinkEventKind::Error) == if SinkEvent::kind_of(
            events[events.len() - 2],
        ) == SinkEventKind::Error {
            1nat
        } else {
            0nat
        },
{
    let len = events.len() as int;
    let shorter = events.drop_last();
    let head = events.take(len - 2);
    assert(shorter.drop_last() =~= head);
    assert(shorter.last() == events[len - 2]);
    quiet_has_none(head, SinkEventKind::Complete);
    quiet_has_none(head, SinkEventKind::FinalResponse);
    quiet_has_none(head, SinkEventKind::Error);
    occurrences_unfold(shorter, SinkEventKind::Complete);
    occurrences_unfold(shorter, SinkEventKind::FinalResponse);
    occurrences_unfold(shorter, SinkEventKind::Error);
    occurrences_unfold(events, SinkEventKind::Complete);
    occurrences_unfold(events, SinkEventKind::FinalResponse);
    occurrences_unfold(events, SinkEventKind::Error);
}

proof fn occurrences_unfold(events: Seq<SinkEventView>, kind: SinkEventKind)
    requires
        events.len() > 0,
    ensures
        occurrences(events, kind) == occurrences(events.drop_last(), kind) + if SinkEvent::kind_of(
            events.last(),
        ) == kind {
            1nat
        } else {
            0nat
        },
{
}

/// No run asks for more than the allowed number of tool executions, and
/// the executions that are left are those that have not come back.
pub proof fn executions_are_bounded(inputs: Seq<InputView>)
    ensures
        executions_started(RunView::initial(), inputs) <= MAX_DEPTH,
        executions_finished(RunView::initial(), inputs) <= executions_started(
            RunView::initial(),
            inputs,
        ),
        state_after(RunView::initial(), inputs).depth_remaining + executions_finished(
            RunView::initial(),
            inputs,
        ) == MAX_DEPTH,
{
    run_is_consistent(inputs);
}

/// Each tool execution that comes back takes exactly one from the
/// executions that are left, and nothing else changes their number.
pub proof fn execution_costs_one(inputs: Seq<InputView>, input: InputView)
    ensures
        ({
            let state = state_after(RunView::initial(), inputs);
            state.step(input).0.depth_remaining + if finishes_execution(state, input) {
                1nat
            } else {
                0nat
            } == state.depth_remaining
        }),
{
    run_is_consistent(inputs);
    let state = state_after(RunView::initial(), inputs);
    if let InputView::Item(item) = input {
        depth_is_kept(RunView { phase: PhaseView::Streaming, ..state }, normalized(item));
    }
}

proof fn depth_is_kept(state: RunView, events: Seq<EventView>)
    ensures
        state.absorb_all(events).depth_remaining == state.depth_remaining,
    decreases events.len(),
{
    if events.len() > 0 {
        depth_is_kept(state, events.drop_last());
    }
}

/// The canonical events among the events that a subscriber is due, in
/// their order.
pub open spec fn canonical(events: Seq<SinkEventView>) -> Seq<EventView>
    decreases events.len(),
{
    if events.len() == 0 {
        Seq::empty()
    } else {
        let earlier = canonical(events.drop_last());
        match events.last() {
            SinkEventView::Event(event) => earlier.push(event),
            SinkEventView::Complete => earlier,
        }
    }
}

/// Whether absorbing a batch adds exactly its first `taken` events, in
/// their order, to what is due; and all of them where the stream is still
/// read afterwards.
pub open spec fn forwards(state: RunView, events: Seq<EventView>, taken: int) -> bool {
    let next = state.absorb_all(events);
    &&& 0 <= taken <= events.len()
    &&& canonical(next.outbox) == canonical(state.outbox) + events.take(taken)
    &&& next.phase is Streaming ==> taken == events.len()
}

proof fn canonical_grows(events: Seq<SinkEventView>, event: SinkEventView)
    ensures
        canonical(events.push(event)) == match event {
            SinkEventView::Event(inner) => canonical(events).push(inner),
            SinkEventView::Complete => canonical(events),
        },
{
    assert(events.push(event).drop_last() =~= events);
}

/// The events of a batch are forwarded in the order in which they came:
/// what a batch adds to the events that are due is a beginning of the
/// batch, unchanged, and the whole batch unless an event in it ended the
/// reading of the stream.
pub proof fn batch_is_forwarded_in_order(state: RunView, events: Seq<EventView>)
    ensures
        exists|taken: int| #[trigger] forwards(state, events, taken),
    decreases events.len(),
{
    if events.len() == 0 {
        assert(events.take(0) =~= Seq::<EventView>::empty());
        assert(canonical(state.outbox) + events.take(0) =~= canonical(state.outbox));
        assert(forwards(state, events, 0));
    } else {
        let shorter = events.drop_last();
        batch_is_forwarded_in_order(state, shorter);
        let taken = choose|taken: int| #[trigger] forwards(state, shorter, taken);
        let before = state.absorb_all(shorter);
        if before.phase is Streaming {
            let event = events.last();
            let forwarded = before.outbox.push(SinkEventView::Event(event));
            canonical_grows(before.outbox, SinkEventView::Event(event));
            canonical_grows(forwarded, SinkEventView::Complete);
            assert(shorter.take(taken) =~= shorter);
            assert(events.take(events.len() as int) =~= shorter.push(event));
            assert((canonical(state.outbox) + shorter).push(event) =~= canonical(state.outbox)
                + shorter.push(event));
            assert(forwards(state, events, events.len() as int));
        } else {
            assert(events.take(taken) =~= shorter.take(taken));
            assert(forwards(state, events, taken));
        }
    }
}

/// The stream is read, and a tool is run, only when nothing is due to
/// the subscriber: a subscriber that is slow to acknowledge holds the
/// whole run back.
pub proof fn nothing_is_due_when_the_host_is_sent_elsewhere(state: RunView, input: InputView)
    ensures
        ({
            let (next, action) = state.step(input);
            action is Pull || action is Resume || action is Execute ==> next.outbox.len() == 0
        }),
{
}

/// A tool that failed does not end the run: whatever the outcome, it is
/// published as the tool's result, the turn is closed, one execution
/// fewer is left, and the provider is called again.
pub proof fn tool_outcome_is_published(state: RunView, outcome: ToolOutcomeView)
    requires
        !(state.phase is Terminated),
        state.awaits_tool(),
    ensures
        ({
            let result = SinkEventView::Event(EventView::ToolResult { payload: outcome });
            let boundary = SinkEventView::Event(EventView::TurnBoundary);
            let (published, first) = state.step(InputView::ToolFinished(outcome));
            let (closed, second) = published.step(InputView::Delivered);
            let (resumed, third) = closed.step(InputView::Delivered);
            &&& first == ActionView::Publish(result)
            &&& second == ActionView::Publish(boundary)
            &&& third == ActionView::Resume
            &&& resumed.phase is Streaming
            &&& resumed.outbox.len() == 0
            &&& resumed.accumulator == AccumulatorView::fresh()
            &&& state.depth_remaining > 0 ==> resumed.depth_remaining == state.depth_remaining - 1
        }),
{
    let next = state.executed(outcome);
    assert(next.outbox.drop_first().len() == 1);
    assert(next.outbox.drop_first().drop_first().len() == 0);
}

/// A run that has met its final response, a stream error or the end of
/// its depth reads the stream no more and runs no tool: all that is left
/// to it is to publish what is due and to finish.
pub proof fn ending_run_reads_no_more(state: RunView, input: InputView)
    requires
        state.phase is Closing || state.phase is Terminated,
    ensures
        ({
            let (next, action) = state.step(input);
            &&& next.phase is Closing || next.phase is Terminated
            &&& action is Publish || action is Finish
        }),
{
}

/// A stream that fails while a tool is awaited is a stream error like
/// any other: the error is published, with the provider's words, the
/// completion marker follows, and the run ends with that error.
pub proof fn stream_failure_interrupts_tool(state: RunView, message: Seq<char>)
    requires
        !(state.phase is Terminated),
        state.awaits_tool(),
    ensures
        ({
            let words = STREAM_ERROR@ + message;
            let error = SinkEventView::Event(EventView::StreamError { message: words });
            let outcome = OutcomeView::Failed(FailureView::Stream(words));
            let (failed, first) = state.step(
                InputView::Item(RawItemView::Failure { message }),
            );
            let (marked, second) = failed.step(InputView::Delivered);
            let (ended, third) = marked.step(InputView::Delivered);
            &&& first == ActionView::Publish(error)
            &&& second == ActionView::Publish(SinkEventView::Complete)
            &&& third == ActionView::Finish(outcome)
            &&& ended.phase == PhaseView::Terminated(outcome)
            &&& ended.depth_remaining == state.depth_remaining
        }),
{
    let item = RawItemView::Failure { message };
    let events = normalized(item);
    let reading = RunView { phase: PhaseView::Streaming, ..state };
    assert(events.drop_last() =~= Seq::<EventView>::empty());
    assert(reading.absorb_all(events.drop_last()) == reading);
    let next = state.taken(item);
    assert(next == reading.absorb(events.last()));
    assert(next.outbox.drop_first().len() == 1);
    assert(next.outbox.drop_first().drop_first().len() == 0);
}

/// A run that is over stays over: whatever is reported to it, it
/// answers with its outcome and asks for nothing more.
pub proof fn terminated_run_stays(state: RunView, input: InputView)
    requires
        state.phase is Terminated,
    ensures
        state.step(input).0 == state,
        state.step(input).1 == ActionView::Finish(state.phase->Terminated_0),
{
}

/// A failed delivery ends the run at once: nothing more is due to the
/// subscriber, and the run's outcome names the event that was lost.
pub proof fn failed_delivery_ends_run(state: RunView, cause: Seq<char>)
    requires
        state.awaits_delivery(),
    ensures
        ({
            let failure = FailureView::Delivery {
                event: SinkEvent::kind_of(state.outbox[0]),
                cause,
            };
            let next = state.step(InputView::DeliveryFailed(cause));
            &&& next.0.phase == PhaseView::Terminated(OutcomeView::Failed(failure))
            &&& next.0.outbox.len() == 0
            &&& next.1 == ActionView::Finish(OutcomeView::Failed(failure))
        }),
{
}

} // verus!
