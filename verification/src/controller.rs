//! The bounded tool loop: a state machine that is told what happened and
//! answers with the one thing to do next.
//!
//! The host performs each action and reports its result as the next
//! input: a pulled stream item, a delivery acknowledgement, a tool
//! outcome. Events reach the subscriber one at a time, each only after
//! the one before it was acknowledged.

use vstd::prelude::*;

use crate::accumulator::{AccumulatorView, TurnAccumulator};
use crate::event::{
    sink_views, CanonicalEvent, EventView, InvocationView, RawItem, RawItemView, SinkEvent,
    SinkEventKind, SinkEventView, ToolInvocation, ToolOutcome, ToolOutcomeView,
};
use crate::history::{assemble, ConversationHistory, HistoryError, HistoryErrorView, HistoryView};
use crate::message::ChatMessage;
use crate::normalizer::{normalize, normalized};
use crate::prompt::SYSTEM_PROMPT;

verus! {

/// How many tool executions one run may perform.
pub const MAX_DEPTH: u32 = 5;

/// The message of a run that met a tool call with no execution left.
pub const DEPTH_EXHAUSTED: &'static str = "Tool call requested beyond the depth limit";

/// The message of a run whose stream ended before its final response.
pub const STREAM_ENDED: &'static str = "Stream ended without a final response";

/// The message of a run that was told something it had not asked for.
pub const OUT_OF_TURN: &'static str = "Input does not answer the pending action";

/// Why a run ended without a final response.
#[derive(Debug, Clone, PartialEq, Eq)]
pub enum Failure {
    /// The provider's stream failed; the message is the stream error's.
    Stream(String),
    /// The subscriber could not be reached with an event of this kind.
    Delivery { event: SinkEventKind, cause: String },
    /// The provider asked for a tool when no execution was left.
    DepthExhausted,
    /// The provider's stream ended before a final response.
    StreamEnded,
    /// The host reported something that the pending action does not ask
    /// for.
    OutOfTurn,
}

/// The mathematical content of a [`Failure`].
pub enum FailureView {
    Stream(Seq<char>),
    Delivery { event: SinkEventKind, cause: Seq<char> },
    DepthExhausted,
    StreamEnded,
    OutOfTurn,
}

impl View for Failure {
    type V = FailureView;

    open spec fn view(&self) -> FailureView {
        match self {
            Failure::Stream(message) => FailureView::Stream(message@),
            Failure::Delivery { event, cause } => FailureView::Delivery {
                event: *event,
                cause: cause@,
            },
            Failure::DepthExhausted => FailureView::DepthExhausted,
            Failure::StreamEnded => FailureView::StreamEnded,
            Failure::OutOfTurn => FailureView::OutOfTurn,
        }
    }
}

/// What a failed delivery calls the event that it could not deliver.
pub open spec fn delivery_subject(kind: SinkEventKind) -> Seq<char> {
    match kind {
        SinkEventKind::Token => "token"@,
        SinkEventKind::ToolCall => "tool call"@,
        SinkEventKind::ToolResult => "tool result"@,
        SinkEventKind::NewTurn => "new-turn"@,
        SinkEventKind::FinalResponse => "final response"@,
        SinkEventKind::Error => "error"@,
        SinkEventKind::Complete => "completion"@,
    }
}

impl Failure {
    /// The words in which a failure is reported.
    pub open spec fn text(failure: FailureView) -> Seq<char> {
        match failure {
            FailureView::Stream(message) => message,
            FailureView::Delivery { event, cause } => "Failed to emit "@ + delivery_subject(event)
                + ": "@ + cause,
            FailureView::DepthExhausted => DEPTH_EXHAUSTED@,
            FailureView::StreamEnded => STREAM_ENDED@,
            FailureView::OutOfTurn => OUT_OF_TURN@,
        }
    }

    /// The words in which this failure is reported.
    pub fn message(&self) -> (words: String)
        ensures
            words@ == Self::text(self@),
    {
        match self {
            Failure::Stream(message) => message.clone(),
            Failure::Delivery { event, cause } => {
                let mut words = String::from_str("Failed to emit ");
                let subject = match event {
                    SinkEventKind::Token => "token",
                    SinkEventKind::ToolCall => "tool call",
                    SinkEventKind::ToolResult => "tool result",
                    SinkEventKind::NewTurn => "new-turn",
                    SinkEventKind::FinalResponse => "final response",
                    SinkEventKind::Error => "error",
                    SinkEventKind::Complete => "completion",
                };
                words.append(subject);
                words.append(": ");
                words.append(cause.as_str());
                words
            },
            Failure::DepthExhausted => String::from_str(DEPTH_EXHAUSTED),
            Failure::StreamEnded => String::from_str(STREAM_ENDED),
            Failure::OutOfTurn => String::from_str(OUT_OF_TURN),
        }
    }

    /// A copy with the same content.
    pub fn duplicate(&self) -> (copy: Failure)
        ensures
            copy@ == self@,
    {
        match self {
            Failure::Stream(message) => Failure::Stream(message.clone()),
            Failure::Delivery { event, cause } => Failure::Delivery {
                event: *event,
                cause: cause.clone(),
            },
            Failure::DepthExhausted => Failure::DepthExhausted,
            Failure::StreamEnded => Failure::StreamEnded,
            Failure::OutOfTurn => Failure::OutOfTurn,
        }
    }
}

/// How a run ended.
#[derive(Debug, Clone, PartialEq, Eq)]
pub enum Outcome {
    /// The final response was delivered, and the completion marker after
    /// it.
    Completed,
    /// The run ended for another reason.
    Failed(Failure),
}

/// The mathematical content of an [`Outcome`].
pub enum OutcomeView {
    Completed,
    Failed(FailureView),
}

impl View for Outcome {
    type V = OutcomeView;

    open spec fn view(&self) -> OutcomeView {
        match self {
            Outcome::Completed => OutcomeView::Completed,
            Outcome::Failed(failure) => OutcomeView::Failed(failure@),
        }
    }
}

impl Outcome {
    /// What the caller of a run is told in the end: nothing on success,
    /// the failure's words otherwise.
    pub open spec fn report(outcome: OutcomeView) -> Result<(), Seq<char>> {
        match outcome {
            OutcomeView::Completed => Ok(()),
            OutcomeView::Failed(failure) => Err(Failure::text(failure)),
        }
    }

    /// What the caller of the run is told in the end.
    pub fn into_result(self) -> (result: Result<(), String>)
        ensures
            match result {
                Ok(_) => Self::report(self@) == Ok::<(), Seq<char>>(()),
                Err(words) => Self::report(self@) == Err::<(), Seq<char>>(words@),
            },
    {
        match self {
            Outcome::Completed => Ok(()),
            Outcome::Failed(failure) => Err(failure.message()),
        }
    }

    /// A copy with the same content.
    pub fn duplicate(&self) -> (copy: Outcome)
        ensures
            copy@ == self@,
    {
        match self {
            Outcome::Completed => Outcome::Completed,
            Outcome::Failed(failure) => Outcome::Failed(failure.duplicate()),
        }
    }
}

/// Where a run stands.
#[derive(Debug, Clone, PartialEq, Eq)]
pub enum Phase {
    /// The provider's stream is open and its events are forwarded.
    Streaming,
    /// The provider asked for this tool; the request is on its way to the
    /// subscriber and the tool runs once it has arrived.
    ToolPending(ToolInvocation),
    /// The tool runs, or its result and the turn boundary are on their
    /// way to the subscriber.
    Executing,
    /// The run is over but for its last events, which are on their way.
    Closing(Outcome),
    /// The run is over.
    Terminated(Outcome),
}

/// The mathematical content of a [`Phase`].
pub enum PhaseView {
    Streaming,
    ToolPending(InvocationView),
    Executing,
    Closing(OutcomeView),
    Terminated(OutcomeView),
}

impl View for Phase {
    type V = PhaseView;

    open spec fn view(&self) -> PhaseView {
        match self {
            Phase::Streaming => PhaseView::Streaming,
            Phase::ToolPending(call) => PhaseView::ToolPending(call@),
            Phase::Executing => PhaseView::Executing,
            Phase::Closing(outcome) => PhaseView::Closing(outcome@),
            Phase::Terminated(outcome) => PhaseView::Terminated(outcome@),
        }
    }
}

/// What the host reports to the run.
#[derive(Debug, Clone, PartialEq, Eq)]
pub enum Input {
    /// The stream yielded this item.
    Item(RawItem),
    /// The stream is exhausted.
    StreamEnded,
    /// The tool ran and came to this.
    ToolFinished(ToolOutcome),
    /// The subscriber has the event that was published last.
    Delivered,
    /// The event that was published last could not be delivered.
    DeliveryFailed(String),
}

/// The mathematical content of an [`Input`].
pub enum InputView {
    Item(RawItemView),
    StreamEnded,
    ToolFinished(ToolOutcomeView),
    Delivered,
    DeliveryFailed(Seq<char>),
}

impl View for Input {
    type V = InputView;

    open spec fn view(&self) -> InputView {
        match self {
            Input::Item(item) => InputView::Item(item@),
            Input::StreamEnded => InputView::StreamEnded,
            Input::ToolFinished(outcome) => InputView::ToolFinished(outcome@),
            Input::Delivered => InputView::Delivered,
            Input::DeliveryFailed(cause) => InputView::DeliveryFailed(cause@),
        }
    }
}

/// Why an event did not reach the subscriber.
#[derive(Debug, Clone, PartialEq, Eq)]
pub struct DeliveryError {
    pub cause: String,
}

impl Input {
    /// What a read of the stream is reported as: an item, the end of the
    /// stream, or, where the read failed, the failure as an item.
    pub open spec fn of_pull(read: Option<Result<RawItemView, Seq<char>>>) -> InputView {
        match read {
            Some(Ok(item)) => InputView::Item(item),
            Some(Err(message)) => InputView::Item(RawItemView::Failure { message }),
            None => InputView::StreamEnded,
        }
    }

    /// Reports a read of the stream.
    pub fn from_pull(read: Option<Result<RawItem, String>>) -> (input: Input)
        ensures
            input@ == Self::of_pull(
                match read {
                    Some(Ok(item)) => Some(Ok(item@)),
                    Some(Err(message)) => Some(Err(message@)),
                    None => None,
                },
            ),
    {
        match read {
            Some(Ok(item)) => Input::Item(item),
            Some(Err(message)) => Input::Item(RawItem::Failure { message }),
            None => Input::StreamEnded,
        }
    }

    /// Reports what publishing an event came to.
    pub fn from_delivery(published: Result<(), DeliveryError>) -> (input: Input)
        ensures
            input@ == match published {
                Ok(_) => InputView::Delivered,
                Err(error) => InputView::DeliveryFailed(error.cause@),
            },
    {
        match published {
            Ok(_) => Input::Delivered,
            Err(error) => Input::DeliveryFailed(error.cause),
        }
    }
}

/// What the run asks of the host.
#[derive(Debug, Clone, PartialEq, Eq)]
pub enum Action {
    /// Read the next item of the open stream.
    Pull,
    /// Call the provider again, with the tool's result added to the
    /// conversation, and read the first item of the new stream.
    Resume,
    /// Deliver this event to the subscriber.
    Publish(SinkEvent),
    /// Run this tool.
    Execute(ToolInvocation),
    /// Nothing more: the run ended so.
    Finish(Outcome),
}

/// The mathematical content of an [`Action`].
pub enum ActionView {
    Pull,
    Resume,
    Publish(SinkEventView),
    Execute(InvocationView),
    Finish(OutcomeView),
}

impl View for Action {
    type V = ActionView;

    open spec fn view(&self) -> ActionView {
        match self {
            Action::Pull => ActionView::Pull,
            Action::Resume => ActionView::Resume,
            Action::Publish(event) => ActionView::Publish(event@),
            Action::Execute(call) => ActionView::Execute(call@),
            Action::Finish(outcome) => ActionView::Finish(outcome@),
        }
    }
}

/// The state of one run. It lives for one request and is owned by
/// whoever drives the run.
#[derive(Debug, PartialEq, Eq)]
pub struct OrchestrationRun {
    phase: Phase,
    depth_remaining: u32,
    accumulator: TurnAccumulator,
    outbox: Vec<SinkEvent>,
}

/// The mathematical content of an [`OrchestrationRun`].
pub struct RunView {
    /// Where the run stands.
    pub phase: PhaseView,
    /// How many tool executions are left.
    pub depth_remaining: nat,
    /// The text of the current turn.
    pub accumulator: AccumulatorView,
    /// The events that are due to the subscriber, in order. The first of
    /// them is the one that was published and awaits its acknowledgement.
    pub outbox: Seq<SinkEventView>,
}

impl View for OrchestrationRun {
    type V = RunView;

    closed spec fn view(&self) -> RunView {
        RunView {
            phase: self.phase@,
            depth_remaining: self.depth_remaining as nat,
            accumulator: self.accumulator@,
            outbox: sink_views(self.outbox@),
        }
    }
}

impl RunView {
    /// A run at its start: the stream is open, every execution is left,
    /// and nothing is due to the subscriber.
    pub open spec fn initial() -> RunView {
        RunView {
            phase: PhaseView::Streaming,
            depth_remaining: MAX_DEPTH as nat,
            accumulator: AccumulatorView::fresh(),
            outbox: Seq::empty(),
        }
    }

    /// The run after one more canonical event of the open stream. The
    /// event is due to the subscriber and passes the accumulator. A tool
    /// call is accepted while an execution is left and ends the run
    /// otherwise; a final response and a stream error end the run. Each
    /// ending is followed by the completion marker. Once the run has left
    /// the streaming phase, the events behind are dropped.
    pub open spec fn absorb(self, event: EventView) -> RunView {
        if !(self.phase is Streaming) {
            self
        } else {
            let forwarded = RunView {
                accumulator: self.accumulator.observed(event),
                outbox: self.outbox.push(SinkEventView::Event(event)),
                ..self
            };
            let closing = forwarded.outbox.push(SinkEventView::Complete);
            match event {
                EventView::ToolCallRequested { name, raw_arguments } => {
                    if self.depth_remaining > 0 {
                        RunView {
                            phase: PhaseView::ToolPending(
                                InvocationView { name, arguments: raw_arguments },
                            ),
                            ..forwarded
                        }
                    } else {
                        RunView {
                            phase: PhaseView::Closing(
                                OutcomeView::Failed(FailureView::DepthExhausted),
                            ),
                            outbox: closing,
                            ..forwarded
                        }
                    }
                },
                EventView::FinalResponse { .. } => RunView {
                    phase: PhaseView::Closing(OutcomeView::Completed),
                    outbox: closing,
                    ..forwarded
                },
                EventView::StreamError { message } => RunView {
                    phase: PhaseView::Closing(OutcomeView::Failed(FailureView::Stream(message))),
                    outbox: closing,
                    ..forwarded
                },
                _ => forwarded,
            }
        }
    }

    /// The run after a batch of canonical events, taken in order.
    pub open spec fn absorb_all(self, events: Seq<EventView>) -> RunView
        decreases events.len(),
    {
        if events.len() == 0 {
            self
        } else {
            self.absorb_all(events.drop_last()).absorb(events.last())
        }
    }

    /// What to do next, and the state in which it is done. While an event
    /// is due, the first one is published. Else the phase decides: an
    /// open stream is read, a pending tool is run, a finished execution
    /// has the provider called again, and a closing run is over.
    pub open spec fn settle(self) -> (RunView, ActionView) {
        if self.outbox.len() > 0 {
            (self, ActionView::Publish(self.outbox[0]))
        } else {
            match self.phase {
                PhaseView::Streaming => (self, ActionView::Pull),
                PhaseView::ToolPending(call) => (
                    RunView { phase: PhaseView::Executing, ..self },
                    ActionView::Execute(call),
                ),
                PhaseView::Executing => (
                    RunView { phase: PhaseView::Streaming, ..self },
                    ActionView::Resume,
                ),
                PhaseView::Closing(outcome) => (
                    RunView { phase: PhaseView::Terminated(outcome), ..self },
                    ActionView::Finish(outcome),
                ),
                PhaseView::Terminated(outcome) => (self, ActionView::Finish(outcome)),
            }
        }
    }

    /// The run ended by a failure, at once: what was due to the
    /// subscriber is dropped.
    pub open spec fn fail(self, failure: FailureView) -> (RunView, ActionView) {
        (
            RunView {
                phase: PhaseView::Terminated(OutcomeView::Failed(failure)),
                outbox: Seq::empty(),
                ..self
            },
            ActionView::Finish(OutcomeView::Failed(failure)),
        )
    }

    /// The run after a tool execution: its result and the boundary that
    /// closes the turn are due to the subscriber, the accumulator starts
    /// afresh, and one execution fewer is left.
    pub open spec fn executed(self, outcome: ToolOutcomeView) -> RunView {
        RunView {
            depth_remaining: if self.depth_remaining > 0 {
                (self.depth_remaining - 1) as nat
            } else {
                0
            },
            accumulator: AccumulatorView::fresh(),
            outbox: seq![
                SinkEventView::Event(EventView::ToolResult { payload: outcome }),
                SinkEventView::Event(EventView::TurnBoundary),
            ],
            ..self
        }
    }

    /// The run whose stream ended before a final response: only the
    /// completion marker is due.
    pub open spec fn abandoned(self) -> RunView {
        RunView {
            phase: PhaseView::Closing(OutcomeView::Failed(FailureView::StreamEnded)),
            outbox: seq![SinkEventView::Complete],
            ..self
        }
    }

    /// Whether the run waits for a tool's outcome.
    pub open spec fn awaits_tool(self) -> bool {
        self.phase is Executing && self.outbox.len() == 0
    }

    /// Whether the run waits for an item of the stream.
    pub open spec fn awaits_item(self) -> bool {
        self.phase is Streaming && self.outbox.len() == 0
    }

    /// Whether the run waits for the acknowledgement of an event.
    pub open spec fn awaits_delivery(self) -> bool {
        !(self.phase is Terminated) && self.outbox.len() > 0
    }

    /// Whether the run takes this item of the stream: any item while it
    /// reads the stream, and the news that the stream failed also while it
    /// waits for a tool.
    pub open spec fn takes(self, item: RawItemView) -> bool {
        self.outbox.len() == 0 && (self.phase is Streaming || (self.phase is Executing
            && item is Failure))
    }

    /// The run after an item of the stream that it takes: the item's
    /// events are absorbed as events of the open stream.
    pub open spec fn taken(self, item: RawItemView) -> RunView {
        RunView { phase: PhaseView::Streaming, ..self }.absorb_all(normalized(item))
    }

    /// The state after an input, and the action that answers it.
    ///
    /// A run that is over stays as it is. While an event awaits its
    /// acknowledgement, the acknowledgement moves on to the next event or
    /// to what the phase asks for, and a failed delivery ends the run at
    /// once. A run that reads the stream takes an item, whose events it
    /// absorbs, or the end of the stream. A run that waits for a tool
    /// takes its outcome; if the stream fails or ends meanwhile, that is
    /// a stream error or the end of the stream as at any other time. Any
    /// other input ends the run as out of turn.
    pub open spec fn step(self, input: InputView) -> (RunView, ActionView) {
        if let PhaseView::Terminated(outcome) = self.phase {
            (self, ActionView::Finish(outcome))
        } else if self.outbox.len() > 0 {
            match input {
                InputView::Delivered => RunView {
                    outbox: self.outbox.drop_first(),
                    ..self
                }.settle(),
                InputView::DeliveryFailed(cause) => self.fail(
                    FailureView::Delivery { event: SinkEvent::kind_of(self.outbox[0]), cause },
                ),
                _ => self.fail(FailureView::OutOfTurn),
            }
        } else {
            match input {
                InputView::Item(item) if self.takes(item) => self.taken(item).settle(),
                InputView::StreamEnded if self.phase is Streaming || self.phase is Executing => {
                    self.abandoned().settle()
                },
                InputView::ToolFinished(outcome) if self.phase is Executing => self.executed(
                    outcome,
                ).settle(),
                _ => self.fail(FailureView::OutOfTurn),
            }
        }
    }
}

/// What the run is told of a tool that the provider runs by itself, from
/// what the stream yielded while the tool was awaited and from what the
/// tool left behind. Where the stream yields the tool's result, the tool
/// has finished: with success if it left a success behind, with failure
/// if it left a failure or, never having run, nothing; the payload is the
/// provider's report either way. Whatever else the stream yields is told
/// as what it is: an item, a failed read, the end of the stream.
pub open spec fn tool_reported(
    read: Option<Result<RawItemView, Seq<char>>>,
    left: Option<ToolOutcomeView>,
) -> InputView {
    match read {
        Some(Ok(RawItemView::ToolResult { payload })) => InputView::ToolFinished(
            match left {
                Some(ToolOutcomeView::Success(_)) => ToolOutcomeView::Success(payload),
                _ => ToolOutcomeView::Failure(payload),
            },
        ),
        _ => Input::of_pull(read),
    }
}

/// Reports what came of a tool that the provider runs by itself.
pub fn tool_report(read: Option<Result<RawItem, String>>, left: Option<ToolOutcome>) -> (input:
    Input)
    ensures
        input@ == tool_reported(
            match read {
                Some(Ok(item)) => Some(Ok(item@)),
                Some(Err(message)) => Some(Err(message@)),
                None => None,
            },
            match left {
                Some(outcome) => Some(outcome@),
                None => None,
            },
        ),
{
    match read {
        Some(Ok(RawItem::ToolResult { payload })) => {
            let succeeded = match left {
                Some(ToolOutcome::Success(_)) => true,
                _ => false,
            };
            if succeeded {
                Input::ToolFinished(ToolOutcome::Success(payload))
            } else {
                Input::ToolFinished(ToolOutcome::Failure(payload))
            }
        },
        other => Input::from_pull(other),
    }
}

impl OrchestrationRun {
    /// Starts a run on a message log: assembles the history and, where
    /// that succeeds, hands out a run at its start together with the
    /// history to open the provider's stream with. A log that does not
    /// assemble starts no run.
    pub fn begin(log: &Vec<ChatMessage>) -> (result: Result<
        (OrchestrationRun, ConversationHistory),
        HistoryError,
    >)
        ensures
            match result {
                Ok((run, history)) => {
                    &&& run@ == RunView::initial()
                    &&& assemble(SYSTEM_PROMPT@, log@) == Ok::<HistoryView, HistoryErrorView>(
                        history@,
                    )
                },
                Err(fault) => assemble(SYSTEM_PROMPT@, log@) == Err::<
                    HistoryView,
                    HistoryErrorView,
                >(fault@),
            },
    {
        match ConversationHistory::build(log) {
            Ok(history) => {
                let run = OrchestrationRun {
                    phase: Phase::Streaming,
                    depth_remaining: MAX_DEPTH,
                    accumulator: TurnAccumulator::new(),
                    outbox: Vec::new(),
                };
                assert(sink_views(run.outbox@) =~= Seq::<SinkEventView>::empty());
                Ok((run, history))
            },
            Err(fault) => Err(fault),
        }
    }

    /// How many tool executions are left.
    pub fn depth_remaining(&self) -> (depth: u32)
        ensures
            depth == self@.depth_remaining,
    {
        self.depth_remaining
    }

    /// The text that the current turn has produced so far.
    pub fn accumulated_text(&self) -> (text: &str)
        ensures
            text@ == self@.accumulator.accumulated_text,
    {
        self.accumulator.text()
    }

    /// Whether the current turn has produced any text delta.
    pub fn has_text(&self) -> (any: bool)
        ensures
            any == self@.accumulator.has_text,
    {
        self.accumulator.has_text
    }

    /// Whether the run is over.
    pub fn terminated(&self) -> (over: bool)
        ensures
            over == (self@.phase is Terminated),
    {
        match &self.phase {
            Phase::Terminated(_) => true,
            _ => false,
        }
    }

    /// Where the run stands.
    pub fn phase(&self) -> (phase: &Phase)
        ensures
            phase@ == self@.phase,
    {
        &self.phase
    }

    /// How many events are due to the subscriber.
    pub fn pending_events(&self) -> (count: usize)
        ensures
            count == self@.outbox.len(),
    {
        self.outbox.len()
    }

    fn absorb(&mut self, event: CanonicalEvent)
        ensures
            final(self)@ == old(self)@.absorb(event@),
    {
        let streaming = match &self.phase {
            Phase::Streaming => true,
            _ => false,
        };
        if !streaming {
            return ;
        }
        let ghost before = sink_views(self.outbox@);
        self.accumulator.observe(&event);
        let next: Option<Phase> = match &event {
            CanonicalEvent::ToolCallRequested { name, raw_arguments } => {
                if self.depth_remaining > 0 {
                    Some(
                        Phase::ToolPending(
                            ToolInvocation {
                                name: name.clone(),
                                arguments: raw_arguments.clone(),
                            },
                        ),
                    )
                } else {
                    Some(Phase::Closing(Outcome::Failed(Failure::DepthExhausted)))
                }
            },
            CanonicalEvent::FinalResponse { .. } => Some(Phase::Closing(Outcome::Completed)),
            CanonicalEvent::StreamError { message } => Some(
                Phase::Closing(Outcome::Failed(Failure::Stream(message.clone()))),
            ),
            _ => None,
        };
        self.outbox.push(SinkEvent::Event(event));
        assert(sink_views(self.outbox@) =~= before.push(SinkEventView::Event(event@)));
        match next {
            Some(phase) => {
                let closes = match &phase {
                    Phase::Closing(_) => true,
                    _ => false,
                };
                self.phase = phase;
                if closes {
                    let ghost forwarded = sink_views(self.outbox@);
                    self.outbox.push(SinkEvent::Complete);
                    assert(sink_views(self.outbox@) =~= forwarded.push(SinkEventView::Complete));
                }
            },
            None => {},
        }
    }

    fn settle(self) -> (next: (OrchestrationRun, Action))
        ensures
            next.0@ == self@.settle().0,
            next.1@ == self@.settle().1,
    {
        if self.outbox.len() > 0 {
            let event = self.outbox[0].duplicate();
            return (self, Action::Publish(event));
        }
        let OrchestrationRun { phase, depth_remaining, accumulator, outbox } = self;
        match phase {
            Phase::Streaming => (
                OrchestrationRun { phase: Phase::Streaming, depth_remaining, accumulator, outbox },
                Action::Pull,
            ),
            Phase::ToolPending(call) => (
                OrchestrationRun { phase: Phase::Executing, depth_remaining, accumulator, outbox },
                Action::Execute(call),
            ),
            Phase::Executing => (
                OrchestrationRun { phase: Phase::Streaming, depth_remaining, accumulator, outbox },
                Action::Resume,
            ),
            Phase::Closing(outcome) => {
                let told = outcome.duplicate();
                (
                    OrchestrationRun {
                        phase: Phase::Terminated(outcome),
                        depth_remaining,
                        accumulator,
                        outbox,
                    },
                    Action::Finish(told),
                )
            },
            Phase::Terminated(outcome) => {
                let told = outcome.duplicate();
                (
                    OrchestrationRun {
                        phase: Phase::Terminated(outcome),
                        depth_remaining,
                        accumulator,
                        outbox,
                    },
                    Action::Finish(told),
                )
            },
        }
    }

    fn fail(self, failure: Failure) -> (next: (OrchestrationRun, Action))
        ensures
            next.0@ == self@.fail(failure@).0,
            next.1@ == self@.fail(failure@).1,
    {
        let told = Outcome::Failed(failure.duplicate());
        let run = OrchestrationRun {
            phase: Phase::Terminated(Outcome::Failed(failure)),
            depth_remaining: self.depth_remaining,
            accumulator: self.accumulator,
            outbox: Vec::new(),
        };
        assert(sink_views(run.outbox@) =~= Seq::<SinkEventView>::empty());
        (run, Action::Finish(told))
    }

    /// Takes what the host reports and answers with the next action.
    pub fn step(self, input: Input) -> (next: (OrchestrationRun, Action))
        ensures
            next.0@ == self@.step(input@).0,
            next.1@ == self@.step(input@).1,
    {
        let mut run = self;
        if let Phase::Terminated(outcome) = &run.phase {
            let told = outcome.duplicate();
            return (run, Action::Finish(told));
        }
        if run.outbox.len() > 0 {
            match input {
                Input::Delivered => {
                    let ghost before = sink_views(run.outbox@);
                    let _ = run.outbox.remove(0);
                    assert(sink_views(run.outbox@) =~= before.drop_first());
                    run.settle()
                },
                Input::DeliveryFailed(cause) => {
                    let event = run.outbox[0].kind();
                    run.fail(Failure::Delivery { event, cause })
                },
                _ => run.fail(Failure::OutOfTurn),
            }
        } else {
            let streaming = match &run.phase {
                Phase::Streaming => true,
                _ => false,
            };
            let executing = match &run.phase {
                Phase::Executing => true,
                _ => false,
            };
            match input {
                Input::Item(item) => {
                    let failed = match &item {
                        RawItem::Failure { .. } => true,
                        _ => false,
                    };
                    if !(streaming || (executing && failed)) {
                        return run.fail(Failure::OutOfTurn);
                    }
                    run.phase = Phase::Streaming;
                    let ghost start = run@;
                    let batch = normalize(&item);
                    let mut i: usize = 0;
                    while i < batch.len()
                        invariant
                            i <= batch.len(),
                            run@ == start.absorb_all(
                                crate::event::event_views(batch@).take(i as int),
                            ),
                        decreases batch.len() - i,
                    {
                        let event = batch[i].duplicate();
                        proof {
                            let views = crate::event::event_views(batch@);
                            assert(views.take(i + 1).drop_last() =~= views.take(i as int));
                            assert(views.take(i + 1).last() == event@);
                        }
                        run.absorb(event);
                        i += 1;
                    }
                    proof {
                        let views = crate::event::event_views(batch@);
                        assert(views.take(i as int) =~= views);
                    }
                    run.settle()
                },
                Input::StreamEnded => {
                    if !(streaming || executing) {
                        return run.fail(Failure::OutOfTurn);
                    }
                    run.phase = Phase::Closing(Outcome::Failed(Failure::StreamEnded));
                    run.outbox.push(SinkEvent::Complete);
                    assert(sink_views(run.outbox@) =~= seq![SinkEventView::Complete]);
                    run.settle()
                },
                Input::ToolFinished(outcome) => {
                    if !executing {
                        return run.fail(Failure::OutOfTurn);
                    }
                    if run.depth_remaining > 0 {
                        run.depth_remaining = run.depth_remaining - 1;
                    }
                    run.accumulator = TurnAccumulator::new();
                    run.outbox.push(
                        SinkEvent::Event(CanonicalEvent::ToolResult { payload: outcome }),
                    );
                    run.outbox.push(SinkEvent::Event(CanonicalEvent::TurnBoundary));
                    assert(sink_views(run.outbox@) =~= seq![
                        SinkEventView::Event(EventView::ToolResult { payload: outcome@ }),
                        SinkEventView::Event(EventView::TurnBoundary),
                    ]);
                    run.settle()
                },
                _ => run.fail(Failure::OutOfTurn),
            }
        }
    }
}

} // verus!
