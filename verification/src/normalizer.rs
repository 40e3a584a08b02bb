//! Mapping a provider's stream items to canonical events.

use vstd::prelude::*;

use crate::accumulator::{AccumulatorView, TurnAccumulator};
use crate::event::{
    event_views, raw_views, CanonicalEvent, EventView, ToolOutcomeView, RawItem, RawItemView,
    ToolOutcome,
};

verus! {

/// What precedes the provider's words in the message of a stream error.
pub const STREAM_ERROR: &'static str = "Stream error: ";

/// The canonical events of one stream item, in the order in which they
/// are to be forwarded. Text becomes a text delta, a tool request a tool
/// call, the closing answer a final response, and a transport failure a
/// stream error. A tool result that the provider reports is followed at
/// once by the boundary that closes the turn. Any other item gives
/// nothing.
pub open spec fn normalized(item: RawItemView) -> Seq<EventView> {
    match item {
        RawItemView::Text(text) => seq![EventView::TextDelta { text }],
        RawItemView::ToolCall { name, arguments } => seq![
            EventView::ToolCallRequested { name, raw_arguments: arguments },
        ],
        RawItemView::ToolResult { payload } => seq![
            EventView::ToolResult { payload: ToolOutcomeView::Success(payload) },
            EventView::TurnBoundary,
        ],
        RawItemView::Final { text } => seq![EventView::FinalResponse { text }],
        RawItemView::Failure { message } => seq![
            EventView::StreamError { message: STREAM_ERROR@ + message },
        ],
        RawItemView::Other => Seq::empty(),
    }
}

/// Whether the events so far end in a stream error, after which nothing
/// more is read.
pub open spec fn stream_failed(events: Seq<EventView>) -> bool {
    events.len() > 0 && events.last() is StreamError
}

/// The canonical events of a whole captured stream: those of its items
/// in order, up to and including the first stream error.
pub open spec fn replayed(items: Seq<RawItemView>) -> Seq<EventView>
    decreases items.len(),
{
    if items.len() == 0 {
        Seq::empty()
    } else {
        let earlier = replayed(items.drop_last());
        if stream_failed(earlier) {
            earlier
        } else {
            earlier + normalized(items.last())
        }
    }
}

/// Normalises one stream item.
pub fn normalize(item: &RawItem) -> (events: Vec<CanonicalEvent>)
    ensures
        event_views(events@) == normalized(item@),
{
    let mut events: Vec<CanonicalEvent> = Vec::new();
    match item {
        RawItem::Text(text) => {
            events.push(CanonicalEvent::TextDelta { text: text.clone() });
        },
        RawItem::ToolCall { name, arguments } => {
            events.push(
                CanonicalEvent::ToolCallRequested {
                    name: name.clone(),
                    raw_arguments: arguments.clone(),
                },
            );
        },
        RawItem::ToolResult { payload } => {
            events.push(
                CanonicalEvent::ToolResult { payload: ToolOutcome::Success(payload.clone()) },
            );
            events.push(CanonicalEvent::TurnBoundary);
        },
        RawItem::Final { text } => {
            events.push(CanonicalEvent::FinalResponse { text: text.clone() });
        },
        RawItem::Failure { message } => {
            let mut words = String::from_str(STREAM_ERROR);
            words.append(message.as_str());
            events.push(CanonicalEvent::StreamError { message: words });
        },
        RawItem::Other => {},
    }
    assert(event_views(events@) =~= normalized(item@));
    events
}

/// Replays a captured stream: every item is normalised and its events
/// pass the accumulator, in order, until the stream is exhausted or a
/// stream error has been read. Returns the events and the accumulator as
/// the last event left it.
pub fn replay(items: &Vec<RawItem>) -> (replay: (Vec<CanonicalEvent>, TurnAccumulator))
    ensures
        event_views(replay.0@) == replayed(raw_views(items@)),
        replay.1@ == AccumulatorView::fresh().observed_all(replayed(raw_views(items@))),
{
    let mut events: Vec<CanonicalEvent> = Vec::new();
    let mut accumulator = TurnAccumulator::new();
    let mut failed = false;
    let mut i: usize = 0;
    while i < items.len() && !failed
        invariant
            i <= items.len(),
            event_views(events@) =~= replayed(raw_views(items@).take(i as int)),
            accumulator@ == AccumulatorView::fresh().observed_all(event_views(events@)),
            failed == stream_failed(event_views(events@)),
        decreases items.len() - i,
    {
        proof {
            assert(raw_views(items@).take(i + 1).drop_last() =~= raw_views(items@).take(i as int));
            assert(raw_views(items@).take(i + 1).last() == items@[i as int]@);
        }
        let batch = normalize(&items[i]);
        let mut j: usize = 0;
        let ghost start = event_views(events@);
        while j < batch.len()
            invariant
                j <= batch.len(),
                event_views(events@) =~= start + event_views(batch@).take(j as int),
                accumulator@ == AccumulatorView::fresh().observed_all(event_views(events@)),
            decreases batch.len() - j,
        {
            let event = batch[j].duplicate();
            let ghost before = event_views(events@);
            accumulator.observe(&event);
            events.push(event);
            proof {
                assert(event_views(events@) =~= before.push(event@));
                assert(event_views(events@).drop_last() =~= before);
                assert(event_views(batch@).take(j + 1) =~= event_views(batch@).take(j as int).push(
                    event@,
                ));
            }
            j += 1;
        }
        proof {
            assert(event_views(batch@).take(j as int) =~= event_views(batch@));
        }
        failed = match events.last() {
            Some(CanonicalEvent::StreamError { .. }) => true,
            _ => false,
        };
        i += 1;
    }
    proof {
        stays_failed(raw_views(items@), i as int);
    }
    (events, accumulator)
}

/// Once the first `upto` items have ended in a stream error, the items
/// behind them add nothing.
pub proof fn stays_failed(items: Seq<RawItemView>, upto: int)
    requires
        0 <= upto <= items.len(),
        upto == items.len() || stream_failed(replayed(items.take(upto))),
    ensures
        replayed(items) == replayed(items.take(upto)),
    decreases items.len() - upto,
{
    if upto == items.len() {
        assert(items.take(upto) =~= items);
    } else {
        assert(items.take(upto + 1).drop_last() =~= items.take(upto));
        stays_failed(items, upto + 1);
    }
}

/// Two captures with the same content replay to the same events, in the
/// same order, and leave the accumulator in the same state.
pub proof fn replay_is_repeatable(first: Seq<RawItem>, second: Seq<RawItem>)
    requires
        raw_views(first) == raw_views(second),
    ensures
        replayed(raw_views(first)) == replayed(raw_views(second)),
        AccumulatorView::fresh().observed_all(replayed(raw_views(first)))
            == AccumulatorView::fresh().observed_all(replayed(raw_views(second))),
{
}

} // verus!
