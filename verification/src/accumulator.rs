//! Bookkeeping over the text of the current turn.

use vstd::prelude::*;

use crate::event::{CanonicalEvent, EventView};

verus! {

/// The text that the current turn has produced so far, and whether it has
/// produced any text delta at all. A turn boundary empties both.
#[derive(Debug, Clone, PartialEq, Eq)]
pub struct TurnAccumulator {
    pub accumulated_text: String,
    pub has_text: bool,
}

/// The mathematical content of a [`TurnAccumulator`].
pub struct AccumulatorView {
    pub accumulated_text: Seq<char>,
    pub has_text: bool,
}

impl View for TurnAccumulator {
    type V = AccumulatorView;

    open spec fn view(&self) -> AccumulatorView {
        AccumulatorView { accumulated_text: self.accumulated_text@, has_text: self.has_text }
    }
}

impl AccumulatorView {
    /// The accumulator at the start of a turn.
    pub open spec fn fresh() -> AccumulatorView {
        AccumulatorView { accumulated_text: Seq::empty(), has_text: false }
    }

    /// The accumulator after one more event: a text delta is appended, a
    /// turn boundary starts afresh, and no other event changes anything.
    pub open spec fn observed(self, event: EventView) -> AccumulatorView {
        match event {
            EventView::TextDelta { text } => AccumulatorView {
                accumulated_text: self.accumulated_text + text,
                has_text: true,
            },
            EventView::TurnBoundary => AccumulatorView::fresh(),
            _ => self,
        }
    }

    /// The accumulator after a sequence of events, taken in order.
    pub open spec fn observed_all(self, events: Seq<EventView>) -> AccumulatorView
        decreases events.len(),
    {
        if events.len() == 0 {
            self
        } else {
            self.observed_all(events.drop_last()).observed(events.last())
        }
    }
}

impl TurnAccumulator {
    /// An accumulator at the start of a turn.
    pub fn new() -> (fresh: TurnAccumulator)
        ensures
            fresh@ == AccumulatorView::fresh(),
    {
        TurnAccumulator { accumulated_text: String::new(), has_text: false }
    }

    /// Takes note of an event that passes by. The event itself is left as
    /// it is.
    pub fn observe(&mut self, event: &CanonicalEvent)
        ensures
            final(self)@ == old(self)@.observed(event@),
    {
        match event {
            CanonicalEvent::TextDelta { text } => {
                self.accumulated_text.append(text.as_str());
                self.has_text = true;
            },
            CanonicalEvent::TurnBoundary => {
                self.accumulated_text = String::new();
                self.has_text = false;
            },
            _ => {},
        }
    }

    /// The text of the current turn so far.
    pub fn text(&self) -> (text: &str)
        ensures
            text@ == self@.accumulated_text,
    {
        self.accumulated_text.as_str()
    }
}

/// Observing two runs of events one after the other is observing them as
/// one run.
pub proof fn observed_all_joins(start: AccumulatorView, first: Seq<EventView>, second: Seq<EventView>)
    ensures
        start.observed_all(first + second) == start.observed_all(first).observed_all(second),
    decreases second.len(),
{
    if second.len() == 0 {
        assert(first + second =~= first);
    } else {
        assert((first + second).drop_last() =~= first + second.drop_last());
        assert((first + second).last() == second.last());
        observed_all_joins(start, first, second.drop_last());
    }
}

/// Past a turn boundary nothing of what came before it is left: the
/// accumulator is as if the run had started after the boundary.
pub proof fn boundary_starts_afresh(
    start: AccumulatorView,
    before: Seq<EventView>,
    after: Seq<EventView>,
)
    ensures
        start.observed_all(before.push(EventView::TurnBoundary) + after)
            == AccumulatorView::fresh().observed_all(after),
{
    let closed = before.push(EventView::TurnBoundary);
    assert(closed.drop_last() =~= before);
    observed_all_joins(start, closed, after);
}

} // verus!
