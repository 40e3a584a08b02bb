//! The vocabulary of a run: what a provider's stream yields, the canonical
//! events that the stream is normalised to, and the events the subscriber
//! receives.

use vstd::prelude::*;

verus! {

/// What a tool execution came to.
#[derive(Debug, Clone, PartialEq, Eq)]
pub enum ToolOutcome {
    /// The tool ran; the payload is what it produced.
    Success(String),
    /// The tool rejected its arguments or failed; the payload says why.
    Failure(String),
}

/// The mathematical content of a [`ToolOutcome`].
pub enum ToolOutcomeView {
    Success(Seq<char>),
    Failure(Seq<char>),
}

impl View for ToolOutcome {
    type V = ToolOutcomeView;

    open spec fn view(&self) -> ToolOutcomeView {
        match self {
            ToolOutcome::Success(payload) => ToolOutcomeView::Success(payload@),
            ToolOutcome::Failure(reason) => ToolOutcomeView::Failure(reason@),
        }
    }
}

impl ToolOutcome {
    /// A copy with the same content.
    pub fn duplicate(&self) -> (copy: ToolOutcome)
        ensures
            copy@ == self@,
    {
        match self {
            ToolOutcome::Success(payload) => ToolOutcome::Success(payload.clone()),
            ToolOutcome::Failure(reason) => ToolOutcome::Failure(reason.clone()),
        }
    }
}

/// A request to run a tool: its name and its arguments, a JSON text that
/// is handed to the tool as it came.
#[derive(Debug, Clone, PartialEq, Eq)]
pub struct ToolInvocation {
    pub name: String,
    pub arguments: String,
}

/// The mathematical content of a [`ToolInvocation`].
pub struct InvocationView {
    pub name: Seq<char>,
    pub arguments: Seq<char>,
}

impl View for ToolInvocation {
    type V = InvocationView;

    open spec fn view(&self) -> InvocationView {
        InvocationView { name: self.name@, arguments: self.arguments@ }
    }
}

/// One item of a provider's stream, reduced to what the run reads of it.
#[derive(Debug, Clone, PartialEq, Eq)]
pub enum RawItem {
    /// A fragment of assistant text.
    Text(String),
    /// The assistant asks for a tool.
    ToolCall { name: String, arguments: String },
    /// The provider ran a tool by itself and reports what it produced.
    ToolResult { payload: String },
    /// The provider's closing answer.
    Final { text: String },
    /// The transport failed; the message is the provider's.
    Failure { message: String },
    /// Anything else a provider may stream; nothing follows from it.
    Other,
}

/// The mathematical content of a [`RawItem`].
pub enum RawItemView {
    Text(Seq<char>),
    ToolCall { name: Seq<char>, arguments: Seq<char> },
    ToolResult { payload: Seq<char> },
    Final { text: Seq<char> },
    Failure { message: Seq<char> },
    Other,
}

impl View for RawItem {
    type V = RawItemView;

    open spec fn view(&self) -> RawItemView {
        match self {
            RawItem::Text(text) => RawItemView::Text(text@),
            RawItem::ToolCall { name, arguments } => RawItemView::ToolCall {
                name: name@,
                arguments: arguments@,
            },
            RawItem::ToolResult { payload } => RawItemView::ToolResult { payload: payload@ },
            RawItem::Final { text } => RawItemView::Final { text: text@ },
            RawItem::Failure { message } => RawItemView::Failure { message: message@ },
            RawItem::Other => RawItemView::Other,
        }
    }
}

/// The contents of a list of raw items.
pub open spec fn raw_views(items: Seq<RawItem>) -> Seq<RawItemView> {
    Seq::new(items.len(), |i: int| items[i]@)
}

/// One unit of streamed output, whatever provider it came from.
#[derive(Debug, Clone, PartialEq, Eq)]
pub enum CanonicalEvent {
    TextDelta { text: String },
    ToolCallRequested { name: String, raw_arguments: String },
    ToolResult { payload: ToolOutcome },
    TurnBoundary,
    FinalResponse { text: String },
    StreamError { message: String },
}

/// The mathematical content of a [`CanonicalEvent`].
pub enum EventView {
    TextDelta { text: Seq<char> },
    ToolCallRequested { name: Seq<char>, raw_arguments: Seq<char> },
    ToolResult { payload: ToolOutcomeView },
    TurnBoundary,
    FinalResponse { text: Seq<char> },
    StreamError { message: Seq<char> },
}

impl View for CanonicalEvent {
    type V = EventView;

    open spec fn view(&self) -> EventView {
        match self {
            CanonicalEvent::TextDelta { text } => EventView::TextDelta { text: text@ },
            CanonicalEvent::ToolCallRequested { name, raw_arguments } => EventView::ToolCallRequested {
                name: name@,
                raw_arguments: raw_arguments@,
            },
            CanonicalEvent::ToolResult { payload } => EventView::ToolResult { payload: payload@ },
            CanonicalEvent::TurnBoundary => EventView::TurnBoundary,
            CanonicalEvent::FinalResponse { text } => EventView::FinalResponse { text: text@ },
            CanonicalEvent::StreamError { message } => EventView::StreamError { message: message@ },
        }
    }
}

/// The contents of a list of canonical events.
pub open spec fn event_views(events: Seq<CanonicalEvent>) -> Seq<EventView> {
    Seq::new(events.len(), |i: int| events[i]@)
}

impl CanonicalEvent {
    /// A copy with the same content.
    pub fn duplicate(&self) -> (copy: CanonicalEvent)
        ensures
            copy@ == self@,
    {
        match self {
            CanonicalEvent::TextDelta { text } => CanonicalEvent::TextDelta { text: text.clone() },
            CanonicalEvent::ToolCallRequested {
                name,
                raw_arguments,
            } => CanonicalEvent::ToolCallRequested {
                name: name.clone(),
                raw_arguments: raw_arguments.clone(),
            },
            CanonicalEvent::ToolResult { payload } => CanonicalEvent::ToolResult {
                payload: payload.duplicate(),
            },
            CanonicalEvent::TurnBoundary => CanonicalEvent::TurnBoundary,
            CanonicalEvent::FinalResponse { text } => CanonicalEvent::FinalResponse {
                text: text.clone(),
            },
            CanonicalEvent::StreamError { message } => CanonicalEvent::StreamError {
                message: message.clone(),
            },
        }
    }
}

/// What the subscriber receives: the canonical events of the run, and at
/// its end the completion marker.
#[derive(Debug, Clone, PartialEq, Eq)]
pub enum SinkEvent {
    Event(CanonicalEvent),
    Complete,
}

/// The mathematical content of a [`SinkEvent`].
pub enum SinkEventView {
    Event(EventView),
    Complete,
}

impl View for SinkEvent {
    type V = SinkEventView;

    open spec fn view(&self) -> SinkEventView {
        match self {
            SinkEvent::Event(event) => SinkEventView::Event(event@),
            SinkEvent::Complete => SinkEventView::Complete,
        }
    }
}

/// The contents of a list of sink events.
pub open spec fn sink_views(events: Seq<SinkEvent>) -> Seq<SinkEventView> {
    Seq::new(events.len(), |i: int| events[i]@)
}

/// The kinds of event that a subscriber can receive.
#[derive(Debug, Clone, Copy, PartialEq, Eq, Structural)]
pub enum SinkEventKind {
    Token,
    ToolCall,
    ToolResult,
    NewTurn,
    FinalResponse,
    Error,
    Complete,
}

impl SinkEventKind {
    /// The name by which a kind of event is known.
    pub open spec fn label(self) -> Seq<char> {
        match self {
            SinkEventKind::Token => "token"@,
            SinkEventKind::ToolCall => "tool-call"@,
            SinkEventKind::ToolResult => "tool-result"@,
            SinkEventKind::NewTurn => "new-turn"@,
            SinkEventKind::FinalResponse => "final-response"@,
            SinkEventKind::Error => "error"@,
            SinkEventKind::Complete => "complete"@,
        }
    }

    /// The channel on which the host's bridge delivers a kind of event.
    pub open spec fn channel_name(self) -> Seq<char> {
        match self {
            SinkEventKind::Token => "chat-token"@,
            SinkEventKind::ToolCall => "tool-call"@,
            SinkEventKind::ToolResult => "tool-result"@,
            SinkEventKind::NewTurn => "chat-new-turn"@,
            SinkEventKind::FinalResponse => "chat-final-response"@,
            SinkEventKind::Error => "chat-error"@,
            SinkEventKind::Complete => "chat-complete"@,
        }
    }

    /// The name by which this kind of event is known.
    pub fn name(&self) -> (name: &'static str)
        ensures
            name@ == self.label(),
    {
        match self {
            SinkEventKind::Token => "token",
            SinkEventKind::ToolCall => "tool-call",
            SinkEventKind::ToolResult => "tool-result",
            SinkEventKind::NewTurn => "new-turn",
            SinkEventKind::FinalResponse => "final-response",
            SinkEventKind::Error => "error",
            SinkEventKind::Complete => "complete",
        }
    }

    /// The channel on which the host's bridge delivers this kind of event.
    pub fn channel(&self) -> (name: &'static str)
        ensures
            name@ == self.channel_name(),
    {
        match self {
            SinkEventKind::Token => "chat-token",
            SinkEventKind::ToolCall => "tool-call",
            SinkEventKind::ToolResult => "tool-result",
            SinkEventKind::NewTurn => "chat-new-turn",
            SinkEventKind::FinalResponse => "chat-final-response",
            SinkEventKind::Error => "chat-error",
            SinkEventKind::Complete => "chat-complete",
        }
    }
}

impl SinkEvent {
    /// The kind of an event.
    pub open spec fn kind_of(event: SinkEventView) -> SinkEventKind {
        match event {
            SinkEventView::Event(EventView::TextDelta { .. }) => SinkEventKind::Token,
            SinkEventView::Event(EventView::ToolCallRequested { .. }) => SinkEventKind::ToolCall,
            SinkEventView::Event(EventView::ToolResult { .. }) => SinkEventKind::ToolResult,
            SinkEventView::Event(EventView::TurnBoundary) => SinkEventKind::NewTurn,
            SinkEventView::Event(EventView::FinalResponse { .. }) => SinkEventKind::FinalResponse,
            SinkEventView::Event(EventView::StreamError { .. }) => SinkEventKind::Error,
            SinkEventView::Complete => SinkEventKind::Complete,
        }
    }

    /// The kind of this event.
    pub fn kind(&self) -> (kind: SinkEventKind)
        ensures
            kind == Self::kind_of(self@),
    {
        match self {
            SinkEvent::Event(CanonicalEvent::TextDelta { .. }) => SinkEventKind::Token,
            SinkEvent::Event(CanonicalEvent::ToolCallRequested { .. }) => SinkEventKind::ToolCall,
            SinkEvent::Event(CanonicalEvent::ToolResult { .. }) => SinkEventKind::ToolResult,
            SinkEvent::Event(CanonicalEvent::TurnBoundary) => SinkEventKind::NewTurn,
            SinkEvent::Event(CanonicalEvent::FinalResponse { .. }) => SinkEventKind::FinalResponse,
            SinkEvent::Event(CanonicalEvent::StreamError { .. }) => SinkEventKind::Error,
            SinkEvent::Complete => SinkEventKind::Complete,
        }
    }

    /// A copy with the same content.
    pub fn duplicate(&self) -> (copy: SinkEvent)
        ensures
            copy@ == self@,
    {
        match self {
            SinkEvent::Event(event) => SinkEvent::Event(event.duplicate()),
            SinkEvent::Complete => SinkEvent::Complete,
        }
    }
}

} // verus!
