//! Assembling the message log into the shape a completion request takes:
//! a preamble, the closed user/assistant turns, and the user message that
//! still waits for its answer.

use vstd::prelude::*;

use crate::message::{ChatMessage, Role};
use crate::prompt::{get_system_prompt, SYSTEM_PROMPT};

verus! {

/// A user message together with the assistant message that answered it.
#[derive(Debug, Clone, PartialEq, Eq)]
pub struct Turn {
    pub user: String,
    pub assistant: String,
}

/// The mathematical content of a [`Turn`].
pub struct TurnView {
    pub user: Seq<char>,
    pub assistant: Seq<char>,
}

impl View for Turn {
    type V = TurnView;

    open spec fn view(&self) -> TurnView {
        TurnView { user: self.user@, assistant: self.assistant@ }
    }
}

/// The conversation as a completion request wants it.
#[derive(Debug, Clone, PartialEq, Eq)]
pub struct ConversationHistory {
    /// The base instructions followed by every system message, each on a
    /// line of its own.
    pub preamble: String,
    /// The closed turns, oldest first.
    pub turns: Vec<Turn>,
    /// The latest user message that no assistant message has answered.
    pub pending_user: Option<String>,
}

/// The mathematical content of a [`ConversationHistory`].
pub struct HistoryView {
    pub preamble: Seq<char>,
    pub turns: Seq<TurnView>,
    pub pending_user: Option<Seq<char>>,
}

/// The contents of a list of turns.
pub open spec fn turn_views(turns: Seq<Turn>) -> Seq<TurnView> {
    Seq::new(turns.len(), |i: int| turns[i]@)
}

/// The content of an optional string.
pub open spec fn text_of(text: Option<String>) -> Option<Seq<char>> {
    match text {
        Some(t) => Some(t@),
        None => None,
    }
}

impl View for ConversationHistory {
    type V = HistoryView;

    open spec fn view(&self) -> HistoryView {
        HistoryView {
            preamble: self.preamble@,
            turns: turn_views(self.turns@),
            pending_user: text_of(self.pending_user),
        }
    }
}

/// Why a message log cannot be assembled.
#[derive(Debug, Clone, PartialEq, Eq)]
pub enum HistoryError {
    /// The message at `index` carries a role that is none of system, user
    /// and assistant.
    UnexpectedRole { index: usize, role: String },
    /// The message at `index` is an assistant message, and no user message
    /// is waiting for an answer.
    AssistantWithoutUser { index: usize },
}

/// The mathematical content of a [`HistoryError`].
pub enum HistoryErrorView {
    UnexpectedRole { index: int, role: Seq<char> },
    AssistantWithoutUser { index: int },
}

impl View for HistoryError {
    type V = HistoryErrorView;

    open spec fn view(&self) -> HistoryErrorView {
        match self {
            HistoryError::UnexpectedRole { index, role } => HistoryErrorView::UnexpectedRole {
                index: *index as int,
                role: role@,
            },
            HistoryError::AssistantWithoutUser { index } => HistoryErrorView::AssistantWithoutUser {
                index: *index as int,
            },
        }
    }
}

/// What precedes the offending role in the message of an unexpected role.
pub const UNKNOWN_ROLE: &'static str = "Unknown role: ";

/// The message of an assistant message that answers nothing.
pub const NOTHING_TO_ANSWER: &'static str = "Assistant message without a preceding user message";

impl HistoryError {
    /// The words in which a fault is reported.
    pub open spec fn text(fault: HistoryErrorView) -> Seq<char> {
        match fault {
            HistoryErrorView::UnexpectedRole { index, role } => UNKNOWN_ROLE@ + role,
            HistoryErrorView::AssistantWithoutUser { index } => NOTHING_TO_ANSWER@,
        }
    }

    /// The words in which this fault is reported.
    pub fn message(&self) -> (words: String)
        ensures
            words@ == Self::text(self@),
    {
        match self {
            HistoryError::UnexpectedRole { index: _, role } => {
                let mut words = String::from_str(UNKNOWN_ROLE);
                words.append(role.as_str());
                words
            },
            HistoryError::AssistantWithoutUser { index: _ } => String::from_str(NOTHING_TO_ANSWER),
        }
    }
}

/// The history before any message: the base instructions alone.
pub open spec fn empty_history(base: Seq<char>) -> HistoryView {
    HistoryView { preamble: base, turns: Seq::empty(), pending_user: None }
}

/// The history after one more message, which stands at `index` in the log.
pub open spec fn extend(history: HistoryView, index: int, message: ChatMessage) -> Result<
    HistoryView,
    HistoryErrorView,
> {
    match Role::of(message.role@) {
        Some(Role::System) => Ok(
            HistoryView { preamble: history.preamble + "\n"@ + message.content@, ..history },
        ),
        Some(Role::User) => Ok(HistoryView { pending_user: Some(message.content@), ..history }),
        Some(Role::Assistant) => match history.pending_user {
            Some(user) => Ok(
                HistoryView {
                    turns: history.turns.push(TurnView { user, assistant: message.content@ }),
                    pending_user: None,
                    ..history
                },
            ),
            None => Err(HistoryErrorView::AssistantWithoutUser { index }),
        },
        None => Err(HistoryErrorView::UnexpectedRole { index, role: message.role@ }),
    }
}

/// The history that a log assembles to, or the first fault in it.
pub open spec fn assemble(base: Seq<char>, log: Seq<ChatMessage>) -> Result<
    HistoryView,
    HistoryErrorView,
>
    decreases log.len(),
{
    if log.len() == 0 {
        Ok(empty_history(base))
    } else {
        match assemble(base, log.drop_last()) {
            Ok(history) => extend(history, log.len() - 1, log.last()),
            Err(fault) => Err(fault),
        }
    }
}

/// A fault in the first `upto` messages is the fault of the whole log.
pub proof fn fault_is_kept(base: Seq<char>, log: Seq<ChatMessage>, upto: int)
    requires
        0 <= upto <= log.len(),
        assemble(base, log.take(upto)) is Err,
    ensures
        assemble(base, log) == assemble(base, log.take(upto)),
    decreases log.len() - upto,
{
    if upto == log.len() {
        assert(log.take(upto) =~= log);
    } else {
        assert(log.take(upto + 1).drop_last() =~= log.take(upto));
        fault_is_kept(base, log, upto + 1);
    }
}

impl ConversationHistory {
    /// Assembles the log, message by message, in order. A system message
    /// adds a line to the preamble; a user message takes the waiting place,
    /// whatever stood there; an assistant message closes a turn with the
    /// waiting user message. The first message that fits nowhere ends the
    /// assembly with its fault.
    pub fn build(log: &Vec<ChatMessage>) -> (result: Result<ConversationHistory, HistoryError>)
        ensures
            match result {
                Ok(history) => assemble(SYSTEM_PROMPT@, log@) == Ok::<
                    HistoryView,
                    HistoryErrorView,
                >(history@),
                Err(fault) => assemble(SYSTEM_PROMPT@, log@) == Err::<
                    HistoryView,
                    HistoryErrorView,
                >(fault@),
            },
    {
        let mut preamble = get_system_prompt();
        let mut turns: Vec<Turn> = Vec::new();
        let mut pending_user: Option<String> = None;
        let mut i: usize = 0;
        assert(turn_views(turns@) =~= Seq::<TurnView>::empty());
        while i < log.len()
            invariant
                i <= log.len(),
                assemble(SYSTEM_PROMPT@, log@.take(i as int)) == Ok::<HistoryView, HistoryErrorView>(
                    HistoryView {
                        preamble: preamble@,
                        turns: turn_views(turns@),
                        pending_user: text_of(pending_user),
                    },
                ),
            decreases log.len() - i,
        {
            let message = &log[i];
            proof {
                assert(log@.take(i + 1).drop_last() =~= log@.take(i as int));
                assert(log@.take(i + 1).last() == log@[i as int]);
            }
            match Role::parse(message.role.as_str()) {
                Some(Role::System) => {
                    preamble.append("\n");
                    preamble.append(message.content.as_str());
                },
                Some(Role::User) => {
                    pending_user = Some(message.content.clone());
                },
                Some(Role::Assistant) => {
                    match pending_user {
                        Some(user) => {
                            let ghost before = turn_views(turns@);
                            let turn = Turn { user, assistant: message.content.clone() };
                            turns.push(turn);
                            assert(turn_views(turns@) =~= before.push(turn@));
                            pending_user = None;
                        },
                        None => {
                            proof {
                                fault_is_kept(SYSTEM_PROMPT@, log@, i + 1);
                            }
                            return Err(HistoryError::AssistantWithoutUser { index: i });
                        },
                    }
                },
                None => {
                    proof {
                        fault_is_kept(SYSTEM_PROMPT@, log@, i + 1);
                    }
                    return Err(
                        HistoryError::UnexpectedRole { index: i, role: message.role.clone() },
                    );
                },
            }
            i += 1;
        }
        assert(log@.take(i as int) =~= log@);
        Ok(ConversationHistory { preamble, turns, pending_user })
    }
}

/// How a completion is asked for.
#[derive(Debug, Clone, Copy, PartialEq, Eq, Structural)]
pub enum RequestMode {
    /// A single prompt: there are no closed turns to send along.
    Prompt,
    /// A prompt together with the closed turns that precede it.
    Chat,
}

/// One message of the closed turns, as it is sent along with a prompt.
#[derive(Debug, Clone, PartialEq, Eq)]
pub struct HistoryEntry {
    pub role: Role,
    pub content: String,
}

/// The mathematical content of a [`HistoryEntry`].
pub struct EntryView {
    pub role: Role,
    pub content: Seq<char>,
}

impl View for HistoryEntry {
    type V = EntryView;

    open spec fn view(&self) -> EntryView {
        EntryView { role: self.role, content: self.content@ }
    }
}

/// The contents of a list of entries.
pub open spec fn entry_views(entries: Seq<HistoryEntry>) -> Seq<EntryView> {
    Seq::new(entries.len(), |i: int| entries[i]@)
}

/// The closed turns laid out message by message: each turn gives its user
/// message, then its assistant message.
pub open spec fn unfold_turns(turns: Seq<TurnView>) -> Seq<EntryView> {
    Seq::new(
        2 * turns.len(),
        |i: int|
            if i % 2 == 0 {
                EntryView { role: Role::User, content: turns[i / 2].user }
            } else {
                EntryView { role: Role::Assistant, content: turns[i / 2].assistant }
            },
    )
}

impl ConversationHistory {
    /// The mode in which a history is sent: a plain prompt where no turn is
    /// closed, a chat otherwise.
    pub open spec fn mode_of(history: HistoryView) -> RequestMode {
        if history.turns.len() == 0 {
            RequestMode::Prompt
        } else {
            RequestMode::Chat
        }
    }

    /// The prompt of a history: the waiting user message, or nothing at all
    /// where none waits.
    pub open spec fn prompt_of(history: HistoryView) -> Seq<char> {
        match history.pending_user {
            Some(content) => content,
            None => Seq::empty(),
        }
    }

    /// The mode in which this history is sent.
    pub fn mode(&self) -> (mode: RequestMode)
        ensures
            mode == Self::mode_of(self@),
    {
        if self.turns.len() == 0 {
            RequestMode::Prompt
        } else {
            RequestMode::Chat
        }
    }

    /// The prompt that this history sends.
    pub fn prompt(&self) -> (prompt: String)
        ensures
            prompt@ == Self::prompt_of(self@),
    {
        match &self.pending_user {
            Some(content) => content.clone(),
            None => String::new(),
        }
    }

    /// The closed turns, message by message, oldest first.
    pub fn entries(&self) -> (entries: Vec<HistoryEntry>)
        ensures
            entry_views(entries@) == unfold_turns(self@.turns),
    {
        let mut entries: Vec<HistoryEntry> = Vec::new();
        let mut i: usize = 0;
        while i < self.turns.len()
            invariant
                i <= self.turns.len(),
                entries@.len() == 2 * i,
                entry_views(entries@) =~= unfold_turns(turn_views(self.turns@).take(i as int)),
            decreases self.turns.len() - i,
        {
            let turn = &self.turns[i];
            let ghost before = entry_views(entries@);
            entries.push(HistoryEntry { role: Role::User, content: turn.user.clone() });
            entries.push(HistoryEntry { role: Role::Assistant, content: turn.assistant.clone() });
            proof {
                let shorter = turn_views(self.turns@).take(i as int);
                let longer = turn_views(self.turns@).take(i + 1);
                assert(entry_views(entries@).len() == 2 * i + 2);
                assert forall|k: int| 0 <= k < 2 * i + 2 implies entry_views(entries@)[k]
                    == unfold_turns(longer)[k] by {
                    if k < 2 * i {
                        assert(entry_views(entries@)[k] == before[k]);
                        assert(before[k] == unfold_turns(shorter)[k]);
                        assert(k / 2 < i);
                        assert(shorter[k / 2] == longer[k / 2]);
                    } else {
                        assert(k / 2 == i);
                        assert(longer[i as int] == turn@);
                    }
                }
            }
            i += 1;
        }
        assert(turn_views(self.turns@).take(i as int) =~= turn_views(self.turns@));
        entries
    }
}

/// The role of the message at `index`, if its tag names one.
pub open spec fn role_at(log: Seq<ChatMessage>, index: int) -> Option<Role> {
    Role::of(log[index].role@)
}

/// How many of the first `upto` messages are assistant messages.
pub open spec fn assistants_before(log: Seq<ChatMessage>, upto: int) -> nat
    decreases upto,
{
    if upto <= 0 {
        0
    } else {
        let earlier = assistants_before(log, upto - 1);
        if role_at(log, upto - 1) == Some(Role::Assistant) {
            earlier + 1
        } else {
            earlier
        }
    }
}

/// The assistant message at `assistant` answers the user message at `user`:
/// the user message comes first, and nothing but system messages stands
/// between the two. So `user` is the nearest user message before
/// `assistant`, and no earlier assistant message has answered it.
pub open spec fn answers(log: Seq<ChatMessage>, user: int, assistant: int) -> bool {
    &&& 0 <= user < assistant < log.len()
    &&& role_at(log, user) == Some(Role::User)
    &&& role_at(log, assistant) == Some(Role::Assistant)
    &&& forall|between: int|
        user < between < assistant ==> #[trigger] role_at(log, between) == Some(Role::System)
}

/// The user message at `user` still waits at the end of the log: nothing
/// but system messages follows it.
pub open spec fn waits(log: Seq<ChatMessage>, user: int) -> bool {
    &&& 0 <= user < log.len()
    &&& role_at(log, user) == Some(Role::User)
    &&& forall|later: int|
        user < later < log.len() ==> #[trigger] role_at(log, later) == Some(Role::System)
}

/// What an assembled history owes to its log: one turn for each assistant
/// message, in order, each made of that message and the user message it
/// answers; and in the waiting place the user message that still waits,
/// if there is one.
pub open spec fn pairs_log(log: Seq<ChatMessage>, history: HistoryView) -> bool {
    &&& history.turns.len() == assistants_before(log, log.len() as int)
    &&& forall|assistant: int|
        0 <= assistant < log.len() && #[trigger] role_at(log, assistant) == Some(Role::Assistant)
            ==> assistants_before(log, assistant) < history.turns.len() && exists|user: int|
            #[trigger] answers(log, user, assistant) && history.turns[assistants_before(
                log,
                assistant,
            ) as int] == (TurnView {
                user: log[user].content@,
                assistant: log[assistant].content@,
            })
    &&& match history.pending_user {
        Some(content) => exists|user: int| #[trigger]
            waits(log, user) && content == log[user].content@,
        None => forall|user: int| !#[trigger] waits(log, user),
    }
}

proof fn assistants_before_prefix(log: Seq<ChatMessage>, upto: int)
    requires
        0 <= upto < log.len(),
    ensures
        assistants_before(log.drop_last(), upto) == assistants_before(log, upto),
    decreases upto,
{
    if upto > 0 {
        assistants_before_prefix(log, upto - 1);
    }
}

proof fn answers_in_longer_log(log: Seq<ChatMessage>, user: int, assistant: int)
    requires
        log.len() > 0,
        answers(log.drop_last(), user, assistant),
    ensures
        answers(log, user, assistant),
{
    let shorter = log.drop_last();
    assert(role_at(shorter, user) == role_at(log, user));
    assert(role_at(shorter, assistant) == role_at(log, assistant));
    assert forall|between: int| user < between < assistant implies #[trigger] role_at(
        log,
        between,
    ) == Some(Role::System) by {
        assert(role_at(shorter, between) == role_at(log, between));
    }
}

/// Every assistant message is paired with the nearest user message before
/// it that no assistant message has answered yet, and at most one user
/// message is left waiting: the last one, where nothing but system
/// messages follows it. This holds of every log that assembles.
pub proof fn assembled_history_pairs_log(base: Seq<char>, log: Seq<ChatMessage>)
    requires
        assemble(base, log) is Ok,
    ensures
        pairs_log(log, assemble(base, log)->Ok_0),
    decreases log.len(),
{
    let history = assemble(base, log)->Ok_0;
    if log.len() == 0 {
        assert forall|user: int| !#[trigger] waits(log, user) by {}
    } else {
        let shorter = log.drop_last();
        let last = log.len() - 1;
        let before = assemble(base, shorter)->Ok_0;
        assembled_history_pairs_log(base, shorter);
        assert(pairs_log(shorter, before));
        assistants_before_prefix(log, last);
        assert forall|index: int| 0 <= index < last implies role_at(shorter, index) == role_at(
            log,
            index,
        ) by {}
        assert forall|assistant: int|
            0 <= assistant < last && #[trigger] role_at(log, assistant) == Some(
                Role::Assistant,
            ) implies assistants_before(log, assistant) < before.turns.len() && exists|user: int|
            #[trigger] answers(log, user, assistant) && before.turns[assistants_before(
                log,
                assistant,
            ) as int] == (TurnView {
                user: log[user].content@,
                assistant: log[assistant].content@,
            }) by {
            assert(role_at(shorter, assistant) == Some(Role::Assistant));
            assistants_before_prefix(log, assistant);
            let user = choose|user: int|
                #[trigger] answers(shorter, user, assistant) && before.turns[assistants_before(
                    shorter,
                    assistant,
                ) as int] == (TurnView {
                    user: shorter[user].content@,
                    assistant: shorter[assistant].content@,
                });
            answers_in_longer_log(log, user, assistant);
        }
        match Role::of(log.last().role@) {
            Some(Role::System) => {
                assert(role_at(log, last) == Some(Role::System));
                match before.pending_user {
                    Some(content) => {
                        let user = choose|user: int| #[trigger]
                            waits(shorter, user) && content == shorter[user].content@;
                        assert(waits(log, user)) by {
                            assert(role_at(shorter, user) == role_at(log, user));
                            assert forall|later: int| user < later < log.len() implies #[trigger] role_at(
                                log,
                                later,
                            ) == Some(Role::System) by {
                                if later < last {
                                    assert(role_at(shorter, later) == role_at(log, later));
                                }
                            }
                        }
                    },
                    None => {
                        assert forall|user: int| !#[trigger] waits(log, user) by {
                            if waits(log, user) {
                                assert(role_at(shorter, user) == role_at(log, user));
                                assert forall|later: int|
                                    user < later < shorter.len() implies #[trigger] role_at(
                                    shorter,
                                    later,
                                ) == Some(Role::System) by {
                                    assert(role_at(shorter, later) == role_at(log, later));
                                }
                                assert(waits(shorter, user));
                            }
                        }
                    },
                }
            },
            Some(Role::User) => {
                assert(role_at(log, last) == Some(Role::User));
                assert(waits(log, last));
            },
            Some(Role::Assistant) => {
                assert(role_at(log, last) == Some(Role::Assistant));
                let content = before.pending_user->Some_0;
                let user = choose|user: int| #[trigger]
                    waits(shorter, user) && content == shorter[user].content@;
                assert(answers(log, user, last)) by {
                    assert(role_at(shorter, user) == role_at(log, user));
                    assert forall|between: int| user < between < last implies #[trigger] role_at(
                        log,
                        between,
                    ) == Some(Role::System) by {
                        assert(role_at(shorter, between) == role_at(log, between));
                    }
                }
                assert forall|user: int| !#[trigger] waits(log, user) by {
                    if waits(log, user) && user < last {
                        assert(role_at(log, last) == Some(Role::System));
                    }
                }
            },
            None => {},
        }
    }
}

/// Whether a log is in order: every message carries a known role, and
/// every assistant message answers a user message, the nearest before it
/// that no assistant message has answered.
pub open spec fn in_order(log: Seq<ChatMessage>) -> bool {
    &&& forall|index: int| 0 <= index < log.len() ==> (#[trigger] role_at(log, index)) is Some
    &&& forall|assistant: int|
        0 <= assistant < log.len() && #[trigger] role_at(log, assistant) == Some(Role::Assistant)
            ==> exists|user: int| #[trigger] answers(log, user, assistant)
}

proof fn in_order_without_last(log: Seq<ChatMessage>)
    requires
        log.len() > 0,
        in_order(log),
    ensures
        in_order(log.drop_last()),
{
    let shorter = log.drop_last();
    assert forall|index: int| 0 <= index < shorter.len() implies (#[trigger] role_at(
        shorter,
        index,
    )) is Some by {
        assert(role_at(shorter, index) == role_at(log, index));
    }
    assert forall|assistant: int|
        0 <= assistant < shorter.len() && #[trigger] role_at(shorter, assistant) == Some(
            Role::Assistant,
        ) implies exists|user: int| #[trigger] answers(shorter, user, assistant) by {
        assert(role_at(shorter, assistant) == role_at(log, assistant));
        let user = choose|user: int| #[trigger] answers(log, user, assistant);
        assert(role_at(shorter, user) == role_at(log, user));
        assert forall|between: int| user < between < assistant implies #[trigger] role_at(
            shorter,
            between,
        ) == Some(Role::System) by {
            assert(role_at(shorter, between) == role_at(log, between));
        }
        assert(answers(shorter, user, assistant));
    }
}

/// The logs that assemble are the logs that are in order.
pub proof fn assembles_exactly_when_in_order(base: Seq<char>, log: Seq<ChatMessage>)
    ensures
        assemble(base, log) is Ok <==> in_order(log),
    decreases log.len(),
{
    if log.len() == 0 {
    } else {
        let shorter = log.drop_last();
        let last = log.len() - 1;
        assembles_exactly_when_in_order(base, shorter);
        if in_order(log) {
            in_order_without_last(log);
            let before = assemble(base, shorter)->Ok_0;
            assembled_history_pairs_log(base, shorter);
            assert(role_at(log, last) is Some);
            if role_at(log, last) == Some(Role::Assistant) {
                let user = choose|user: int| #[trigger] answers(log, user, last);
                assert(role_at(shorter, user) == role_at(log, user));
                assert forall|later: int| user < later < shorter.len() implies #[trigger] role_at(
                    shorter,
                    later,
                ) == Some(Role::System) by {
                    assert(role_at(shorter, later) == role_at(log, later));
                }
                assert(waits(shorter, user));
                assert(before.pending_user is Some);
            }
        }
        if assemble(base, log) is Ok {
            assert(assemble(base, shorter) is Ok);
            assembled_history_pairs_log(base, log);
            assert forall|index: int| 0 <= index < log.len() implies (#[trigger] role_at(
                log,
                index,
            )) is Some by {
                if index < last {
                    assert(role_at(shorter, index) == role_at(log, index));
                    assert(role_at(shorter, index) is Some);
                }
            }
        }
    }
}

/// No two user messages wait at once.
pub proof fn at_most_one_user_waits(log: Seq<ChatMessage>, first: int, second: int)
    requires
        waits(log, first),
        waits(log, second),
    ensures
        first == second,
{
    if first < second {
        assert(role_at(log, second) == Some(Role::System));
    } else if second < first {
        assert(role_at(log, first) == Some(Role::System));
    }
}

} // verus!
