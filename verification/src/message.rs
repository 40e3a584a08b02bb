//! Chat messages and the roles they may carry.

use vstd::prelude::*;

verus! {

/// One entry of the message log. The role is kept as it arrived; whether
/// it names a known role is decided when the history is assembled.
#[derive(Debug, Clone, PartialEq, Eq)]
pub struct ChatMessage {
    pub id: String,
    pub role: String,
    pub content: String,
}

/// The roles a message may carry.
#[derive(Debug, Clone, Copy, PartialEq, Eq, Structural)]
pub enum Role {
    System,
    User,
    Assistant,
}

impl Role {
    /// The role that a tag names, if it names one.
    pub open spec fn of(tag: Seq<char>) -> Option<Role> {
        if tag == "system"@ {
            Some(Role::System)
        } else if tag == "user"@ {
            Some(Role::User)
        } else if tag == "assistant"@ {
            Some(Role::Assistant)
        } else {
            None
        }
    }

    /// The tag under which a role is written in a message.
    pub open spec fn tag(self) -> Seq<char> {
        match self {
            Role::System => "system"@,
            Role::User => "user"@,
            Role::Assistant => "assistant"@,
        }
    }

    /// Reads a role tag. Tags are compared exactly: case and surrounding
    /// white space count.
    pub fn parse(tag: &str) -> (role: Option<Role>)
        ensures
            role == Role::of(tag@),
    {
        if tag.eq("system") {
            Some(Role::System)
        } else if tag.eq("user") {
            Some(Role::User)
        } else if tag.eq("assistant") {
            Some(Role::Assistant)
        } else {
            None
        }
    }

    /// The tag of this role, as an owned string.
    pub fn name(&self) -> (tag: String)
        ensures
            tag@ == self.tag(),
    {
        match self {
            Role::System => String::from_str("system"),
            Role::User => String::from_str("user"),
            Role::Assistant => String::from_str("assistant"),
        }
    }
}

/// Every role is read back from its own tag.
pub proof fn role_tag_round_trip(role: Role)
    ensures
        Role::of(role.tag()) == Some(role),
{
    reveal_strlit("system");
    reveal_strlit("user");
    reveal_strlit("assistant");
    assert("user"@.len() != "system"@.len());
    assert("assistant"@.len() != "system"@.len());
    assert("assistant"@.len() != "user"@.len());
}

} // verus!
