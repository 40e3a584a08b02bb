//! The small decisions of the host's commands that need no run.

use vstd::prelude::*;

verus! {

/// The complaint about an empty key.
pub const EMPTY_API_KEY: &'static str = "API key cannot be empty";

/// What is answered once the client stands.
pub const CLIENT_READY: &'static str = "AI client initialized successfully";

/// The complaint about a chat without a client.
pub const CLIENT_MISSING: &'static str = "AI client not initialized. Call init_ai first.";

/// Whether a key can be used at all: any key but the empty one.
pub fn usable_api_key(api_key: &str) -> (usable: bool)
    ensures
        usable == (api_key@.len() > 0),
{
    !api_key.is_empty()
}

/// What the request to set up the client is answered with, before any
/// client is made: the complaint for an empty key, the news of success
/// for any other.
pub fn init_ai(api_key: &str) -> (answer: Result<String, String>)
    ensures
        match answer {
            Ok(news) => api_key@.len() > 0 && news@ == CLIENT_READY@,
            Err(complaint) => api_key@.len() == 0 && complaint@ == EMPTY_API_KEY@,
        },
{
    if usable_api_key(api_key) {
        Ok(String::from_str(CLIENT_READY))
    } else {
        Err(String::from_str(EMPTY_API_KEY))
    }
}

/// The client to chat with, or the complaint that there is none.
pub fn require_client<C>(client: Option<C>) -> (result: Result<C, String>)
    ensures
        match result {
            Ok(found) => client == Some(found),
            Err(complaint) => client is None && complaint@ == CLIENT_MISSING@,
        },
{
    match client {
        Some(found) => Ok(found),
        None => Err(String::from_str(CLIENT_MISSING)),
    }
}

/// The words in which a command reports that it could not do what it
/// was asked to.
pub fn failure(task: &str, cause: &str) -> (words: String)
    ensures
        words@ == "Failed to "@ + task@ + ": "@ + cause@,
{
    let mut words = String::from_str("Failed to ");
    words.append(task);
    words.append(": ");
    words.append(cause);
    words
}

/// A greeting for this name.
pub fn greet(name: &str) -> (greeting: String)
    ensures
        greeting@ == "Hello, "@ + name@ + "! You've been greeted from Rust!"@,
{
    let mut greeting = String::from_str("Hello, ");
    greeting.append(name);
    greeting.append("! You've been greeted from Rust!");
    greeting
}

} // verus!
