//! The small decisions of the host's commands.

use phaser_chat::commands::{failure, greet, init_ai, require_client, usable_api_key};

#[test]
fn greeting_names_its_guest() {
    assert_eq!(greet("Ada"), "Hello, Ada! You've been greeted from Rust!");
    assert_eq!(greet(""), "Hello, ! You've been greeted from Rust!");
}

#[test]
fn empty_key_is_refused() {
    assert_eq!(init_ai(""), Err("API key cannot be empty".to_string()));
    assert!(!usable_api_key(""));
}

#[test]
fn any_other_key_is_accepted() {
    assert_eq!(init_ai("k"), Ok("AI client initialized successfully".to_string()));
    assert_eq!(init_ai(" "), Ok("AI client initialized successfully".to_string()));
    assert!(usable_api_key("k"));
}

#[test]
fn chat_needs_a_client() {
    assert_eq!(require_client(Some(7)), Ok(7));
    assert_eq!(
        require_client::<u8>(None),
        Err("AI client not initialized. Call init_ai first.".to_string())
    );
}

#[test]
fn failed_commands_say_what_failed() {
    assert_eq!(failure("save game", "Database error: locked"), "Failed to save game: Database error: locked");
    assert_eq!(failure("get game version", ""), "Failed to get game version: ");
}
