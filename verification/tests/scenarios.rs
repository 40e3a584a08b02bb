//! Whole runs, driven as a host would drive them: a scripted provider, a
//! subscriber that records what it receives, and the game tool.

use phaser_chat::controller::{
    tool_report, Action, DeliveryError, Failure, Input, OrchestrationRun, Outcome, Phase,
    MAX_DEPTH,
};
use phaser_chat::event::{CanonicalEvent, RawItem, SinkEvent, ToolInvocation, ToolOutcome};
use phaser_chat::game_builder::{create_phaser_game_tool, tool_outcome, SpecOutline};
use phaser_chat::history::HistoryError;
use phaser_chat::message::ChatMessage;

fn message(role: &str, content: &str) -> ChatMessage {
    ChatMessage { id: format!("m-{}", content.len()), role: role.to_string(), content: content.to_string() }
}

/// Runs the game tool on the arguments of a call, as the host's adapter
/// does: the arguments are decoded, checked and written back as JSON.
fn run_tool(call: &ToolInvocation) -> ToolOutcome {
    let value: serde_json::Value = match serde_json::from_str(&call.arguments) {
        Ok(value) => value,
        Err(error) => return ToolOutcome::Failure(error.to_string()),
    };
    let outline = SpecOutline {
        scenes: value["scenes"].as_array().map(|scenes| scenes.len()).unwrap_or(0),
        width: value["game"]["width"].as_u64().unwrap_or(0) as u32,
        height: value["game"]["height"].as_u64().unwrap_or(0) as u32,
    };
    let rendered = serde_json::to_string_pretty(&value).map_err(|error| error.to_string());
    tool_outcome(create_phaser_game_tool().call(outline, rendered))
}

/// Drives a run to its end. The provider yields `items` in order; the
/// subscriber fails on the event with index `fail_at`, if there is one.
fn drive(
    run: OrchestrationRun,
    items: Vec<RawItem>,
    fail_at: Option<usize>,
) -> (Vec<SinkEvent>, Outcome, Vec<ToolInvocation>) {
    let mut items = items.into_iter();
    let mut received: Vec<SinkEvent> = Vec::new();
    let mut executed: Vec<ToolInvocation> = Vec::new();
    let mut published = 0usize;
    let mut run = run;
    let mut input = match items.next() {
        Some(item) => Input::Item(item),
        None => Input::StreamEnded,
    };
    for _ in 0..10_000 {
        let (next, action) = run.step(input);
        run = next;
        input = match action {
            Action::Pull | Action::Resume => match items.next() {
                Some(item) => Input::Item(item),
                None => Input::StreamEnded,
            },
            Action::Publish(event) => {
                let index = published;
                published += 1;
                if fail_at == Some(index) {
                    Input::DeliveryFailed("window closed".to_string())
                } else {
                    received.push(event);
                    Input::Delivered
                }
            }
            Action::Execute(call) => {
                let outcome = run_tool(&call);
                executed.push(call);
                Input::ToolFinished(outcome)
            }
            Action::Finish(outcome) => {
                assert!(run.terminated());
                return (received, outcome, executed);
            }
        };
    }
    panic!("the run did not end");
}

fn begin(log: Vec<ChatMessage>) -> OrchestrationRun {
    match OrchestrationRun::begin(&log) {
        Ok((run, _)) => run,
        Err(fault) => panic!("the log does not assemble: {:?}", fault),
    }
}

const VALID_GAME: &str = r#"{"title":"Dodger","description":"Dodge the blocks","game":{"width":800,"height":600,"physics":{"enabled":true,"gravity":{"y":0.0}}},"scenes":[{"name":"main","objects":[]}],"controls_description":[],"key_concepts":[]}"#;

const FLAT_GAME: &str = r#"{"title":"Flat","description":"No width","game":{"width":0,"height":600,"physics":{"enabled":false,"gravity":{"y":0.0}}},"scenes":[{"name":"main","objects":[]}],"controls_description":[],"key_concepts":[]}"#;

fn tool_call(arguments: &str) -> RawItem {
    RawItem::ToolCall { name: "generate_phaser_game".to_string(), arguments: arguments.to_string() }
}

fn text(text: &str) -> RawItem {
    RawItem::Text(text.to_string())
}

fn final_response(text: &str) -> RawItem {
    RawItem::Final { text: text.to_string() }
}

#[test]
fn scenario_text_tool_call_final_response() {
    let run = begin(vec![message("user", "make a dodger game")]);
    let (received, outcome, executed) = drive(
        run,
        vec![text("Sure!"), tool_call(VALID_GAME), final_response("Here's your game.")],
        None,
    );
    assert_eq!(outcome, Outcome::Completed);
    assert_eq!(executed.len(), 1);
    assert_eq!(executed[0].name, "generate_phaser_game");
    assert_eq!(executed[0].arguments, VALID_GAME);
    assert_eq!(received.len(), 6);
    assert_eq!(received[0], SinkEvent::Event(CanonicalEvent::TextDelta { text: "Sure!".to_string() }));
    assert_eq!(
        received[1],
        SinkEvent::Event(CanonicalEvent::ToolCallRequested {
            name: "generate_phaser_game".to_string(),
            raw_arguments: VALID_GAME.to_string(),
        })
    );
    match &received[2] {
        SinkEvent::Event(CanonicalEvent::ToolResult { payload: ToolOutcome::Success(game) }) => {
            let value: serde_json::Value = serde_json::from_str(game).unwrap();
            assert_eq!(value["game"]["width"].as_u64(), Some(800));
            assert_eq!(value["game"]["height"].as_u64(), Some(600));
        }
        other => panic!("not a successful tool result: {:?}", other),
    }
    assert_eq!(received[3], SinkEvent::Event(CanonicalEvent::TurnBoundary));
    assert_eq!(
        received[4],
        SinkEvent::Event(CanonicalEvent::FinalResponse { text: "Here's your game.".to_string() })
    );
    assert_eq!(received[5], SinkEvent::Complete);
}

#[test]
fn scenario_assistant_without_user_starts_no_run() {
    let log = vec![message("assistant", "hi")];
    match OrchestrationRun::begin(&log) {
        Ok(_) => panic!("a run was started"),
        Err(fault) => assert_eq!(fault, HistoryError::AssistantWithoutUser { index: 0 }),
    }
}

#[test]
fn scenario_stream_error_after_one_text_delta() {
    let run = begin(vec![message("user", "hello")]);
    let (received, outcome, executed) = drive(
        run,
        vec![text("Let me"), RawItem::Failure { message: "connection reset".to_string() }, text("never read")],
        None,
    );
    assert!(executed.is_empty());
    assert_eq!(
        received,
        vec![
            SinkEvent::Event(CanonicalEvent::TextDelta { text: "Let me".to_string() }),
            SinkEvent::Event(CanonicalEvent::StreamError {
                message: "Stream error: connection reset".to_string()
            }),
            SinkEvent::Complete,
        ]
    );
    assert_eq!(
        outcome,
        Outcome::Failed(Failure::Stream("Stream error: connection reset".to_string()))
    );
    assert_eq!(outcome.into_result(), Err("Stream error: connection reset".to_string()));
}

#[test]
fn scenario_rejected_tool_call_goes_on() {
    let run = begin(vec![message("user", "make a flat game")]);
    let (received, outcome, executed) = drive(
        run,
        vec![tool_call(FLAT_GAME), text("Sorry, "), text("let me fix that."), final_response("Sorry, let me fix that.")],
        None,
    );
    assert_eq!(outcome, Outcome::Completed);
    assert_eq!(executed.len(), 1);
    assert_eq!(
        received,
        vec![
            SinkEvent::Event(CanonicalEvent::ToolCallRequested {
                name: "generate_phaser_game".to_string(),
                raw_arguments: FLAT_GAME.to_string(),
            }),
            SinkEvent::Event(CanonicalEvent::ToolResult {
                payload: ToolOutcome::Failure(
                    "Invalid game configuration: Game dimensions must be greater than 0".to_string()
                ),
            }),
            SinkEvent::Event(CanonicalEvent::TurnBoundary),
            SinkEvent::Event(CanonicalEvent::TextDelta { text: "Sorry, ".to_string() }),
            SinkEvent::Event(CanonicalEvent::TextDelta { text: "let me fix that.".to_string() }),
            SinkEvent::Event(CanonicalEvent::FinalResponse {
                text: "Sorry, let me fix that.".to_string()
            }),
            SinkEvent::Complete,
        ]
    );
}

#[test]
fn five_tool_calls_are_executed_and_the_sixth_is_not() {
    let run = begin(vec![message("user", "keep building")]);
    let mut items = Vec::new();
    for _ in 0..6 {
        items.push(tool_call(VALID_GAME));
    }
    items.push(final_response("never read"));
    let (received, outcome, executed) = drive(run, items, None);
    assert_eq!(executed.len(), 5);
    assert_eq!(outcome, Outcome::Failed(Failure::DepthExhausted));
    // five times call, result, boundary; then the call that is not run, and the marker
    assert_eq!(received.len(), 5 * 3 + 2);
    assert!(matches!(
        received[15],
        SinkEvent::Event(CanonicalEvent::ToolCallRequested { .. })
    ));
    assert_eq!(received[16], SinkEvent::Complete);
    assert_eq!(
        outcome.into_result(),
        Err("Tool call requested beyond the depth limit".to_string())
    );
}

#[test]
fn depth_goes_down_by_one_with_each_execution() {
    let mut run = begin(vec![message("user", "go")]);
    assert_eq!(run.depth_remaining(), 5);
    let mut expected = 5;
    for _ in 0..5 {
        let (next, action) = run.step(Input::Item(tool_call(VALID_GAME)));
        assert!(matches!(action, Action::Publish(_)));
        assert_eq!(next.depth_remaining(), expected);
        let (next, action) = next.step(Input::Delivered);
        let call = match action {
            Action::Execute(call) => call,
            other => panic!("not an execution: {:?}", other),
        };
        assert_eq!(next.depth_remaining(), expected);
        let (next, _) = next.step(Input::ToolFinished(run_tool(&call)));
        expected -= 1;
        assert_eq!(next.depth_remaining(), expected);
        let (next, _) = next.step(Input::Delivered);
        let (next, action) = next.step(Input::Delivered);
        assert_eq!(action, Action::Resume);
        assert_eq!(next.depth_remaining(), expected);
        run = next;
    }
    assert_eq!(run.depth_remaining(), 0);
    // the provider still gets its last word
    let (run, action) = run.step(Input::Item(final_response("done")));
    assert_eq!(
        action,
        Action::Publish(SinkEvent::Event(CanonicalEvent::FinalResponse { text: "done".to_string() }))
    );
    let (run, action) = run.step(Input::Delivered);
    assert_eq!(action, Action::Publish(SinkEvent::Complete));
    let (run, action) = run.step(Input::Delivered);
    assert_eq!(action, Action::Finish(Outcome::Completed));
    assert!(run.terminated());
    assert_eq!(run.depth_remaining(), 0);
}

#[test]
fn failed_delivery_ends_the_run_at_once() {
    let run = begin(vec![message("user", "hello")]);
    let (received, outcome, _) =
        drive(run, vec![text("one"), text("two"), final_response("onetwo")], Some(1));
    assert_eq!(
        received,
        vec![SinkEvent::Event(CanonicalEvent::TextDelta { text: "one".to_string() })]
    );
    assert_eq!(
        outcome.into_result(),
        Err("Failed to emit token: window closed".to_string())
    );
}

#[test]
fn failed_delivery_names_the_lost_event() {
    let cases: Vec<(Vec<RawItem>, usize, &str)> = vec![
        (vec![tool_call(VALID_GAME)], 0, "Failed to emit tool call: window closed"),
        (vec![tool_call(VALID_GAME)], 1, "Failed to emit tool result: window closed"),
        (vec![tool_call(VALID_GAME)], 2, "Failed to emit new-turn: window closed"),
        (vec![final_response("x")], 0, "Failed to emit final response: window closed"),
        (vec![final_response("x")], 1, "Failed to emit completion: window closed"),
        (
            vec![RawItem::Failure { message: "broken".to_string() }],
            0,
            "Failed to emit error: window closed",
        ),
    ];
    for (items, fail_at, words) in cases {
        let run = begin(vec![message("user", "hello")]);
        let (received, outcome, _) = drive(run, items, Some(fail_at));
        assert_eq!(received.len(), fail_at);
        assert_eq!(outcome.into_result(), Err(words.to_string()));
    }
}

#[test]
fn stream_that_ends_early_is_completed_without_final_response() {
    let run = begin(vec![message("user", "hello")]);
    let (received, outcome, _) = drive(run, vec![text("half")], None);
    assert_eq!(
        received,
        vec![
            SinkEvent::Event(CanonicalEvent::TextDelta { text: "half".to_string() }),
            SinkEvent::Complete,
        ]
    );
    assert_eq!(outcome, Outcome::Failed(Failure::StreamEnded));
    assert_eq!(
        outcome.into_result(),
        Err("Stream ended without a final response".to_string())
    );
}

#[test]
fn provider_reported_tool_result_closes_the_turn() {
    let run = begin(vec![message("user", "hello")]);
    let (run, action) = run.step(Input::Item(text("before")));
    assert!(matches!(action, Action::Publish(_)));
    assert_eq!(run.accumulated_text(), "before");
    assert!(run.has_text());
    let (run, action) = run.step(Input::Delivered);
    assert_eq!(action, Action::Pull);
    let (run, action) =
        run.step(Input::Item(RawItem::ToolResult { payload: "{\"ok\":true}".to_string() }));
    assert_eq!(
        action,
        Action::Publish(SinkEvent::Event(CanonicalEvent::ToolResult {
            payload: ToolOutcome::Success("{\"ok\":true}".to_string())
        }))
    );
    assert_eq!(run.pending_events(), 2);
    assert_eq!(run.accumulated_text(), "");
    assert!(!run.has_text());
    assert_eq!(run.depth_remaining(), 5);
    let (run, action) = run.step(Input::Delivered);
    assert_eq!(action, Action::Publish(SinkEvent::Event(CanonicalEvent::TurnBoundary)));
    let (run, action) = run.step(Input::Delivered);
    assert_eq!(action, Action::Pull);
    assert!(!run.terminated());
}

#[test]
fn input_out_of_turn_ends_the_run() {
    let run = begin(vec![message("user", "hello")]);
    let (run, action) = run.step(Input::Delivered);
    assert_eq!(action, Action::Finish(Outcome::Failed(Failure::OutOfTurn)));
    assert!(run.terminated());
    let (run, action) = run.step(Input::Item(text("late")));
    assert_eq!(action, Action::Finish(Outcome::Failed(Failure::OutOfTurn)));
    assert_eq!(run.pending_events(), 0);
    assert_eq!(
        Outcome::Failed(Failure::OutOfTurn).into_result(),
        Err("Input does not answer the pending action".to_string())
    );

    let run = begin(vec![message("user", "hello")]);
    let (run, _) = run.step(Input::Item(text("one")));
    let (_, action) = run.step(Input::Item(text("two")));
    assert_eq!(action, Action::Finish(Outcome::Failed(Failure::OutOfTurn)));

    let run = begin(vec![message("user", "hello")]);
    let (_, action) = run.step(Input::ToolFinished(ToolOutcome::Success("x".to_string())));
    assert_eq!(action, Action::Finish(Outcome::Failed(Failure::OutOfTurn)));
}

#[test]
fn items_that_mean_nothing_are_passed_over() {
    let run = begin(vec![message("user", "hello")]);
    let (run, action) = run.step(Input::Item(RawItem::Other));
    assert_eq!(action, Action::Pull);
    assert_eq!(run.pending_events(), 0);
    assert!(!run.terminated());
}

#[test]
fn a_finished_run_repeats_its_outcome() {
    let run = begin(vec![message("user", "hello")]);
    let (received, outcome, _) = drive(run, vec![final_response("bye")], None);
    assert_eq!(received.len(), 2);
    assert_eq!(outcome, Outcome::Completed);
    assert_eq!(outcome.into_result(), Ok(()));
}

#[test]
fn reads_of_the_stream_are_reported_as_inputs() {
    assert_eq!(Input::from_pull(None), Input::StreamEnded);
    assert_eq!(Input::from_pull(Some(Ok(text("a")))), Input::Item(text("a")));
    assert_eq!(
        Input::from_pull(Some(Err("reset".to_string()))),
        Input::Item(RawItem::Failure { message: "reset".to_string() })
    );
}

#[test]
fn deliveries_are_reported_as_inputs() {
    assert_eq!(Input::from_delivery(Ok(())), Input::Delivered);
    assert_eq!(
        Input::from_delivery(Err(DeliveryError { cause: "closed".to_string() })),
        Input::DeliveryFailed("closed".to_string())
    );
}

#[test]
fn run_starts_streaming_with_every_execution_left() {
    let run = begin(vec![message("user", "hello")]);
    assert_eq!(MAX_DEPTH, 5);
    assert_eq!(run.depth_remaining(), 5);
    assert_eq!(run.phase(), &Phase::Streaming);
    assert_eq!(run.pending_events(), 0);
    assert_eq!(run.accumulated_text(), "");
    assert!(!run.has_text());
    assert!(!run.terminated());
}

#[test]
fn run_passes_through_its_phases() {
    let run = begin(vec![message("user", "hello")]);
    let (run, _) = run.step(Input::Item(tool_call(VALID_GAME)));
    assert_eq!(
        run.phase(),
        &Phase::ToolPending(ToolInvocation {
            name: "generate_phaser_game".to_string(),
            arguments: VALID_GAME.to_string(),
        })
    );
    let (run, _) = run.step(Input::Delivered);
    assert_eq!(run.phase(), &Phase::Executing);
    let (run, _) = run.step(Input::ToolFinished(ToolOutcome::Success("{}".to_string())));
    assert_eq!(run.phase(), &Phase::Executing);
    let (run, _) = run.step(Input::Delivered);
    let (run, action) = run.step(Input::Delivered);
    assert_eq!(action, Action::Resume);
    assert_eq!(run.phase(), &Phase::Streaming);
    let (run, _) = run.step(Input::Item(final_response("done")));
    assert_eq!(run.phase(), &Phase::Closing(Outcome::Completed));
    let (run, _) = run.step(Input::Delivered);
    assert_eq!(run.phase(), &Phase::Closing(Outcome::Completed));
    let (run, _) = run.step(Input::Delivered);
    assert_eq!(run.phase(), &Phase::Terminated(Outcome::Completed));
}

fn awaiting_tool() -> OrchestrationRun {
    let run = begin(vec![message("user", "hello")]);
    let (run, _) = run.step(Input::Item(tool_call(VALID_GAME)));
    let (run, action) = run.step(Input::Delivered);
    assert!(matches!(action, Action::Execute(_)));
    run
}

#[test]
fn tool_reports_tell_what_came_of_the_tool() {
    let report = || Some(Ok(RawItem::ToolResult { payload: "[{\"text\":\"ok\"}]".to_string() }));
    // the tool left a success behind: the provider's report is the payload
    assert_eq!(
        tool_report(report(), Some(ToolOutcome::Success("{}".to_string()))),
        Input::ToolFinished(ToolOutcome::Success("[{\"text\":\"ok\"}]".to_string()))
    );
    // the tool left a failure behind
    assert_eq!(
        tool_report(report(), Some(ToolOutcome::Failure("no scenes".to_string()))),
        Input::ToolFinished(ToolOutcome::Failure("[{\"text\":\"ok\"}]".to_string()))
    );
    // the tool never ran
    assert_eq!(
        tool_report(report(), None),
        Input::ToolFinished(ToolOutcome::Failure("[{\"text\":\"ok\"}]".to_string()))
    );
}

#[test]
fn tool_reports_pass_on_whatever_else_the_stream_yields() {
    let left = || Some(ToolOutcome::Success("{}".to_string()));
    assert_eq!(tool_report(None, left()), Input::StreamEnded);
    assert_eq!(
        tool_report(Some(Err("reset".to_string())), left()),
        Input::Item(RawItem::Failure { message: "reset".to_string() })
    );
    assert_eq!(tool_report(Some(Ok(text("more"))), left()), Input::Item(text("more")));
    assert_eq!(tool_report(Some(Ok(RawItem::Other)), None), Input::Item(RawItem::Other));
}

#[test]
fn stream_failure_while_a_tool_is_awaited_is_a_stream_error() {
    let run = awaiting_tool();
    let (run, action) = run.step(tool_report(Some(Err("reset".to_string())), None));
    assert_eq!(
        action,
        Action::Publish(SinkEvent::Event(CanonicalEvent::StreamError {
            message: "Stream error: reset".to_string()
        }))
    );
    let (run, action) = run.step(Input::Delivered);
    assert_eq!(action, Action::Publish(SinkEvent::Complete));
    let (run, action) = run.step(Input::Delivered);
    assert_eq!(
        action,
        Action::Finish(Outcome::Failed(Failure::Stream("Stream error: reset".to_string())))
    );
    assert!(run.terminated());
    assert_eq!(run.depth_remaining(), 5);
}

#[test]
fn stream_that_ends_while_a_tool_is_awaited_is_marked_complete() {
    let run = awaiting_tool();
    let (run, action) = run.step(tool_report(None, None));
    assert_eq!(action, Action::Publish(SinkEvent::Complete));
    let (_, action) = run.step(Input::Delivered);
    assert_eq!(action, Action::Finish(Outcome::Failed(Failure::StreamEnded)));
}

#[test]
fn other_items_while_a_tool_is_awaited_are_out_of_turn() {
    let run = awaiting_tool();
    let (run, action) = run.step(tool_report(Some(Ok(text("more"))), None));
    assert_eq!(action, Action::Finish(Outcome::Failed(Failure::OutOfTurn)));
    assert!(run.terminated());
}
