use dax_tui::model::{Message, Phase, Role, ToolState, ToolStatus};
use dax_tui::protocol::{StreamEvent, TuiMessage, Warning};
use dax_tui::view_model::ViewModel;

fn dispatch(vm: &mut ViewModel, event: StreamEvent, now: u64) -> bool {
    vm.apply(TuiMessage::Dispatch { event }, now)
}

fn tool_call(name: &str, id: &str) -> StreamEvent {
    StreamEvent::ToolCall { name: Some(name.to_string()), id: Some(id.to_string()) }
}

fn tool_result(id: &str, success: bool, output: &str, elapsed: u64) -> StreamEvent {
    StreamEvent::ToolResult {
        tool_id: Some(id.to_string()),
        success: Some(success),
        output: Some(output.to_string()),
        elapsed_ms: Some(elapsed),
    }
}

fn text_delta(text: &str) -> StreamEvent {
    StreamEvent::TextDelta { text: text.to_string() }
}

#[test]
fn new_view_model_is_empty_and_done() {
    let vm = ViewModel::new();
    assert!(vm.transcript().is_empty());
    assert_eq!(vm.streaming_buffer(), "");
    assert_eq!(vm.stream_phase(), Phase::Done);
    assert_eq!(vm.active_tool(), &None);
    assert!(vm.tool_log().is_empty());
    assert!(vm.context_files().is_empty());
    assert!(vm.context_scope().is_empty());
    assert_eq!(vm.input_buffer(), "");
    assert_eq!(vm.scroll_position(), 0);
    assert_eq!(vm.provider(), &None);
    assert_eq!(vm.model(), &None);
}

#[test]
fn user_message_starts_thinking() {
    let mut vm = ViewModel::new();
    dispatch(&mut vm, text_delta("left over"), 1);
    let running = vm.apply(TuiMessage::AddUserMessage { content: "hi".to_string() }, 7);
    assert!(running);
    assert_eq!(
        vm.transcript(),
        &vec![Message {
            role: Role::User,
            content: "hi".to_string(),
            timestamp: 7,
            tools: vec![],
        }]
    );
    assert_eq!(vm.streaming_buffer(), "");
    assert_eq!(vm.stream_phase(), Phase::Thinking);
    assert_eq!(vm.scroll_position(), 0);
}

#[test]
fn set_context_replaces_wholesale() {
    let mut vm = ViewModel::new();
    vm.apply(
        TuiMessage::SetContext {
            files: vec!["a.rs".to_string(), "b.rs".to_string()],
            scope: vec!["src".to_string()],
        },
        1,
    );
    vm.apply(TuiMessage::SetContext { files: vec!["c.rs".to_string()], scope: vec![] }, 2);
    assert_eq!(vm.context_files(), &vec!["c.rs".to_string()]);
    assert!(vm.context_scope().is_empty());
}

#[test]
fn update_state_sets_phase_directly() {
    let mut vm = ViewModel::new();
    vm.apply(TuiMessage::UpdateState { state: "request_sent".to_string() }, 1);
    assert_eq!(vm.stream_phase(), Phase::RequestSent);
    vm.apply(TuiMessage::UpdateState { state: "no such phase".to_string() }, 1);
    assert_eq!(vm.stream_phase(), Phase::Other);
}

#[test]
fn destroy_stops_and_changes_nothing() {
    let mut vm = ViewModel::new();
    vm.apply(TuiMessage::AddUserMessage { content: "hi".to_string() }, 3);
    let running = vm.apply(TuiMessage::Destroy, 4);
    assert!(!running);
    assert_eq!(vm.transcript().len(), 1);
    assert_eq!(vm.stream_phase(), Phase::Thinking);
}

#[test]
fn phase_names_are_read() {
    assert_eq!(Phase::from_name("idle"), Phase::Idle);
    assert_eq!(Phase::from_name("done"), Phase::Done);
    assert_eq!(Phase::from_name("request_sent"), Phase::RequestSent);
    assert_eq!(Phase::from_name("thinking"), Phase::Thinking);
    assert_eq!(Phase::from_name("awaiting_first_token"), Phase::AwaitingFirstToken);
    assert_eq!(Phase::from_name("streaming"), Phase::Streaming);
    assert_eq!(Phase::from_name("tool_executing"), Phase::ToolExecuting);
    assert_eq!(Phase::from_name("waiting"), Phase::Waiting);
    assert_eq!(Phase::from_name("error"), Phase::Error);
    assert_eq!(Phase::from_name("Idle"), Phase::Other);
    assert_eq!(Phase::from_name(""), Phase::Other);
}

#[test]
fn meta_sets_provider_and_model() {
    let mut vm = ViewModel::new();
    dispatch(
        &mut vm,
        StreamEvent::Meta { provider: Some("acme".to_string()), model: Some("m1".to_string()) },
        1,
    );
    assert_eq!(vm.provider(), &Some("acme".to_string()));
    assert_eq!(vm.model(), &Some("m1".to_string()));
    assert_eq!(vm.stream_phase(), Phase::Done);
    dispatch(&mut vm, StreamEvent::Meta { provider: None, model: None }, 1);
    assert_eq!(vm.provider(), &None);
    assert_eq!(vm.model(), &None);
}

#[test]
fn state_event_sets_phase() {
    let mut vm = ViewModel::new();
    dispatch(&mut vm, StreamEvent::State { state: "streaming".to_string() }, 1);
    assert_eq!(vm.stream_phase(), Phase::Streaming);
}

#[test]
fn text_delta_accumulates_without_phase_change() {
    let mut vm = ViewModel::new();
    dispatch(&mut vm, text_delta("hel"), 1);
    dispatch(&mut vm, text_delta("lo"), 2);
    assert_eq!(vm.streaming_buffer(), "hello");
    assert_eq!(vm.stream_phase(), Phase::Done);
    assert!(vm.transcript().is_empty());
}

#[test]
fn tool_call_without_id_only_sets_active_tool() {
    let mut vm = ViewModel::new();
    dispatch(&mut vm, StreamEvent::ToolCall { name: Some("grep".to_string()), id: None }, 1);
    assert_eq!(vm.active_tool(), &Some("grep".to_string()));
    assert!(vm.tool_log().is_empty());
    dispatch(&mut vm, StreamEvent::ToolCall { name: None, id: Some("9".to_string()) }, 1);
    assert_eq!(vm.active_tool(), &None);
    assert!(vm.tool_log().is_empty());
}

#[test]
fn tool_result_correlates_by_id() {
    let mut vm = ViewModel::new();
    dispatch(&mut vm, tool_call("x", "1"), 1);
    assert_eq!(vm.active_tool(), &Some("x".to_string()));
    assert_eq!(
        vm.tool_log(),
        &vec![ToolState {
            name: "x".to_string(),
            id: "1".to_string(),
            status: ToolStatus::Running,
            output: None,
            elapsed_ms: None,
        }]
    );
    dispatch(&mut vm, tool_result("1", true, "ok", 42), 2);
    let resolved = ToolState {
        name: "x".to_string(),
        id: "1".to_string(),
        status: ToolStatus::Success,
        output: Some("ok".to_string()),
        elapsed_ms: Some(42),
    };
    assert_eq!(vm.active_tool(), &None);
    assert_eq!(vm.tool_log(), &vec![resolved.clone()]);
    dispatch(&mut vm, tool_result("1", false, "late", 99), 3);
    assert_eq!(vm.tool_log(), &vec![resolved]);
}

#[test]
fn tool_result_for_unknown_id_is_ignored() {
    let mut vm = ViewModel::new();
    dispatch(&mut vm, tool_call("x", "1"), 1);
    dispatch(&mut vm, tool_result("2", true, "ok", 5), 2);
    assert_eq!(vm.tool_log()[0].status, ToolStatus::Running);
    assert_eq!(vm.tool_log()[0].output, None);
    assert_eq!(vm.active_tool(), &None);
}

#[test]
fn tool_result_takes_first_running_entry_of_the_id() {
    let mut vm = ViewModel::new();
    dispatch(&mut vm, tool_call("a", "7"), 1);
    dispatch(&mut vm, tool_call("b", "7"), 1);
    dispatch(&mut vm, tool_result("7", true, "one", 1), 2);
    assert_eq!(vm.tool_log()[0].status, ToolStatus::Success);
    assert_eq!(vm.tool_log()[1].status, ToolStatus::Running);
    dispatch(&mut vm, tool_result("7", false, "two", 2), 3);
    assert_eq!(vm.tool_log()[0].output, Some("one".to_string()));
    assert_eq!(vm.tool_log()[1].status, ToolStatus::Error);
    assert_eq!(vm.tool_log()[1].output, Some("two".to_string()));
    assert_eq!(vm.tool_log()[1].elapsed_ms, Some(2));
}

#[test]
fn tool_result_without_success_is_an_error() {
    let mut vm = ViewModel::new();
    dispatch(&mut vm, tool_call("x", "1"), 1);
    dispatch(
        &mut vm,
        StreamEvent::ToolResult {
            tool_id: Some("1".to_string()),
            success: None,
            output: None,
            elapsed_ms: None,
        },
        2,
    );
    assert_eq!(vm.tool_log()[0].status, ToolStatus::Error);
    assert_eq!(vm.tool_log()[0].output, None);
    assert_eq!(vm.tool_log()[0].elapsed_ms, None);
}

#[test]
fn tool_result_without_id_matches_the_empty_id() {
    let mut vm = ViewModel::new();
    dispatch(&mut vm, tool_call("x", ""), 1);
    dispatch(
        &mut vm,
        StreamEvent::ToolResult {
            tool_id: None,
            success: Some(true),
            output: None,
            elapsed_ms: Some(3),
        },
        2,
    );
    assert_eq!(vm.tool_log()[0].status, ToolStatus::Success);
    assert_eq!(vm.tool_log()[0].elapsed_ms, Some(3));
}

#[test]
fn complete_without_turn_is_a_no_op() {
    let mut vm = ViewModel::new();
    vm.apply(TuiMessage::AddUserMessage { content: "a".to_string() }, 1);
    vm.apply(TuiMessage::AddUserMessage { content: "b".to_string() }, 2);
    let before_phase = vm.stream_phase();
    dispatch(&mut vm, StreamEvent::Complete, 3);
    assert_eq!(vm.transcript().len(), 2);
    assert_eq!(vm.scroll_position(), 0);
    assert_eq!(vm.stream_phase(), before_phase);
}

#[test]
fn complete_snapshots_text_and_tools() {
    let mut vm = ViewModel::new();
    vm.apply(TuiMessage::AddUserMessage { content: "go".to_string() }, 1);
    dispatch(&mut vm, text_delta("working"), 2);
    dispatch(&mut vm, tool_call("x", "1"), 3);
    dispatch(&mut vm, StreamEvent::Complete, 10);
    assert_eq!(vm.transcript().len(), 2);
    let last = &vm.transcript()[1];
    assert_eq!(last.role, Role::Assistant);
    assert_eq!(last.content, "working");
    assert_eq!(last.timestamp, 10);
    assert_eq!(last.tools.len(), 1);
    assert_eq!(last.tools[0].status, ToolStatus::Running);
    assert_eq!(vm.streaming_buffer(), "");
    assert!(vm.tool_log().is_empty());
    assert_eq!(vm.stream_phase(), Phase::Idle);
    assert_eq!(vm.scroll_position(), 1);
}

#[test]
fn complete_with_tools_only_closes_the_turn() {
    let mut vm = ViewModel::new();
    dispatch(&mut vm, tool_call("x", "1"), 3);
    dispatch(&mut vm, StreamEvent::Complete, 10);
    assert_eq!(vm.transcript().len(), 1);
    assert_eq!(vm.transcript()[0].content, "");
    assert_eq!(vm.transcript()[0].tools.len(), 1);
    assert_eq!(vm.scroll_position(), 0);
    assert_eq!(vm.stream_phase(), Phase::Idle);
}

#[test]
fn late_tool_result_leaves_snapshot_alone() {
    let mut vm = ViewModel::new();
    dispatch(&mut vm, tool_call("x", "1"), 1);
    dispatch(&mut vm, StreamEvent::Complete, 2);
    let frozen = vm.transcript().clone();
    dispatch(&mut vm, tool_result("1", true, "ok", 42), 3);
    assert_eq!(vm.transcript(), &frozen);
    assert_eq!(vm.transcript()[0].tools[0].status, ToolStatus::Running);
    assert!(vm.tool_log().is_empty());
}

#[test]
fn error_event_forces_error_phase() {
    let mut vm = ViewModel::new();
    dispatch(&mut vm, text_delta("partial"), 1);
    dispatch(&mut vm, StreamEvent::Error { message: Some("boom".to_string()) }, 2);
    assert_eq!(vm.stream_phase(), Phase::Error);
    assert_eq!(vm.streaming_buffer(), "partial");
    assert!(vm.transcript().is_empty());
}

#[test]
fn gate_event_forces_waiting_phase() {
    let mut vm = ViewModel::new();
    dispatch(
        &mut vm,
        StreamEvent::Gate {
            id: Some("g".to_string()),
            blocked: Some(true),
            warnings: Some(vec![Warning { code: "W1".to_string(), subject: "rm".to_string() }]),
        },
        2,
    );
    assert_eq!(vm.stream_phase(), Phase::Waiting);
}

#[test]
fn batch_equals_one_at_a_time() {
    let batch = vec![
        TuiMessage::AddUserMessage { content: "hi".to_string() },
        TuiMessage::Dispatch { event: text_delta("he") },
        TuiMessage::Dispatch { event: tool_call("x", "1") },
        TuiMessage::Dispatch { event: text_delta("llo") },
        TuiMessage::Dispatch { event: tool_result("1", true, "ok", 42) },
        TuiMessage::Dispatch { event: StreamEvent::Complete },
        TuiMessage::UpdateState { state: "waiting".to_string() },
    ];
    let mut single = ViewModel::new();
    for msg in batch.clone() {
        assert!(single.apply(msg, 5));
    }
    let mut whole = ViewModel::new();
    assert!(whole.apply_all(batch.clone(), 5));
    let mut halves = ViewModel::new();
    let mut first = batch;
    let second = first.split_off(3);
    assert!(halves.apply_all(first, 5));
    assert!(halves.apply_all(second, 5));
    for vm in [&whole, &halves] {
        assert_eq!(vm.transcript(), single.transcript());
        assert_eq!(vm.streaming_buffer(), single.streaming_buffer());
        assert_eq!(vm.stream_phase(), single.stream_phase());
        assert_eq!(vm.tool_log(), single.tool_log());
        assert_eq!(vm.scroll_position(), single.scroll_position());
        assert_eq!(vm.active_tool(), single.active_tool());
    }
    assert_eq!(whole.transcript().len(), 2);
    assert_eq!(whole.transcript()[1].content, "hello");
    assert_eq!(whole.transcript()[1].tools[0].status, ToolStatus::Success);
    assert_eq!(whole.stream_phase(), Phase::Waiting);
}

#[test]
fn batch_stops_at_destroy() {
    let mut vm = ViewModel::new();
    let running = vm.apply_all(
        vec![
            TuiMessage::AddUserMessage { content: "a".to_string() },
            TuiMessage::Destroy,
            TuiMessage::AddUserMessage { content: "b".to_string() },
        ],
        1,
    );
    assert!(!running);
    assert_eq!(vm.transcript().len(), 1);
    assert_eq!(vm.transcript()[0].content, "a");
}

#[test]
fn empty_batch_changes_nothing() {
    let mut vm = ViewModel::new();
    assert!(vm.apply_all(vec![], 1));
    assert!(vm.transcript().is_empty());
    assert_eq!(vm.stream_phase(), Phase::Done);
}

#[test]
fn end_to_end_lines_build_a_turn() {
    let mut vm = ViewModel::new();
    let lines = vec![
        "{\"type\":\"addUserMessage\",\"content\":\"hi\"}".to_string(),
        "{\"type\":\"dispatch\",\"event\":{\"type\":\"text_delta\",\"data\":{\"text\":\"hello\"}}}"
            .to_string(),
        "{\"type\":\"dispatch\",\"event\":{\"type\":\"complete\"}}".to_string(),
    ];
    let running = vm.apply_lines(&lines, 1000);
    assert!(running);
    assert_eq!(vm.transcript().len(), 2);
    assert_eq!(vm.transcript()[0].role, Role::User);
    assert_eq!(vm.transcript()[0].content, "hi");
    assert_eq!(vm.transcript()[1].role, Role::Assistant);
    assert_eq!(vm.transcript()[1].content, "hello");
    assert_eq!(vm.stream_phase(), Phase::Idle);
    assert_eq!(vm.streaming_buffer(), "");
    assert_eq!(vm.scroll_position(), 1);
}

#[test]
fn undecodable_lines_are_dropped() {
    let mut vm = ViewModel::new();
    let lines = vec![
        "not json".to_string(),
        "{\"type\":\"addUserMessage\",\"content\":\"hi\"}".to_string(),
        "{\"type\":\"nope\"}".to_string(),
        "{\"type\":\"destroy\"}".to_string(),
        "{\"type\":\"addUserMessage\",\"content\":\"late\"}".to_string(),
    ];
    let running = vm.apply_lines(&lines, 5);
    assert!(!running);
    assert_eq!(vm.transcript().len(), 1);
    assert_eq!(vm.transcript()[0].content, "hi");
}
