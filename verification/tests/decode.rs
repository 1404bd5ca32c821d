use dax_tui::decode::{decode_event, decode_json, decode_line};
use dax_tui::json::{parse_json, Json};
use dax_tui::protocol::{StreamEvent, TuiMessage, Warning};

fn text(s: &str) -> Json {
    Json::Text(s.to_string())
}

fn object(members: Vec<(&str, Json)>) -> Json {
    Json::Object(members.into_iter().map(|(name, value)| (name.to_string(), value)).collect())
}

fn event(line: &str) -> Option<StreamEvent> {
    match decode_line(line) {
        Some(TuiMessage::Dispatch { event }) => Some(event),
        Some(other) => panic!("not a dispatch: {:?}", other),
        None => None,
    }
}

fn wrap(event_json: &str) -> String {
    format!("{{\"type\":\"dispatch\",\"event\":{}}}", event_json)
}

#[test]
fn parse_json_reads_every_kind_of_value() {
    assert_eq!(parse_json("null"), Some(Json::Null));
    assert_eq!(parse_json("true"), Some(Json::Bool(true)));
    assert_eq!(parse_json(" false "), Some(Json::Bool(false)));
    assert_eq!(parse_json("42"), Some(Json::Number(Some(42))));
    assert_eq!(parse_json("18446744073709551615"), Some(Json::Number(Some(u64::MAX))));
    assert_eq!(parse_json("-1"), Some(Json::Number(None)));
    assert_eq!(parse_json("1.5"), Some(Json::Number(None)));
    assert_eq!(parse_json("42.0"), Some(Json::Number(None)));
    assert_eq!(parse_json("\"a\\nb\""), Some(text("a\nb")));
    assert_eq!(
        parse_json("[1,\"x\",[]]"),
        Some(Json::Array(vec![Json::Number(Some(1)), text("x"), Json::Array(vec![])]))
    );
    assert_eq!(
        parse_json("{\"k\":{\"n\":null}}"),
        Some(object(vec![("k", object(vec![("n", Json::Null)]))]))
    );
}

#[test]
fn parse_json_rejects_what_is_no_document() {
    assert_eq!(parse_json(""), None);
    assert_eq!(parse_json("not json"), None);
    assert_eq!(parse_json("{\"a\":1"), None);
    assert_eq!(parse_json("{} {}"), None);
    assert_eq!(parse_json("{'a':1}"), None);
    assert_eq!(parse_json("[1,]"), None);
}

#[test]
fn parse_json_keeps_the_last_of_equal_names() {
    let parsed = parse_json("{\"a\":1,\"a\":2}");
    assert_eq!(parsed, Some(object(vec![("a", Json::Number(Some(2)))])));
}

#[test]
fn decode_add_user_message() {
    assert_eq!(
        decode_line("{\"type\":\"addUserMessage\",\"content\":\"hi\"}"),
        Some(TuiMessage::AddUserMessage { content: "hi".to_string() })
    );
    assert_eq!(decode_line("{\"type\":\"addUserMessage\"}"), None);
    assert_eq!(decode_line("{\"type\":\"addUserMessage\",\"content\":5}"), None);
    assert_eq!(decode_line("{\"type\":\"addUserMessage\",\"content\":null}"), None);
}

#[test]
fn decode_set_context() {
    assert_eq!(
        decode_line("{\"type\":\"setContext\",\"files\":[\"a\",\"b\"],\"scope\":[]}"),
        Some(TuiMessage::SetContext {
            files: vec!["a".to_string(), "b".to_string()],
            scope: vec![],
        })
    );
    assert_eq!(decode_line("{\"type\":\"setContext\",\"files\":[\"a\"]}"), None);
    assert_eq!(decode_line("{\"type\":\"setContext\",\"files\":[\"a\",1],\"scope\":[]}"), None);
    assert_eq!(decode_line("{\"type\":\"setContext\",\"files\":\"a\",\"scope\":[]}"), None);
    assert_eq!(decode_line("{\"type\":\"setContext\",\"files\":null,\"scope\":[]}"), None);
}

#[test]
fn decode_update_state_and_destroy() {
    assert_eq!(
        decode_line("{\"type\":\"updateState\",\"state\":\"streaming\"}"),
        Some(TuiMessage::UpdateState { state: "streaming".to_string() })
    );
    assert_eq!(decode_line("{\"type\":\"updateState\"}"), None);
    assert_eq!(decode_line("{\"type\":\"destroy\"}"), Some(TuiMessage::Destroy));
    assert_eq!(decode_line("{\"type\":\"destroy\",\"extra\":[1,2]}"), Some(TuiMessage::Destroy));
}

#[test]
fn decode_rejects_malformed_and_unknown() {
    assert_eq!(decode_line("not json"), None);
    assert_eq!(decode_line(""), None);
    assert_eq!(decode_line("[]"), None);
    assert_eq!(decode_line("\"destroy\""), None);
    assert_eq!(decode_line("{}"), None);
    assert_eq!(decode_line("{\"type\":\"Destroy\"}"), None);
    assert_eq!(decode_line("{\"type\":\"unknown\"}"), None);
    assert_eq!(decode_line("{\"type\":4}"), None);
    assert_eq!(decode_line("{\"content\":\"hi\"}"), None);
    assert_eq!(decode_line("{\"type\":\"dispatch\"}"), None);
    assert_eq!(decode_line("{\"type\":\"dispatch\",\"event\":\"complete\"}"), None);
    assert_eq!(decode_line("{\"type\":\"dispatch\",\"event\":{\"data\":{}}}"), None);
    assert_eq!(decode_line("{\"type\":\"dispatch\",\"event\":{\"type\":\"nope\",\"data\":{}}}"), None);
}

#[test]
fn decode_ignores_unknown_members() {
    assert_eq!(
        decode_line("{\"v\":1,\"type\":\"addUserMessage\",\"x\":{},\"content\":\"hi\"}"),
        Some(TuiMessage::AddUserMessage { content: "hi".to_string() })
    );
}

#[test]
fn decode_meta() {
    assert_eq!(
        event(&wrap("{\"type\":\"meta\",\"data\":{\"provider\":\"p\",\"model\":\"m\"}}")),
        Some(StreamEvent::Meta { provider: Some("p".to_string()), model: Some("m".to_string()) })
    );
    assert_eq!(
        event(&wrap("{\"type\":\"meta\",\"data\":{\"model\":null}}")),
        Some(StreamEvent::Meta { provider: None, model: None })
    );
    assert_eq!(event(&wrap("{\"type\":\"meta\",\"data\":{\"provider\":1}}")), None);
    assert_eq!(event(&wrap("{\"type\":\"meta\"}")), None);
    assert_eq!(event(&wrap("{\"type\":\"meta\",\"data\":null}")), None);
}

#[test]
fn decode_state_and_text_delta() {
    assert_eq!(
        event(&wrap("{\"type\":\"state\",\"data\":{\"state\":\"thinking\"}}")),
        Some(StreamEvent::State { state: "thinking".to_string() })
    );
    assert_eq!(event(&wrap("{\"type\":\"state\",\"data\":{}}")), None);
    assert_eq!(
        event(&wrap("{\"data\":{\"text\":\"hello\"},\"type\":\"text_delta\"}")),
        Some(StreamEvent::TextDelta { text: "hello".to_string() })
    );
    assert_eq!(event(&wrap("{\"type\":\"text_delta\",\"data\":{\"text\":null}}")), None);
}

#[test]
fn decode_tool_call_and_result() {
    assert_eq!(
        event(&wrap("{\"type\":\"tool_call\",\"data\":{\"name\":\"x\",\"id\":\"1\"}}")),
        Some(StreamEvent::ToolCall { name: Some("x".to_string()), id: Some("1".to_string()) })
    );
    assert_eq!(
        event(&wrap("{\"type\":\"tool_call\",\"data\":{}}")),
        Some(StreamEvent::ToolCall { name: None, id: None })
    );
    assert_eq!(
        event(&wrap(
            "{\"type\":\"tool_result\",\"data\":{\"tool_id\":\"1\",\"success\":true,\"output\":\"ok\",\"elapsed_ms\":42}}"
        )),
        Some(StreamEvent::ToolResult {
            tool_id: Some("1".to_string()),
            success: Some(true),
            output: Some("ok".to_string()),
            elapsed_ms: Some(42),
        })
    );
    assert_eq!(
        event(&wrap("{\"type\":\"tool_result\",\"data\":{\"success\":null}}")),
        Some(StreamEvent::ToolResult { tool_id: None, success: None, output: None, elapsed_ms: None })
    );
    assert_eq!(event(&wrap("{\"type\":\"tool_result\",\"data\":{\"elapsed_ms\":-1}}")), None);
    assert_eq!(event(&wrap("{\"type\":\"tool_result\",\"data\":{\"elapsed_ms\":1.5}}")), None);
    assert_eq!(event(&wrap("{\"type\":\"tool_result\",\"data\":{\"elapsed_ms\":\"42\"}}")), None);
    assert_eq!(event(&wrap("{\"type\":\"tool_result\",\"data\":{\"success\":\"yes\"}}")), None);
}

#[test]
fn decode_gate() {
    assert_eq!(
        event(&wrap(
            "{\"type\":\"gate\",\"data\":{\"id\":\"g\",\"blocked\":true,\"warnings\":[{\"code\":\"W1\",\"subject\":\"rm\",\"more\":1}]}}"
        )),
        Some(StreamEvent::Gate {
            id: Some("g".to_string()),
            blocked: Some(true),
            warnings: Some(vec![Warning { code: "W1".to_string(), subject: "rm".to_string() }]),
        })
    );
    assert_eq!(
        event(&wrap("{\"type\":\"gate\",\"data\":{\"warnings\":[]}}")),
        Some(StreamEvent::Gate { id: None, blocked: None, warnings: Some(vec![]) })
    );
    assert_eq!(
        event(&wrap("{\"type\":\"gate\",\"data\":{}}")),
        Some(StreamEvent::Gate { id: None, blocked: None, warnings: None })
    );
    assert_eq!(event(&wrap("{\"type\":\"gate\",\"data\":{\"warnings\":[{\"code\":\"W1\"}]}}")), None);
    assert_eq!(event(&wrap("{\"type\":\"gate\",\"data\":{\"warnings\":{}}}")), None);
    assert_eq!(event(&wrap("{\"type\":\"gate\",\"data\":{\"blocked\":0}}")), None);
}

#[test]
fn decode_complete_and_error() {
    assert_eq!(event(&wrap("{\"type\":\"complete\"}")), Some(StreamEvent::Complete));
    assert_eq!(event(&wrap("{\"type\":\"complete\",\"data\":null}")), Some(StreamEvent::Complete));
    assert_eq!(event(&wrap("{\"type\":\"complete\",\"data\":{}}")), None);
    assert_eq!(
        event(&wrap("{\"type\":\"error\",\"data\":{\"message\":\"boom\"}}")),
        Some(StreamEvent::Error { message: Some("boom".to_string()) })
    );
    assert_eq!(
        event(&wrap("{\"type\":\"error\",\"data\":{}}")),
        Some(StreamEvent::Error { message: None })
    );
    assert_eq!(event(&wrap("{\"type\":\"error\"}")), None);
}

#[test]
fn decode_json_reads_a_built_document() {
    let doc = object(vec![
        ("type", text("dispatch")),
        (
            "event",
            object(vec![
                ("type", text("tool_result")),
                (
                    "data",
                    object(vec![
                        ("tool_id", text("7")),
                        ("success", Json::Bool(false)),
                        ("elapsed_ms", Json::Number(Some(9))),
                    ]),
                ),
            ]),
        ),
    ]);
    assert_eq!(
        decode_json(&doc),
        Some(TuiMessage::Dispatch {
            event: StreamEvent::ToolResult {
                tool_id: Some("7".to_string()),
                success: Some(false),
                output: None,
                elapsed_ms: Some(9),
            },
        })
    );
    assert_eq!(decode_json(&Json::Null), None);
    assert_eq!(decode_json(&Json::Array(vec![text("destroy")])), None);
}

#[test]
fn decode_json_takes_the_first_of_equal_names() {
    let doc = object(vec![
        ("type", text("addUserMessage")),
        ("content", text("first")),
        ("content", text("second")),
    ]);
    assert_eq!(decode_json(&doc), Some(TuiMessage::AddUserMessage { content: "first".to_string() }));
}

#[test]
fn decode_event_reads_a_built_document() {
    let doc = object(vec![("type", text("complete"))]);
    assert_eq!(decode_event(&doc), Some(StreamEvent::Complete));
    let doc = object(vec![("type", text("text_delta")), ("data", object(vec![("text", text("t"))]))]);
    assert_eq!(decode_event(&doc), Some(StreamEvent::TextDelta { text: "t".to_string() }));
    let doc = object(vec![("type", text("text_delta")), ("data", Json::Array(vec![text("t")]))]);
    assert_eq!(decode_event(&doc), None);
    assert_eq!(decode_event(&text("complete")), None);
}
