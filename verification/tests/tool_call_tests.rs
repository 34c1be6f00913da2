use std::time::Duration;
use tiny_agent_rs::json::Json;
use tiny_agent_rs::tool_call::{ToolCall, ToolExecution, ToolOutput};

#[test]
fn test_tool_call_creation() {
    let call = ToolCall::new(
        "call_123".to_string(),
        "test_tool".to_string(),
        Json::object().with("arg", Json::string("value")),
    );
    assert_eq!(call.id, "call_123");
    assert_eq!(call.name, "test_tool");
}

#[test]
fn test_tool_call_from_openai() {
    let openai_format = Json::object()
        .with("id", Json::string("call_456"))
        .with("type", Json::string("function"))
        .with(
            "function",
            Json::object()
                .with("name", Json::string("calculator"))
                .with("arguments", Json::string("{\"expression\": \"2+2\"}")),
        );

    let call = ToolCall::from_openai_format(&openai_format).unwrap();
    assert_eq!(call.id, "call_456");
    assert_eq!(call.name, "calculator");
    assert_eq!(call.arguments.get_str("expression"), Some("2+2"));
}

#[test]
fn test_tool_output_success() {
    let output = ToolOutput::success(
        "call_789".to_string(),
        "test".to_string(),
        Json::string("result"),
    );
    assert!(!output.is_error);
    assert!(!output.is_final);
    assert_eq!(output.tool_call_id, "call_789");
}

#[test]
fn test_tool_output_error() {
    let output = ToolOutput::error(
        "call_999".to_string(),
        "test".to_string(),
        "Something went wrong".to_string(),
    );
    assert!(output.is_error);
    assert_eq!(output.tool_name, "test");
}

#[test]
fn test_tool_execution_timing() {
    let call = ToolCall::new("call_123".to_string(), "test".to_string(), Json::Null);
    let execution = ToolExecution::start(call);
    let output = execution.complete(Json::string("result"), false);
    assert!(output.duration_ms.is_some());
}

#[test]
fn tool_call_needs_all_its_parts() {
    let whole = "{\"id\":\"c\",\"function\":{\"name\":\"n\",\"arguments\":\"[1]\"}}";
    assert!(ToolCall::from_openai_format(&Json::parse(whole).unwrap()).is_some());
    for broken in [
        "{\"function\":{\"name\":\"n\",\"arguments\":\"[1]\"}}",
        "{\"id\":7,\"function\":{\"name\":\"n\",\"arguments\":\"[1]\"}}",
        "{\"id\":\"c\"}",
        "{\"id\":\"c\",\"function\":{\"arguments\":\"[1]\"}}",
        "{\"id\":\"c\",\"function\":{\"name\":\"n\"}}",
        "{\"id\":\"c\",\"function\":{\"name\":\"n\",\"arguments\":[1]}}",
        "{\"id\":\"c\",\"function\":{\"name\":\"n\",\"arguments\":\"[1\"}}",
    ] {
        assert!(ToolCall::from_openai_format(&Json::parse(broken).unwrap()).is_none(), "{}", broken);
    }
}

#[test]
fn tool_call_has_its_wire_form() {
    let call = ToolCall::new(
        "call_1".to_string(),
        "search".to_string(),
        Json::object().with("q", Json::string("rust")),
    );
    assert_eq!(call.describe(), "search({\"q\":\"rust\"})");
    let wire = call.to_openai_format();
    assert_eq!(
        wire.to_text(),
        "{\"function\":{\"arguments\":\"{\\\"q\\\":\\\"rust\\\"}\",\"name\":\"search\"},\"id\":\"call_1\",\"type\":\"function\"}"
    );
    let back = ToolCall::from_openai_format(&wire).unwrap();
    assert_eq!(back.id, "call_1");
    assert_eq!(back.name, "search");
    assert_eq!(back.arguments.to_text(), "{\"q\":\"rust\"}");
    let copy = call.clone();
    assert_eq!(copy.describe(), call.describe());
}

#[test]
fn tool_output_is_written_as_a_tool_message() {
    let text = ToolOutput::success("c1".to_string(), "t".to_string(), Json::string("plain"));
    assert_eq!(text.as_string(), "plain");
    assert_eq!(
        text.to_openai_message().to_text(),
        "{\"content\":\"plain\",\"role\":\"tool\",\"tool_call_id\":\"c1\"}"
    );
    let object = ToolOutput::success("c2".to_string(), "t".to_string(), Json::object().with("n", Json::from_u64(3)));
    assert_eq!(object.as_string(), "{\"n\":3}");
    let failed = ToolOutput::error("c3".to_string(), "t".to_string(), "boom".to_string());
    assert_eq!(failed.as_string(), "{\"error\":{\"message\":\"boom\"}}");
    assert_eq!(failed.duration_ms, None);
    let timed = failed.with_duration(Duration::from_millis(1500)).as_final();
    assert_eq!(timed.duration_ms, Some(1500));
    assert!(timed.is_final);
    assert!(timed.is_error);
    let whole = ToolOutput::success("c".to_string(), "t".to_string(), Json::Null).with_duration(Duration::from_secs(2));
    assert_eq!(whole.duration_ms, Some(2000));
}

#[test]
fn execution_ends_with_an_error_too() {
    let call = ToolCall::new("call_9".to_string(), "slow".to_string(), Json::Null);
    let execution = ToolExecution::start(call);
    assert_eq!(execution.tool_call.name, "slow");
    let output = execution.complete_with_error("timed out".to_string());
    assert!(output.is_error);
    assert!(!output.is_final);
    assert_eq!(output.tool_call_id, "call_9");
    assert_eq!(output.tool_name, "slow");
    assert_eq!(output.as_string(), "{\"error\":{\"message\":\"timed out\"}}");
    assert!(output.duration_ms.is_some());
}
