use async_openai::error::{ApiError, ApiErrorResponse, OpenAIError};
use tiny_agent_rs::error::AgentError;
use tiny_agent_rs::json::Json;

#[test]
fn test_error_handling() {
    // Test error creation and formatting
    let error = AgentError::ToolExecution("Test error".to_string());
    assert_eq!(error.error_code(), "TOOL_EXECUTION_ERROR");
    assert!(error.to_string().contains("Test error"));

    // Test error payload
    let payload = error.to_error_payload();
    assert_eq!(
        payload.get("error").unwrap().get_str("code"),
        Some("TOOL_EXECUTION_ERROR")
    );
    assert!(matches!(
        payload.get("error").unwrap().get("retryable"),
        Some(Json::Bool(false))
    ));
}

fn api_error() -> OpenAIError {
    OpenAIError::ApiError(ApiErrorResponse {
        status_code: reqwest::StatusCode::TOO_MANY_REQUESTS,
        api_error: serde_json::from_str::<ApiError>("{\"message\":\"slow down\"}").unwrap(),
    })
}

#[test]
fn every_error_has_its_code_message_and_flag() {
    let serde_error = Json::parse("{oops").unwrap_err();
    let serde_text = serde_error.to_string();
    let cases: Vec<(AgentError, &str, String, bool)> = vec![
        (AgentError::Config("c".to_string()), "CONFIG_ERROR", "Configuration error: c".to_string(), false),
        (
            AgentError::OpenAI(OpenAIError::InvalidArgument("bad".to_string())),
            "OPENAI_ERROR",
            "OpenAI API error: invalid args: bad".to_string(),
            false,
        ),
        (
            AgentError::OpenAI(api_error()),
            "OPENAI_ERROR",
            format!("OpenAI API error: {}", api_error()),
            true,
        ),
        (
            AgentError::Serialization(serde_error),
            "SERIALIZATION_ERROR",
            format!("Serialization error: {}", serde_text),
            false,
        ),
        (AgentError::Validation("v".to_string()), "VALIDATION_ERROR", "Validation error: v".to_string(), true),
        (
            AgentError::ToolExecution("t".to_string()),
            "TOOL_EXECUTION_ERROR",
            "Tool execution error: t".to_string(),
            false,
        ),
        (AgentError::ToolNotFound("n".to_string()), "TOOL_NOT_FOUND", "Tool not found: n".to_string(), false),
        (
            AgentError::InvalidFunctionCall("i".to_string()),
            "INVALID_FUNCTION_CALL",
            "Invalid function call: i".to_string(),
            false,
        ),
        (AgentError::Timeout("late".to_string()), "TIMEOUT_ERROR", "Timeout error: late".to_string(), true),
        (
            AgentError::MaxIterations(10),
            "MAX_ITERATIONS_EXCEEDED",
            "Maximum iterations exceeded: 10".to_string(),
            false,
        ),
        (
            AgentError::RateLimit { retry_after: 7 },
            "RATE_LIMIT_ERROR",
            "Rate limit exceeded: retry after 7s".to_string(),
            true,
        ),
        (AgentError::Unknown("u".to_string()), "UNKNOWN_ERROR", "Unknown error: u".to_string(), false),
    ];
    for (error, code, message, retryable) in cases {
        assert_eq!(error.error_code(), code);
        assert_eq!(error.to_string(), message);
        assert_eq!(error.is_retryable(), retryable, "{}", code);
        let payload = error.to_error_payload();
        let inner = payload.get("error").unwrap();
        assert_eq!(inner.get_str("code"), Some(code));
        assert_eq!(inner.get_str("message"), Some(message.as_str()));
        assert!(matches!(inner.get("retryable"), Some(Json::Bool(b)) if *b == retryable));
    }
}

#[test]
fn payload_has_the_exact_text() {
    assert_eq!(
        AgentError::ToolNotFound("search".to_string()).to_error_payload().to_text(),
        "{\"error\":{\"code\":\"TOOL_NOT_FOUND\",\"message\":\"Tool not found: search\",\"retryable\":false}}"
    );
    assert_eq!(
        AgentError::RateLimit { retry_after: 1 }.to_error_payload().to_text(),
        "{\"error\":{\"code\":\"RATE_LIMIT_ERROR\",\"message\":\"Rate limit exceeded: retry after 1s\",\"retryable\":true}}"
    );
}

#[test]
fn outside_errors_turn_into_agent_errors() {
    let from_json: AgentError = Json::parse("[1,").unwrap_err().into();
    assert!(matches!(from_json, AgentError::Serialization(_)));
    let from_client: AgentError = OpenAIError::InvalidArgument("x".to_string()).into();
    assert!(matches!(from_client, AgentError::OpenAI(_)));
}
