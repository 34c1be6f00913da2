use tiny_agent_rs::error::AgentError;
use tiny_agent_rs::json::Json;
use tiny_agent_rs::openai_client::{
    build_chat_url, conclude, ChatCompletionRequest, ClientDecision, Delay, OpenAIClient,
    RetryState, DEFAULT_BASE_URL,
};

fn unknown(decision: ClientDecision) -> String {
    match decision {
        ClientDecision::Done(Err(AgentError::Unknown(m))) => m,
        other => panic!("unexpected {:?}", other),
    }
}

#[test]
fn chat_url_is_appended_once() {
    assert_eq!(build_chat_url("https://openrouter.ai/api/v1"), "https://openrouter.ai/api/v1/chat/completions");
    assert_eq!(build_chat_url("https://openrouter.ai/api/v1/"), "https://openrouter.ai/api/v1/chat/completions");
    assert_eq!(build_chat_url("https://x.test/v1///"), "https://x.test/v1/chat/completions");
    assert_eq!(build_chat_url("https://x.test/v1/chat/completions"), "https://x.test/v1/chat/completions");
    assert_eq!(build_chat_url("https://x.test/v1/chat/completions/"), "https://x.test/v1/chat/completions");
    assert_eq!(build_chat_url(""), "/chat/completions");
}

#[test]
fn client_points_to_its_endpoint() {
    let mut client = OpenAIClient::new("test-key".to_string());
    assert_eq!(client.base_url(), DEFAULT_BASE_URL);
    assert_eq!(client.base_url(), "https://openrouter.ai/api/v1");
    assert_eq!(client.chat_url(), "https://openrouter.ai/api/v1/chat/completions");
    assert_eq!(client.authorization(), "Bearer test-key");
    client.set_base_url("http://localhost:8080/");
    assert_eq!(client.api_key(), "test-key");
    assert_eq!(client.chat_url(), "http://localhost:8080/chat/completions");
    let copy = client.clone();
    assert_eq!(copy.base_url(), "http://localhost:8080/");
}

#[test]
fn request_body_holds_what_is_set() {
    let messages = vec![Json::parse("{\"role\":\"user\",\"content\":\"hi\"}").unwrap()];
    let bare = ChatCompletionRequest::new("m", messages).into_value();
    assert_eq!(bare.to_text(), "{\"messages\":[{\"content\":\"hi\",\"role\":\"user\"}],\"model\":\"m\"}");
    let full = ChatCompletionRequest::new("m", Vec::new())
        .with_tools(vec![Json::object().with("type", Json::string("function"))])
        .with_tool_choice(Json::string("auto"))
        .with_max_tokens(Some(1000))
        .with_response_format(Json::object().with("type", Json::string("json_object")))
        .into_value();
    assert_eq!(
        full.to_text(),
        "{\"max_tokens\":1000,\"messages\":[],\"model\":\"m\",\"response_format\":{\"type\":\"json_object\"},\"tool_choice\":\"auto\",\"tools\":[{\"type\":\"function\"}]}"
    );
    let no_tools = ChatCompletionRequest::new("m", Vec::new())
        .with_tools(Vec::new())
        .with_max_tokens(None)
        .into_value();
    assert_eq!(no_tools.to_text(), "{\"messages\":[],\"model\":\"m\"}");
}

#[test]
fn rate_limit_is_retried_then_succeeds() {
    let mut state = RetryState::new();
    let first = state.on_response(429, "429 Too Many Requests", Some("2"), "slow down");
    assert!(matches!(first, ClientDecision::Retry(Delay::Seconds(2))));
    assert_eq!(state.attempt(), 1);
    let second = state.on_response(429, "429 Too Many Requests", Some("2"), "slow down");
    assert!(matches!(second, ClientDecision::Retry(Delay::Seconds(2))));
    assert_eq!(state.attempt(), 2);
    let third = state.on_response(200, "200 OK", None, "{\"choices\":[]}");
    match third {
        ClientDecision::Done(Ok(body)) => assert_eq!(body.to_text(), "{\"choices\":[]}"),
        other => panic!("unexpected {:?}", other),
    }
    assert_eq!(state.attempt(), 2);
}

#[test]
fn rate_limit_gives_up_at_the_third_request() {
    let mut state = RetryState::new();
    assert!(matches!(state.on_response(429, "429", Some("5"), ""), ClientDecision::Retry(Delay::Seconds(5))));
    assert!(matches!(state.on_response(429, "429", Some("6"), ""), ClientDecision::Retry(Delay::Seconds(6))));
    let last = state.on_response(429, "429", Some("7"), "");
    assert!(matches!(last, ClientDecision::Done(Err(AgentError::RateLimit { retry_after: 7 }))));
}

#[test]
fn rate_limit_without_header_backs_off() {
    let mut state = RetryState::new();
    assert_eq!(state.backoff(), 250);
    assert!(matches!(state.on_response(429, "429", None, ""), ClientDecision::Retry(Delay::Millis(250))));
    assert_eq!(state.backoff(), 500);
    assert!(matches!(state.on_response(429, "429", Some("soon"), ""), ClientDecision::Retry(Delay::Millis(500))));
    let last = state.on_response(429, "429", Some("-1"), "");
    assert!(matches!(last, ClientDecision::Done(Err(AgentError::RateLimit { retry_after: 1 }))));
    let mut zero = RetryState::new();
    zero.on_response(429, "429", Some("0"), "");
    zero.on_response(429, "429", Some("0"), "");
    assert!(matches!(
        zero.on_response(429, "429", Some("0"), ""),
        ClientDecision::Done(Err(AgentError::RateLimit { retry_after: 1 }))
    ));
}

#[test]
fn server_errors_are_retried_three_times() {
    let mut state = RetryState::new();
    assert!(matches!(state.on_response(500, "500", Some("9"), "x"), ClientDecision::Retry(Delay::Millis(250))));
    assert!(matches!(state.on_response(503, "503", None, "x"), ClientDecision::Retry(Delay::Millis(500))));
    assert!(matches!(state.on_response(599, "599", None, "x"), ClientDecision::Retry(Delay::Millis(1000))));
    assert_eq!(state.attempt(), 3);
    assert_eq!(state.backoff(), 2000);
    let last = state.on_response(500, "500 Internal Server Error", None, "{\"error\":{\"message\":\"down\"}}");
    assert_eq!(unknown(last), "HTTP 500 Internal Server Error error: down");
    assert!(matches!(
        state.on_response(429, "429", Some("3"), ""),
        ClientDecision::Done(Err(AgentError::RateLimit { retry_after: 3 }))
    ));
}

#[test]
fn other_statuses_fail_at_once() {
    let mut state = RetryState::new();
    let with_message = state.on_response(404, "404 Not Found", None, "{\"error\":{\"message\":\"no such model\"}}");
    assert_eq!(unknown(with_message), "HTTP 404 Not Found error: no such model");
    let raw = state.on_response(400, "400 Bad Request", None, "{\"error\":\"plain\"}");
    assert_eq!(unknown(raw), "HTTP 400 Bad Request error: {\"error\":\"plain\"}");
    let not_json = state.on_response(401, "401 Unauthorized", None, "<html>");
    assert_eq!(unknown(not_json), "HTTP 401 Unauthorized error: <html>");
    let redirect = state.on_response(302, "302 Found", None, "{}");
    assert_eq!(unknown(redirect), "HTTP 302 Found error: {}");
    assert_eq!(state.attempt(), 0);
}

#[test]
fn success_may_still_hold_an_error() {
    let mut state = RetryState::new();
    let embedded = state.on_response(200, "200 OK", None, "{\"error\":{\"message\":\"quota\"}}");
    assert_eq!(unknown(embedded), "API error: quota");
    let shapeless = state.on_response(200, "200 OK", None, "{\"error\":{\"code\":7}}");
    assert_eq!(unknown(shapeless), "API error: {\"code\":7}");
    let broken = state.on_response(201, "201 Created", None, "not json");
    assert!(unknown(broken).starts_with("Failed to parse JSON: "));
}

#[test]
fn conclude_takes_the_parsed_body() {
    let ok = conclude(200, "200 OK", "ignored", Ok(Json::object().with("id", Json::string("x"))));
    assert_eq!(ok.unwrap().to_text(), "{\"id\":\"x\"}");
    let unparsed = conclude(200, "200 OK", "raw", Err("line 1".to_string()));
    assert!(matches!(unparsed, Err(AgentError::Unknown(m)) if m == "Failed to parse JSON: line 1"));
    let failed = conclude(418, "418 I'm a teapot", "raw", Err("line 1".to_string()));
    assert!(matches!(failed, Err(AgentError::Unknown(m)) if m == "HTTP 418 I'm a teapot error: raw"));
}

#[test]
fn delays_have_whole_seconds() {
    assert_eq!(Delay::Millis(250).whole_seconds(), 0);
    assert_eq!(Delay::Millis(2000).whole_seconds(), 2);
    assert_eq!(Delay::Seconds(9).whole_seconds(), 9);
}
