use std::any::TypeId;
use std::time::Duration;
use tiny_agent_rs::agent::Agent;
use tiny_agent_rs::calculator::CalculatorTool;
use tiny_agent_rs::error::AgentError;
use tiny_agent_rs::execution::{
    completion_timed_out, extract_arguments_str, extract_function_info, extract_tool_call_id,
    parse_function_arguments, read_call, token_usage_of, CallEnvelope, Phase, RunAction, StepsRun,
};
use tiny_agent_rs::json::Json;
use tiny_agent_rs::memory::DEFAULT_SYSTEM_PROMPT;
use tiny_agent_rs::result::TokenUsage;
use tiny_agent_rs::schema::SchemaHandle;
use tiny_agent_rs::steps::AgentStep;
use tiny_agent_rs::tools::FunctionFactory;

fn agent() -> Agent {
    let mut factory = FunctionFactory::new();
    factory.register_tool(CalculatorTool::new().descriptor());
    Agent::new("key".to_string(), factory)
}

fn plan_schema() -> SchemaHandle {
    SchemaHandle::new(
        "Plan",
        "demo::Plan",
        TypeId::of::<u8>(),
        Json::parse("{\"type\":\"object\",\"properties\":{\"title\":{\"type\":\"string\"}},\"required\":[\"title\"]}").unwrap(),
    )
}

fn call(id: &str, name: &str, arguments: &str) -> String {
    let function = Json::object().with("name", Json::string(name)).with("arguments", Json::string(arguments));
    Json::object()
        .with("id", Json::string(id))
        .with("type", Json::string("function"))
        .with("function", function)
        .to_text()
}

fn turn(calls: &[String]) -> Json {
    Json::parse(&format!(
        "{{\"choices\":[{{\"message\":{{\"role\":\"assistant\",\"content\":null,\"tool_calls\":[{}]}}}}]}}",
        calls.join(",")
    ))
    .unwrap()
}

fn text_turn(content: &str) -> Json {
    let message = Json::object().with("role", Json::string("assistant")).with("content", Json::string(content));
    Json::object().with("choices", Json::array(vec![Json::object().with("message", message)]))
}

fn observations(run: &StepsRun) -> Vec<(String, String, bool)> {
    run.memory()
        .steps()
        .iter()
        .filter_map(|s| match s {
            AgentStep::Observation { tool_call_id, result, is_error } => {
                Some((tool_call_id.clone(), result.clone(), *is_error))
            }
            _ => None,
        })
        .collect()
}

fn call_fault(message: &str) -> String {
    AgentError::InvalidFunctionCall(message.to_string()).to_error_payload().to_text()
}

const ELAPSED: Duration = Duration::from_secs(1);

#[test]
fn run_starts_with_a_request() {
    let (run, action) = agent().start_steps("What is 2+2?");
    assert_eq!(run.iteration(), 1);
    assert!(run.awaits_completion());
    assert!(!run.negotiation().has_final_answer);
    assert_eq!(run.memory().step_count(), 1);
    let body = match action {
        RunAction::Request(body) => body,
        other => panic!("unexpected {:?}", other),
    };
    assert_eq!(body.get_str("model"), Some("openai/gpt-4.1-mini"));
    assert_eq!(body.get("max_tokens").unwrap().as_u64(), Some(1000));
    assert_eq!(body.get_str("tool_choice"), Some("auto"));
    assert!(body.get("response_format").is_none());
    let messages = body.get("messages").unwrap().as_array().unwrap();
    assert_eq!(messages.len(), 2);
    assert_eq!(messages[0].get_str("role"), Some("system"));
    assert_eq!(messages[0].get_str("content"), Some(DEFAULT_SYSTEM_PROMPT));
    assert_eq!(messages[1].to_text(), "{\"content\":\"What is 2+2?\",\"role\":\"user\"}");
    let tools = body.get("tools").unwrap().as_array().unwrap();
    assert_eq!(tools.len(), 2);
    let names: Vec<&str> = tools.iter().map(|t| t.get("function").unwrap().get_str("name").unwrap()).collect();
    assert_eq!(names, vec!["calculator", "final_answer"]);
}

#[test]
fn request_with_schema_offers_structured_response() {
    let agent = agent().with_completion_schema(plan_schema()).with_model("m").with_max_tokens(None);
    let (run, action) = agent.start_steps("Plan it");
    let body = match action {
        RunAction::Request(body) => body,
        other => panic!("unexpected {:?}", other),
    };
    assert_eq!(body.get_str("model"), Some("m"));
    assert!(body.get("max_tokens").is_none());
    let tools = body.get("tools").unwrap().as_array().unwrap();
    let names: Vec<&str> = tools.iter().map(|t| t.get("function").unwrap().get_str("name").unwrap()).collect();
    assert_eq!(names, vec!["calculator", "structured_response"]);
    let messages = body.get("messages").unwrap().as_array().unwrap();
    let system = messages[0].get_str("content").unwrap();
    assert!(system.starts_with(DEFAULT_SYSTEM_PROMPT));
    assert!(system.ends_with("conforms to the `Plan` schema. This is the ONLY way to complete the task."));
    assert_eq!(run.memory().system_prompt().map(|s| s.as_str()), Some(DEFAULT_SYSTEM_PROMPT));
}

#[test]
fn tool_call_then_final_answer() {
    let agent = agent();
    let (mut run, _) = agent.start_steps("What is 15 multiplied by 7?");
    let response = Json::parse(&format!(
        "{{\"choices\":[{{\"message\":{{\"tool_calls\":[{}]}}}}],\"usage\":{{\"prompt_tokens\":10,\"completion_tokens\":5,\"total_tokens\":15}}}}",
        call("call_1", "calculator", "{\"operation\":\"multiply\",\"a\":15,\"b\":7}")
    ))
    .unwrap();
    let action = agent.steps_on_completion(&mut run, &response, ELAPSED);
    match action {
        RunAction::Execute { tool_name, arguments } => {
            assert_eq!(tool_name, "calculator");
            assert_eq!(arguments.to_text(), "{\"a\":15,\"b\":7,\"operation\":\"multiply\"}");
        }
        other => panic!("unexpected {:?}", other),
    }
    assert!(run.awaits_tool());
    assert!(matches!(run.phase(), Phase::AwaitingTool { tool_call_id } if tool_call_id == "call_1"));
    assert_eq!(run.iteration(), 1);

    let action = agent.steps_on_tool_result(&mut run, Ok(Json::object().with("result", Json::from_u64(105))), ELAPSED);
    assert!(matches!(action, RunAction::Request(_)));
    assert_eq!(run.iteration(), 2);
    let steps = run.memory().steps();
    assert_eq!(steps.len(), 3);
    assert!(matches!(&steps[1], AgentStep::Action { tool_name, tool_call_id, .. }
        if tool_name == "calculator" && tool_call_id == "call_1"));
    assert!(matches!(&steps[2], AgentStep::Observation { tool_call_id, result, is_error: false }
        if tool_call_id == "call_1" && result == "{\"result\":105}"));

    let last = turn(&[call("call_2", "final_answer", "{\"answer\":\"105\"}")]);
    match agent.steps_on_completion(&mut run, &last, Duration::from_secs(9)) {
        RunAction::Finish(result) => {
            assert_eq!(result.output, "105");
            assert_eq!(result.iterations, 2);
            assert_eq!(result.duration, Duration::from_secs(9));
            assert_eq!(result.tokens, None);
            assert_eq!(result.steps.len(), 3);
            assert_eq!(result.action_count(), 1);
            assert_eq!(result.observation_count(), 1);
        }
        other => panic!("unexpected {:?}", other),
    }
    assert!(matches!(run.phase(), Phase::Over));
    assert!(run.negotiation().has_final_answer);
}

#[test]
fn budget_of_one_allows_one_request() {
    let agent = agent().with_max_iterations(1);
    let (mut run, first) = agent.start_steps("loop");
    assert!(matches!(first, RunAction::Request(_)));
    let response = turn(&[call("c", "calculator", "{\"operation\":\"add\",\"a\":1,\"b\":1}")]);
    assert!(matches!(agent.steps_on_completion(&mut run, &response, ELAPSED), RunAction::Execute { .. }));
    let action = agent.steps_on_tool_result(&mut run, Ok(Json::from_u64(2)), ELAPSED);
    assert!(matches!(action, RunAction::Fail(AgentError::MaxIterations(1))));
    assert_eq!(run.iteration(), 1);
    assert!(matches!(run.phase(), Phase::Over));
}

#[test]
fn budget_of_zero_allows_no_request() {
    let agent = agent().with_max_iterations(0);
    let (run, action) = agent.start_steps("nothing");
    assert!(matches!(action, RunAction::Fail(AgentError::MaxIterations(0))));
    assert_eq!(run.iteration(), 0);
}

#[test]
fn budget_is_used_up_by_plain_text() {
    let agent = agent().with_max_iterations(3);
    let (mut run, _) = agent.start_steps("talk");
    assert!(matches!(agent.steps_on_completion(&mut run, &text_turn("hello"), ELAPSED), RunAction::Request(_)));
    assert!(matches!(agent.steps_on_completion(&mut run, &text_turn("  "), ELAPSED), RunAction::Request(_)));
    let last = agent.steps_on_completion(&mut run, &text_turn("again"), ELAPSED);
    assert!(matches!(last, RunAction::Fail(AgentError::MaxIterations(3))));
    assert_eq!(
        observations(&run),
        vec![
            (
                "final_answer".to_string(),
                "Assistant must call the `final_answer` tool to conclude the task. Received plain response: hello".to_string(),
                true
            ),
            (
                "final_answer".to_string(),
                "Assistant must call the `final_answer` tool to conclude the task, but returned no content.".to_string(),
                true
            ),
            (
                "final_answer".to_string(),
                "Assistant must call the `final_answer` tool to conclude the task. Received plain response: again".to_string(),
                true
            ),
        ]
    );
}

#[test]
fn unparsed_arguments_leave_one_error_observation() {
    let agent = agent();
    let (mut run, _) = agent.start_steps("go");
    let response = turn(&[
        call("bad", "calculator", "{not json"),
        call("good", "calculator", "{\"operation\":\"add\",\"a\":1,\"b\":2}"),
    ]);
    let action = agent.steps_on_completion(&mut run, &response, ELAPSED);
    assert!(matches!(action, RunAction::Execute { .. }));
    let seen = observations(&run);
    assert_eq!(seen.len(), 1);
    assert_eq!(seen[0].0, "bad");
    assert!(seen[0].2);
    let payload = Json::parse(&seen[0].1).unwrap();
    let error = payload.get("error").unwrap();
    assert_eq!(error.get_str("code"), Some("INVALID_FUNCTION_CALL"));
    assert!(error
        .get_str("message")
        .unwrap()
        .starts_with("Invalid function call: Failed to parse arguments for tool 'calculator': "));
    assert_eq!(run.memory().step_count(), 3);
    assert!(matches!(run.phase(), Phase::AwaitingTool { tool_call_id } if tool_call_id == "good"));
}

#[test]
fn final_answer_beside_other_calls_is_turned_down() {
    let orders = [
        vec![call("a", "final_answer", "{\"answer\":\"x\"}"), call("b", "calculator", "{}")],
        vec![call("b", "calculator", "{}"), call("a", "final_answer", "{\"answer\":\"x\"}")],
        vec![
            call("b", "calculator", "{}"),
            call("a", "final_answer", "{\"answer\":\"x\"}"),
            call("c", "calculator", "{}"),
        ],
        vec![call("a", "final_answer", "{\"answer\":\"x\"}"), call("a2", "final_answer", "{\"answer\":\"y\"}")],
    ];
    for calls in orders {
        let agent = agent();
        let (mut run, _) = agent.start_steps("go");
        let action = agent.steps_on_completion(&mut run, &turn(&calls), ELAPSED);
        assert!(matches!(action, RunAction::Request(_)));
        assert_eq!(run.iteration(), 2);
        assert!(!run.negotiation().has_final_answer);
        assert_eq!(run.memory().step_count(), 2);
        assert_eq!(
            observations(&run),
            vec![(
                "final_answer".to_string(),
                call_fault("`final_answer` must be the only tool call in a single turn"),
                true
            )]
        );
    }
}

#[test]
fn malformed_calls_are_recorded_and_passed_over() {
    let agent = agent();
    let (mut run, _) = agent.start_steps("go");
    let response = Json::parse(
        "{\"choices\":[{\"message\":{\"tool_calls\":[{\"id\":\"a\"},{\"function\":{\"arguments\":\"{}\"}},{\"id\":\"c\",\"function\":{\"name\":\"\"}},{\"id\":\"d\",\"function\":{\"name\":\"search\",\"arguments\":\"{}\"}},{\"id\":\"e\",\"function\":{\"name\":\"structured_response\",\"arguments\":\"{}\"}}]}}]}",
    )
    .unwrap();
    let action = agent.steps_on_completion(&mut run, &response, ELAPSED);
    assert!(matches!(action, RunAction::Request(_)));
    assert_eq!(
        observations(&run),
        vec![
            ("a".to_string(), "Tool call missing function".to_string(), true),
            ("".to_string(), "Tool call missing function name".to_string(), true),
            ("c".to_string(), "Tool call missing function name".to_string(), true),
            (
                "d".to_string(),
                AgentError::ToolNotFound("search".to_string()).to_error_payload().to_text(),
                true
            ),
            ("e".to_string(), call_fault("No completion schema is active for structured response"), true),
        ]
    );
    assert_eq!(run.memory().count_actions(), 1);
}

#[test]
fn failed_tool_is_recorded_with_its_payload() {
    let agent = agent();
    let (mut run, _) = agent.start_steps("go");
    let response = turn(&[call("c", "calculator", "{\"operation\":\"divide\",\"a\":5,\"b\":0}")]);
    assert!(matches!(agent.steps_on_completion(&mut run, &response, ELAPSED), RunAction::Execute { .. }));
    let failure = AgentError::ToolExecution("Division by zero is not allowed".to_string());
    let expected = failure.to_error_payload().to_text();
    let action = agent.steps_on_tool_result(&mut run, Err(failure), ELAPSED);
    assert!(matches!(action, RunAction::Request(_)));
    assert_eq!(observations(&run), vec![("c".to_string(), expected, true)]);
}

#[test]
fn schema_run_ends_with_structured_response_only() {
    let agent = agent().with_completion_schema(plan_schema());
    let (mut run, _) = agent.start_steps("Plan it");
    let first = turn(&[call("a", "final_answer", "{\"answer\":\"Here is the plan.\"}")]);
    assert!(matches!(agent.steps_on_completion(&mut run, &first, ELAPSED), RunAction::Request(_)));
    assert!(run.negotiation().has_final_answer);

    let talk = agent.steps_on_completion(&mut run, &text_turn("see above"), ELAPSED);
    assert!(matches!(talk, RunAction::Request(_)));
    assert_eq!(
        observations(&run).last().unwrap(),
        &(
            "structured_response".to_string(),
            "Assistant must call the `structured_response` tool with the structured schema payload instead of responding directly: see above".to_string(),
            true
        )
    );

    let again = turn(&[call("b", "final_answer", "{\"answer\":\"Again.\"}")]);
    assert!(matches!(agent.steps_on_completion(&mut run, &again, ELAPSED), RunAction::Request(_)));
    assert_eq!(
        observations(&run).last().unwrap(),
        &("b".to_string(), call_fault("`final_answer` was already provided for this run"), true)
    );

    let wrong = turn(&[call("c", "structured_response", "{\"structured\":{\"title\":1}}")]);
    assert!(matches!(agent.steps_on_completion(&mut run, &wrong, ELAPSED), RunAction::Request(_)));

    let right = turn(&[
        call("d", "structured_response", "{\"structured\":{\"title\":\"Trip\"}}"),
        call("e", "calculator", "{}"),
    ]);
    match agent.steps_on_completion(&mut run, &right, ELAPSED) {
        RunAction::Finish(result) => {
            assert_eq!(result.output, "Here is the plan.");
            assert_eq!(result.structured.unwrap().to_text(), "{\"title\":\"Trip\"}");
            assert_eq!(result.schema.unwrap().schema_name(), "Plan");
            assert_eq!(result.iterations, 5);
            assert_eq!(result.steps.len(), run.memory().step_count());
        }
        other => panic!("unexpected {:?}", other),
    }
}

#[test]
fn broken_responses_fail_the_run() {
    for (text, message) in [
        ("{}", "Missing 'choices' array in completion response"),
        ("{\"choices\":{}}", "Missing 'choices' array in completion response"),
        ("{\"choices\":[]}", "Completion response contained no choices"),
        ("{\"choices\":[{\"index\":0}]}", "Completion response missing assistant message"),
    ] {
        let agent = agent();
        let (mut run, _) = agent.start_steps("go");
        match agent.steps_on_completion(&mut run, &Json::parse(text).unwrap(), ELAPSED) {
            RunAction::Fail(AgentError::Unknown(m)) => assert_eq!(m, message),
            other => panic!("unexpected {:?}", other),
        }
        assert!(matches!(run.phase(), Phase::Over));
        assert_eq!(run.memory().step_count(), 1);
    }
}

#[test]
fn tool_calls_that_are_no_list_are_passed_over() {
    let agent = agent();
    let (mut run, _) = agent.start_steps("go");
    let response = Json::parse("{\"choices\":[{\"message\":{\"content\":\"x\",\"tool_calls\":null}}]}").unwrap();
    assert!(matches!(agent.steps_on_completion(&mut run, &response, ELAPSED), RunAction::Request(_)));
    assert_eq!(run.memory().step_count(), 1);
    assert_eq!(run.iteration(), 2);
}

#[test]
fn token_usage_needs_all_three_counts() {
    let full = Json::parse("{\"usage\":{\"prompt_tokens\":7,\"completion_tokens\":8,\"total_tokens\":4294967297}}").unwrap();
    assert_eq!(
        token_usage_of(&full),
        Some(TokenUsage { prompt_tokens: 7, completion_tokens: 8, total_tokens: 1 })
    );
    let partial = Json::parse("{\"usage\":{\"prompt_tokens\":7,\"completion_tokens\":8}}").unwrap();
    assert_eq!(token_usage_of(&partial), None);
    let negative = Json::parse("{\"usage\":{\"prompt_tokens\":-7,\"completion_tokens\":8,\"total_tokens\":1}}").unwrap();
    assert_eq!(token_usage_of(&negative), None);
    assert_eq!(token_usage_of(&Json::object()), None);
}

#[test]
fn usage_of_the_turn_goes_into_the_record() {
    let agent = agent();
    let (mut run, _) = agent.start_steps("go");
    let response = Json::parse(&format!(
        "{{\"choices\":[{{\"message\":{{\"tool_calls\":[{}]}}}}],\"usage\":{{\"prompt_tokens\":10,\"completion_tokens\":5,\"total_tokens\":15}}}}",
        call("a", "final_answer", "{\"answer\":\"done\"}")
    ))
    .unwrap();
    match agent.steps_on_completion(&mut run, &response, ELAPSED) {
        RunAction::Finish(result) => assert_eq!(
            result.tokens,
            Some(TokenUsage { prompt_tokens: 10, completion_tokens: 5, total_tokens: 15 })
        ),
        other => panic!("unexpected {:?}", other),
    }
}

#[test]
fn call_envelopes_are_read() {
    let whole = Json::parse(&call("id1", "t", "{\"k\":1}")).unwrap();
    assert_eq!(extract_tool_call_id(&whole), "id1");
    let (function, name) = extract_function_info(&whole).unwrap();
    assert_eq!(name, Some("t"));
    assert_eq!(extract_arguments_str(function), "{\"k\":1}");
    assert!(matches!(read_call(&whole), CallEnvelope::Call { name, arguments }
        if name == "t" && arguments.to_text() == "{\"k\":1}"));
    let bare = Json::object();
    assert_eq!(extract_tool_call_id(&bare), "");
    assert!(extract_function_info(&bare).is_none());
    assert_eq!(extract_arguments_str(&bare), "");
    assert!(matches!(read_call(&bare), CallEnvelope::NoFunction));
    let nameless = Json::parse("{\"function\":{\"name\":7}}").unwrap();
    assert!(matches!(read_call(&nameless), CallEnvelope::NoName));
    let no_arguments = Json::parse("{\"function\":{\"name\":\"t\"}}").unwrap();
    assert!(matches!(read_call(&no_arguments), CallEnvelope::BadArguments { name, .. } if name == "t"));
}

#[test]
fn function_arguments_are_parsed_or_reported() {
    assert_eq!(parse_function_arguments("{\"a\":1}", "t").unwrap().to_text(), "{\"a\":1}");
    let reason = Json::parse("{oops").unwrap_err().to_string();
    match parse_function_arguments("{oops", "calc") {
        Err(AgentError::InvalidFunctionCall(m)) => {
            assert_eq!(m, format!("Failed to parse arguments for tool 'calc': {}", reason))
        }
        other => panic!("unexpected {:?}", other),
    }
}

#[test]
fn agent_is_configured_by_its_builders() {
    let agent = agent()
        .with_model("gpt")
        .with_base_url("http://localhost/")
        .with_max_iterations(4)
        .with_max_tokens(Some(64))
        .with_timeout(Duration::from_secs(5))
        .with_completion_schema(plan_schema());
    assert_eq!(agent.model(), "gpt");
    assert_eq!(agent.client().base_url(), "http://localhost/");
    assert_eq!(agent.client().api_key(), "key");
    assert_eq!(agent.max_iterations(), 4);
    assert_eq!(agent.max_tokens(), Some(64));
    assert_eq!(agent.timeout(), Duration::from_secs(5));
    assert_eq!(agent.completion_schema().unwrap().schema_name(), "Plan");
    assert!(agent.function_factory().has_function("calculator"));
    let cleared = agent.clear_completion_schema();
    assert!(cleared.completion_schema().is_none());
    let fresh = Agent::new("k".to_string(), FunctionFactory::new());
    assert_eq!(fresh.model(), "openai/gpt-4.1-mini");
    assert_eq!(fresh.max_iterations(), 10);
    assert_eq!(fresh.max_tokens(), Some(1000));
    assert_eq!(fresh.timeout(), Duration::from_secs(120));
    assert_eq!(fresh.client().base_url(), "https://openrouter.ai/api/v1");
    assert_eq!(fresh.offered_tools().len(), 1);
}

#[test]
fn timed_out_completion_has_its_error() {
    let error = completion_timed_out();
    assert!(matches!(&error, AgentError::Timeout(m) if m == "OpenAI API call timed out"));
    assert_eq!(error.to_string(), "Timeout error: OpenAI API call timed out");
    assert!(error.is_retryable());
}
