use std::any::TypeId;
use tiny_agent_rs::agent::Agent;
use tiny_agent_rs::calculator::CalculatorTool;
use tiny_agent_rs::error::AgentError;
use tiny_agent_rs::execution::{Phase, RunAction};
use tiny_agent_rs::json::Json;
use tiny_agent_rs::memory::DEFAULT_SYSTEM_PROMPT;
use tiny_agent_rs::messages_run::MessagesRun;
use tiny_agent_rs::schema::SchemaHandle;
use tiny_agent_rs::tools::FunctionFactory;

fn agent() -> Agent {
    let mut factory = FunctionFactory::new();
    factory.register_tool(CalculatorTool::new().descriptor());
    Agent::new("key".to_string(), factory)
}

fn plan_schema() -> SchemaHandle {
    SchemaHandle::new(
        "Plan",
        "demo::Plan",
        TypeId::of::<u8>(),
        Json::parse("{\"type\":\"object\",\"properties\":{\"title\":{\"type\":\"string\"}},\"required\":[\"title\"]}").unwrap(),
    )
}

fn call(id: &str, name: &str, arguments: &str) -> String {
    let function = Json::object().with("name", Json::string(name)).with("arguments", Json::string(arguments));
    Json::object()
        .with("id", Json::string(id))
        .with("type", Json::string("function"))
        .with("function", function)
        .to_text()
}

fn turn(calls: &[String]) -> Json {
    Json::parse(&format!(
        "{{\"choices\":[{{\"message\":{{\"role\":\"assistant\",\"tool_calls\":[{}]}}}}]}}",
        calls.join(",")
    ))
    .unwrap()
}

fn text_turn(content: &str) -> Json {
    let message = Json::object().with("role", Json::string("assistant")).with("content", Json::string(content));
    Json::object().with("choices", Json::array(vec![Json::object().with("message", message)]))
}

fn tool_messages(run: &MessagesRun) -> Vec<(String, String)> {
    run.messages()
        .iter()
        .filter(|m| m.get_str("role") == Some("tool"))
        .map(|m| {
            (m.get_str("tool_call_id").unwrap().to_string(), m.get_str("content").unwrap().to_string())
        })
        .collect()
}

fn call_fault(message: &str) -> String {
    AgentError::InvalidFunctionCall(message.to_string()).to_error_payload().to_text()
}

#[test]
fn run_on_a_prompt_opens_with_two_messages() {
    let (run, action) = agent().start_run("What is 2+2?");
    assert_eq!(run.iteration(), 1);
    assert!(run.awaits_completion());
    let texts: Vec<String> = run.messages().iter().map(|m| m.to_text()).collect();
    assert_eq!(
        texts,
        vec![
            Json::object()
                .with("role", Json::string("system"))
                .with("content", Json::string(DEFAULT_SYSTEM_PROMPT))
                .to_text(),
            "{\"content\":\"What is 2+2?\",\"role\":\"user\"}".to_string(),
        ]
    );
    let opening: Vec<String> = Agent::opening_messages("What is 2+2?").iter().map(|m| m.to_text()).collect();
    assert_eq!(opening, texts);
    match action {
        RunAction::Request(body) => {
            assert_eq!(body.get("messages").unwrap().as_array().unwrap().len(), 2);
            assert_eq!(body.get("tools").unwrap().as_array().unwrap().len(), 2);
        }
        other => panic!("unexpected {:?}", other),
    }
}

#[test]
fn tool_call_then_final_answer_in_messages() {
    let agent = agent();
    let (mut run, _) = agent.start_run("What is 15 multiplied by 7?");
    let response = turn(&[call("call_1", "calculator", "{\"operation\":\"multiply\",\"a\":15,\"b\":7}")]);
    let action = agent.messages_on_completion(&mut run, &response);
    assert!(matches!(&action, RunAction::Execute { tool_name, .. } if tool_name == "calculator"));
    assert!(run.awaits_tool());
    assert_eq!(run.messages().len(), 3);
    assert_eq!(run.messages()[2].get_str("role"), Some("assistant"));
    assert_eq!(run.messages()[2].get_str("content"), Some(""));
    assert_eq!(run.messages()[2].get("tool_calls").unwrap().as_array().unwrap().len(), 1);

    let action = agent.messages_on_tool_result(&mut run, Ok(Json::object().with("result", Json::from_u64(105))));
    assert!(matches!(action, RunAction::Request(_)));
    assert_eq!(tool_messages(&run), vec![("call_1".to_string(), "{\"result\":105}".to_string())]);
    assert_eq!(run.iteration(), 2);

    let last = turn(&[call("call_2", "final_answer", "{\"answer\":\" 105 \"}")]);
    let action = agent.messages_on_completion(&mut run, &last);
    assert!(matches!(action, RunAction::Answer(a) if a == "105"));
    assert!(matches!(run.phase(), Phase::Over));
    assert_eq!(run.messages().len(), 5);
    assert!(run.negotiation().has_final_answer);
}

#[test]
fn plain_text_is_answered_with_a_reminder() {
    let agent = agent().with_max_iterations(2);
    let (mut run, _) = agent.start_run("hi");
    assert!(matches!(agent.messages_on_completion(&mut run, &text_turn(" hello ")), RunAction::Request(_)));
    assert_eq!(
        run.messages()[2].to_text(),
        "{\"content\":\"Reminder: Do not respond directly. Call the `final_answer` tool with the final answer instead of: hello\",\"role\":\"system\"}"
    );
    let last = agent.messages_on_completion(&mut run, &text_turn(""));
    assert!(matches!(last, RunAction::Fail(AgentError::MaxIterations(2))));
    assert_eq!(
        run.messages()[3].get_str("content"),
        Some("Reminder: You must call the `final_answer` tool with the completed answer to finish.")
    );
}

#[test]
fn reminders_name_the_structured_tool_with_a_schema() {
    let agent = agent().with_completion_schema(plan_schema());
    let (mut run, _) = agent.start_run("hi");
    agent.messages_on_completion(&mut run, &text_turn("words"));
    assert_eq!(
        run.messages()[2].get_str("content"),
        Some("Reminder: Provide the structured schema by calling the `structured_response` tool instead of responding directly: words")
    );
    agent.messages_on_completion(&mut run, &text_turn(""));
    assert_eq!(
        run.messages()[3].get_str("content"),
        Some("Reminder: Call the `structured_response` tool with the structured schema payload to complete the task.")
    );
    let system = run.messages()[0].get_str("content").unwrap();
    assert_eq!(system.matches("Structured response requirement:").count(), 1);
}

#[test]
fn faulty_calls_get_tool_messages() {
    let agent = agent();
    let (mut run, _) = agent.start_run("go");
    let response = Json::parse(&format!(
        "{{\"choices\":[{{\"message\":{{\"content\":\"thinking\",\"tool_calls\":[{{\"id\":\"a\"}},{{\"id\":\"b\",\"function\":{{}}}},{},{},{},{}]}}}}]}}",
        call("c", "calculator", "{oops"),
        call("d", "structured_response", "{oops"),
        call("e", "search", "{}"),
        call("f", "structured_response", "{}"),
    ))
    .unwrap();
    let action = agent.messages_on_completion(&mut run, &response);
    assert!(matches!(action, RunAction::Request(_)));
    assert_eq!(run.messages()[2].get_str("content"), Some("thinking"));
    let reason = Json::parse("{oops").unwrap_err().to_string();
    assert_eq!(
        tool_messages(&run),
        vec![
            ("a".to_string(), call_fault("Tool call missing function")),
            ("b".to_string(), call_fault("Tool call missing function name")),
            (
                "c".to_string(),
                call_fault(&format!("Failed to parse arguments for tool 'calculator': {}", reason))
            ),
            ("d".to_string(), call_fault("No completion schema is active for structured response")),
            ("e".to_string(), AgentError::ToolNotFound("search".to_string()).to_error_payload().to_text()),
            ("f".to_string(), call_fault("No completion schema is active for structured response")),
        ]
    );
}

#[test]
fn final_answer_is_alone_or_turned_down_in_messages() {
    for calls in [
        vec![call("a", "final_answer", "{\"answer\":\"x\"}"), call("b", "calculator", "{}")],
        vec![call("b", "calculator", "{}"), call("a", "final_answer", "{\"answer\":\"x\"}")],
    ] {
        let agent = agent();
        let (mut run, _) = agent.start_run("go");
        let action = agent.messages_on_completion(&mut run, &turn(&calls));
        assert!(matches!(action, RunAction::Request(_)));
        assert!(!run.negotiation().has_final_answer);
        assert_eq!(run.messages().len(), 4);
        assert_eq!(
            tool_messages(&run),
            vec![(
                "final_answer".to_string(),
                call_fault("`final_answer` must be the only tool call in a single turn")
            )]
        );
    }
}

#[test]
fn schema_run_in_messages_needs_the_structured_response() {
    let agent = agent().with_completion_schema(plan_schema());
    let (mut run, _) = agent.start_run("Plan it");
    let first = turn(&[call("a", "final_answer", "{\"answer\":\"Planned.\"}")]);
    assert!(matches!(agent.messages_on_completion(&mut run, &first), RunAction::Request(_)));
    assert_eq!(
        tool_messages(&run),
        vec![("a".to_string(), "{\"status\":\"acknowledged\"}".to_string())]
    );
    let second = turn(&[call("b", "final_answer", "{\"answer\":\"Again.\"}")]);
    assert!(matches!(agent.messages_on_completion(&mut run, &second), RunAction::Request(_)));
    assert_eq!(
        tool_messages(&run).last().unwrap(),
        &("b".to_string(), call_fault("`final_answer` was already provided for this run"))
    );
    let wrong = turn(&[call("c", "structured_response", "{\"structured\":{}}")]);
    assert!(matches!(agent.messages_on_completion(&mut run, &wrong), RunAction::Request(_)));
    let code = Json::parse(&tool_messages(&run).last().unwrap().1).unwrap();
    assert_eq!(code.get("error").unwrap().get_str("code"), Some("VALIDATION_ERROR"));
    let right = turn(&[call("d", "structured_response", "{\"structured\":{\"title\":\"Trip\"}}")]);
    let action = agent.messages_on_completion(&mut run, &right);
    assert!(matches!(action, RunAction::Answer(a) if a == "Planned."));
    assert_eq!(
        tool_messages(&run).last().unwrap(),
        &("d".to_string(), "{\"status\":\"accepted\"}".to_string())
    );
}

#[test]
fn messages_run_fails_on_broken_responses_and_budget() {
    let agent = agent().with_max_iterations(0);
    let (run, action) = agent.start_messages(Vec::new());
    assert!(matches!(action, RunAction::Fail(AgentError::MaxIterations(0))));
    assert!(run.messages().is_empty());
    let agent = agent.with_max_iterations(1);
    let (mut run, _) = agent.start_messages(vec![Json::parse("{\"role\":\"user\",\"content\":\"x\"}").unwrap()]);
    match agent.messages_on_completion(&mut run, &Json::parse("{\"choices\":[]}").unwrap()) {
        RunAction::Fail(AgentError::Unknown(m)) => assert_eq!(m, "Completion response contained no choices"),
        other => panic!("unexpected {:?}", other),
    }
    let (mut run, _) = agent.start_messages(Vec::new());
    let failed = agent.messages_on_completion(&mut run, &turn(&[call("c", "calculator", "{}")]));
    assert!(matches!(failed, RunAction::Execute { .. }));
    let failure = AgentError::ToolExecution("Division by zero is not allowed".to_string());
    let expected = failure.to_error_payload().to_text();
    let action = agent.messages_on_tool_result(&mut run, Err(failure));
    assert!(matches!(action, RunAction::Fail(AgentError::MaxIterations(1))));
    assert_eq!(tool_messages(&run), vec![("c".to_string(), expected)]);
}
