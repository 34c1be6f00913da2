use std::time::Duration;
use tiny_agent_rs::error::AgentError;
use tiny_agent_rs::json::Json;
use tiny_agent_rs::result::{RunResult, TokenUsage};
use tiny_agent_rs::steps::AgentStep;

#[test]
fn test_run_result_creation() {
    let steps = vec![
        AgentStep::Task {
            content: "Test task".to_string(),
        },
        AgentStep::FinalAnswer {
            answer: "Test answer".to_string(),
            structured: None,
        },
    ];

    let result = RunResult::new(
        "Test answer".to_string(),
        None,
        None,
        steps,
        None,
        Duration::from_secs(1),
        1,
    );

    assert_eq!(result.output, "Test answer");
    assert_eq!(result.iterations, 1);
    assert!(result.is_success());
}

#[test]
fn test_action_count() {
    let steps = vec![
        AgentStep::Action {
            tool_name: "tool1".to_string(),
            tool_call_id: "1".to_string(),
            arguments: Json::object(),
        },
        AgentStep::Action {
            tool_name: "tool2".to_string(),
            tool_call_id: "2".to_string(),
            arguments: Json::object(),
        },
    ];

    let result = RunResult::new(
        "output".to_string(),
        None,
        None,
        steps,
        None,
        Duration::from_secs(1),
        1,
    );

    assert_eq!(result.action_count(), 2);
}

#[test]
fn test_replay_format() {
    let steps = vec![
        AgentStep::Task {
            content: "Test".to_string(),
        },
        AgentStep::FinalAnswer {
            answer: "Done".to_string(),
            structured: None,
        },
    ];

    let result = RunResult::new(
        "Done".to_string(),
        None,
        None,
        steps,
        Some(TokenUsage {
            prompt_tokens: 100,
            completion_tokens: 50,
            total_tokens: 150,
        }),
        Duration::from_secs(2),
        1,
    );

    let replay = result.replay();
    assert!(replay.contains("Duration"));
    assert!(replay.contains("Tokens"));
    assert!(replay.contains("Task"));
    assert!(replay.contains("Final Answer"));
}

#[test]
fn test_error_tracking() {
    let steps = vec![
        AgentStep::Observation {
            tool_call_id: "1".to_string(),
            result: "Error occurred".to_string(),
            is_error: true,
        },
        AgentStep::Observation {
            tool_call_id: "2".to_string(),
            result: "Success".to_string(),
            is_error: false,
        },
    ];

    let result = RunResult::new(
        "output".to_string(),
        None,
        None,
        steps,
        None,
        Duration::from_secs(1),
        1,
    );

    let errors = result.errors();
    assert_eq!(errors.len(), 1);
    assert_eq!(errors[0], "Error occurred");
}

fn sample() -> RunResult {
    RunResult::new(
        "Done".to_string(),
        Some(Json::object().with("title", Json::string("Sample"))),
        None,
        vec![
            AgentStep::Task { content: "Test".to_string() },
            AgentStep::Planning { plan: "look".to_string() },
            AgentStep::Action {
                tool_name: "search".to_string(),
                tool_call_id: "c1".to_string(),
                arguments: Json::object().with("q", Json::string("x")),
            },
            AgentStep::Observation {
                tool_call_id: "c1".to_string(),
                result: "found".to_string(),
                is_error: false,
            },
            AgentStep::Observation {
                tool_call_id: "c2".to_string(),
                result: "lost".to_string(),
                is_error: true,
            },
            AgentStep::FinalAnswer { answer: "Done".to_string(), structured: None },
        ],
        Some(TokenUsage { prompt_tokens: 100, completion_tokens: 50, total_tokens: 150 }),
        Duration::from_millis(2500),
        3,
    )
}

#[test]
fn replay_has_the_exact_text() {
    let expected = [
        "=== Agent Execution Trace ===",
        "Duration: 2.50s",
        "Iterations: 3",
        "Tokens: 100 prompt + 50 completion = 150 total",
        "",
        "--- Steps ---",
        "1. 🧭 Task: Test",
        "2. 🧩 Plan: look",
        "3. 🔧 Action: search({\"q\":\"x\"})",
        "4. 👁 Observation: found",
        "5. ❌ Error: lost",
        "6. ✅ Final Answer: Done",
        "",
        "--- Final Output ---",
        "Done",
        "",
        "--- Structured Output ---",
        "{\"title\":\"Sample\"}",
    ]
    .join("\n");
    assert_eq!(sample().replay(), expected);
}

#[test]
fn explain_has_the_exact_text() {
    let expected = [
        "=== Agent Execution Explanation ===",
        "Duration: 2.50s",
        "Iterations: 3",
        "Tokens: 100 prompt + 50 completion = 150 total",
        "",
        "--- Detailed Steps ---",
        "\n1. 🧭 Task: Test",
        "   Content: Test",
        "\n2. 🧩 Plan: look",
        "   Plan: look",
        "\n3. 🔧 Action: search({\"q\":\"x\"})",
        "   Tool: search",
        "   Call ID: c1",
        "   Arguments: {\"q\":\"x\"}",
        "\n4. 👁 Observation: found",
        "   Call ID: c1",
        "   Error: false",
        "   Result: found",
        "\n5. ❌ Error: lost",
        "   Call ID: c2",
        "   Error: true",
        "   Result: lost",
        "\n6. ✅ Final Answer: Done",
        "   Answer: Done",
        "",
        "--- Final Output ---",
        "Done",
        "",
        "--- Structured Output ---",
        "{\"title\":\"Sample\"}",
    ]
    .join("\n");
    assert_eq!(sample().explain(), expected);
}

#[test]
fn report_without_tokens_steps_or_payload() {
    let result = RunResult::new("out".to_string(), None, None, Vec::new(), None, Duration::from_secs(0), 0);
    assert_eq!(
        result.replay(),
        "=== Agent Execution Trace ===\nDuration: 0.00s\nIterations: 0\n\n--- Steps ---\n\n--- Final Output ---\nout"
    );
    assert_eq!(
        result.explain(),
        "=== Agent Execution Explanation ===\nDuration: 0.00s\nIterations: 0\n\n--- Detailed Steps ---\n\n--- Final Output ---\nout"
    );
    assert!(!result.is_success());
    assert!(!result.has_structured());
    assert!(result.structured().is_none());
    assert!(result.schema().is_none());
    assert!(result.errors().is_empty());
}

#[test]
fn counts_follow_the_steps() {
    let result = sample();
    assert_eq!(result.action_count(), 1);
    assert_eq!(result.observation_count(), 2);
    assert_eq!(result.errors(), vec!["lost"]);
    assert!(result.is_success());
    assert!(result.has_structured());
    assert_eq!(result.structured().unwrap().to_text(), "{\"title\":\"Sample\"}");
}

#[test]
fn structured_parts_need_payload_and_schema() {
    let bare = RunResult::new("o".to_string(), None, None, Vec::new(), None, Duration::from_secs(1), 1);
    match bare.structured_parts() {
        Err(AgentError::Validation(m)) => assert_eq!(m, "No structured response available on this run"),
        other => panic!("unexpected {:?}", other),
    }
    match sample().structured_parts() {
        Err(AgentError::Validation(m)) => {
            assert_eq!(m, "Missing completion schema metadata for structured response")
        }
        other => panic!("unexpected {:?}", other),
    }
}
