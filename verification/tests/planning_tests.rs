use tiny_agent_rs::planning::{
    generate_planning_prompt, generate_tool_planning_prompt, get_tool_names, is_planning_response,
    mentions_planning,
};
use tiny_agent_rs::calculator::CalculatorTool;
use tiny_agent_rs::tools::FunctionFactory;
use tiny_agent_rs::weather::WeatherTool;

#[test]
fn test_generate_planning_prompt() {
    let tools = vec!["search".to_string(), "calculator".to_string()];
    let prompt = generate_planning_prompt("Calculate 2+2", &tools, 1);

    assert!(prompt.contains("Calculate 2+2"));
    assert!(prompt.contains("search, calculator"));
    assert!(prompt.contains("Think step-by-step"));
}

#[test]
fn test_generate_planning_prompt_continuation() {
    let tools = vec!["search".to_string()];
    let prompt = generate_planning_prompt("Find info", &tools, 3);

    assert!(prompt.contains("Iteration 3"));
    assert!(prompt.contains("next step"));
}

#[test]
fn test_empty_tools() {
    let tools: Vec<String> = vec![];
    let prompt = generate_planning_prompt("Task", &tools, 1);

    assert!(prompt.contains("No tools available"));
}

#[test]
fn test_is_planning_response() {
    assert!(is_planning_response("My plan is to use the search tool"));
    assert!(is_planning_response(
        "First, I will search. Then, I will analyze."
    ));
    assert!(is_planning_response("I need to calculate the result"));
    assert!(!is_planning_response("The result is 42"));
    assert!(!is_planning_response("Done"));
}

#[test]
fn test_tool_planning_prompt_empty() {
    let factory = FunctionFactory::new();
    let prompt = generate_tool_planning_prompt("Test task", &factory);

    assert!(prompt.contains("Test task"));
    assert!(prompt.contains("How would you approach"));
}

#[test]
fn planning_prompt_has_the_exact_text() {
    let tools = vec!["search".to_string(), "calculator".to_string()];
    assert_eq!(
        generate_planning_prompt("Calculate 2+2", &tools, 1),
        format!(
            "{}{}",
            "Task: Calculate 2+2\n\nAvailable tools: search, calculator\n\nThink step-by-step about how to solve this",
            " task. What tools will you need? What's your approach?"
        )
    );
    assert_eq!(
        generate_planning_prompt("Find info", &tools[..1], 12),
        "Continuing task: Find info\n\nIteration 12\nAvailable tools: search\n\nBased on previous observations, what should be the next step?"
    );
    assert_eq!(
        generate_planning_prompt("T", &[], 0),
        "Continuing task: T\n\nIteration 0\nAvailable tools: No tools available\n\nBased on previous observations, what should be the next step?"
    );
}

#[test]
fn tool_planning_prompt_lists_the_tools() {
    let mut factory = FunctionFactory::new();
    factory.register_tool(CalculatorTool::new().descriptor());
    factory.register_tool(WeatherTool::new().descriptor());
    assert_eq!(get_tool_names(&factory), vec!["calculator".to_string(), "weather".to_string()]);
    assert_eq!(
        generate_tool_planning_prompt("Do it", &factory),
        format!(
            "{}{}",
            "Task: Do it\n\nAvailable tools:\n- calculator: Perform basic arithmetic operations (add, subtract, multiply, divide, power)\n- weather: Get current weather information for a location (mock implementation)\n\nWhat's your plan to solve this",
            " task?"
        )
    );
}

#[test]
fn planning_words_are_found_in_lower_case_only() {
    assert!(mentions_planning("we should go"));
    assert!(!mentions_planning("WE SHOULD GO"));
    assert!(is_planning_response("WE SHOULD GO"));
    assert!(is_planning_response("My STRATEGY"));
    assert!(!is_planning_response(""));
}
