use std::any::TypeId;
use tiny_agent_rs::conversation::{Conversation, SchemaContext};
use tiny_agent_rs::error::AgentError;
use tiny_agent_rs::json::Json;
use tiny_agent_rs::response::StructuredPayload;
use tiny_agent_rs::schema::{
    apply_doc_comments, ensure_schema_matches, validate_structured_payload, validation_outcome,
    SchemaHandle,
};
use tiny_agent_rs::validation::{
    final_answer_tool_definition, inject_schema_instructions, parse_final_answer_arguments,
    parse_structured_response_arguments, structured_response_tool_definition,
    structured_response_tool_name,
};

fn plan_schema() -> SchemaHandle {
    let document = Json::parse(
        "{\"type\":\"object\",\"properties\":{\"title\":{\"type\":\"string\"},\"nights\":{\"type\":\"integer\",\"minimum\":1},\"tags\":{\"type\":\"array\",\"items\":{\"type\":\"string\"}}},\"required\":[\"title\",\"nights\"]}",
    )
    .unwrap();
    SchemaHandle::new("Plan", "demo::Plan", TypeId::of::<u8>(), document)
}

fn validation_message(result: Result<(), AgentError>) -> String {
    match result {
        Err(AgentError::Validation(m)) => m,
        other => panic!("unexpected {:?}", other),
    }
}

#[test]
fn valid_payload_is_accepted() {
    let payload = Json::parse("{\"title\":\"Trip\",\"nights\":3,\"tags\":[\"a\"]}").unwrap();
    assert!(validate_structured_payload(&plan_schema(), &payload).is_ok());
}

#[test]
fn invalid_payload_names_path_and_message() {
    let payload = Json::parse("{\"title\":\"Trip\",\"nights\":\"three\"}").unwrap();
    let message = validation_message(validate_structured_payload(&plan_schema(), &payload));
    assert!(message.starts_with("Structured payload does not match `Plan` schema: /nights: "), "{}", message);
    assert!(!message.contains("additional errors truncated"));
    let missing = validation_message(validate_structured_payload(&plan_schema(), &Json::object()));
    assert!(missing.starts_with("Structured payload does not match `Plan` schema: <root>: "), "{}", missing);
}

#[test]
fn more_than_three_violations_are_cut() {
    let payload = Json::parse("{\"title\":1,\"nights\":0,\"tags\":[1,2,3]}").unwrap();
    let message = validation_message(validate_structured_payload(&plan_schema(), &payload));
    assert!(message.ends_with("; additional errors truncated"), "{}", message);
    assert_eq!(message.matches("; ").count(), 3, "{}", message);
}

#[test]
fn schema_that_does_not_build_is_reported() {
    let broken = SchemaHandle::new(
        "Broken",
        "demo::Broken",
        TypeId::of::<u8>(),
        Json::parse("{\"type\":\"no such type\"}").unwrap(),
    );
    let message = validation_message(validate_structured_payload(&broken, &Json::object()));
    assert!(message.starts_with("Failed to prepare `Broken` schema for validation: "), "{}", message);
}

#[test]
fn validation_outcome_words_the_report() {
    assert!(validation_outcome("S", Ok(Vec::new())).is_ok());
    let one = vec![(String::new(), "is wrong".to_string())];
    assert_eq!(
        validation_message(validation_outcome("S", Ok(one))),
        "Structured payload does not match `S` schema: <root>: is wrong"
    );
    let three: Vec<(String, String)> = (1..=3).map(|i| (format!("/p{}", i), format!("m{}", i))).collect();
    assert_eq!(
        validation_message(validation_outcome("S", Ok(three))),
        "Structured payload does not match `S` schema: /p1: m1; /p2: m2; /p3: m3"
    );
    let four: Vec<(String, String)> = (1..=4).map(|i| (format!("/p{}", i), format!("m{}", i))).collect();
    assert_eq!(
        validation_message(validation_outcome("S", Ok(four))),
        "Structured payload does not match `S` schema: /p1: m1; /p2: m2; /p3: m3; additional errors truncated"
    );
    assert_eq!(
        validation_message(validation_outcome("S", Err("bad schema".to_string()))),
        "Failed to prepare `S` schema for validation: bad schema"
    );
}

#[test]
fn handle_keeps_what_it_was_given() {
    let handle = plan_schema();
    assert_eq!(handle.schema_name(), "Plan");
    assert_eq!(handle.rust_type_name(), "demo::Plan");
    assert_eq!(handle.type_id(), TypeId::of::<u8>());
    assert_eq!(handle.schema_json().get_str("type"), Some("object"));
    assert_eq!(handle.schema_json_arc().to_text(), handle.schema_json().to_text());
    let copy = handle.clone();
    assert_eq!(copy.schema_name(), "Plan");
    assert_eq!(copy.schema_json().to_text(), handle.schema_json().to_text());
}

#[test]
fn handle_is_made_from_a_generated_schema() {
    let root = schemars::gen::SchemaGenerator::default().into_root_schema_for::<Vec<String>>();
    let handle = SchemaHandle::from_root_schema::<Vec<String>>("Names", "Vec<String>", root).unwrap();
    assert_eq!(handle.schema_name(), "Names");
    assert_eq!(handle.type_id(), TypeId::of::<Vec<String>>());
    assert_eq!(handle.schema_json().get_str("type"), Some("array"));
    let names = Json::array(vec![Json::string("a")]);
    assert!(validate_structured_payload(&handle, &names).is_ok());
    assert!(validate_structured_payload(&handle, &Json::array(vec![Json::Null])).is_err());
}

#[test]
fn final_answer_tool_has_its_definition() {
    assert_eq!(
        final_answer_tool_definition().to_text(),
        "{\"function\":{\"description\":\"Signal that the agent has completed the task by providing the final answer.\",\"name\":\"final_answer\",\"parameters\":{\"properties\":{\"answer\":{\"description\":\"Final response for the user\",\"type\":\"string\"},\"meta\":{\"additionalProperties\":true,\"description\":\"Optional metadata about the answer\",\"type\":\"object\"},\"structured\":{\"additionalProperties\":true,\"description\":\"Structured payload matching the active completion schema\",\"type\":\"object\"}},\"required\":[\"answer\"],\"type\":\"object\"}},\"type\":\"function\"}"
    );
}

#[test]
fn structured_response_tool_takes_the_schema_in() {
    assert_eq!(structured_response_tool_name(), "structured_response");
    let schema = SchemaHandle::new(
        "Plan",
        "demo::Plan",
        TypeId::of::<u8>(),
        Json::parse("{\"type\":\"object\",\"properties\":{\"title\":{\"type\":\"string\"}},\"required\":[\"title\"]}").unwrap(),
    );
    assert_eq!(
        structured_response_tool_definition(&schema).to_text(),
        "{\"function\":{\"description\":\"Complete the task by providing a Plan object with all required fields.\",\"name\":\"structured_response\",\"parameters\":{\"additionalProperties\":false,\"properties\":{\"structured\":{\"additionalProperties\":false,\"description\":\"The Plan data structure. This must match the schema exactly.\",\"properties\":{\"title\":{\"type\":\"string\"}},\"required\":[\"title\"],\"type\":\"object\"}},\"required\":[\"structured\"],\"type\":\"object\"}},\"type\":\"function\"}"
    );
    let bare = SchemaHandle::new("Any", "demo::Any", TypeId::of::<u8>(), Json::Bool(true));
    assert_eq!(
        structured_response_tool_definition(&bare).to_text(),
        "{\"function\":{\"description\":\"Complete the task by providing a Any object with all required fields.\",\"name\":\"structured_response\",\"parameters\":{\"additionalProperties\":false,\"properties\":{\"structured\":{\"additionalProperties\":false,\"description\":\"The Any data structure. This must match the schema exactly.\",\"type\":\"object\"}},\"required\":[\"structured\"],\"type\":\"object\"}},\"type\":\"function\"}"
    );
}

#[test]
fn instruction_is_added_once() {
    let mut messages = vec![
        Json::parse("{\"role\":\"system\",\"content\":\"Be brief.\"}").unwrap(),
        Json::parse("{\"role\":\"user\",\"content\":\"hi\"}").unwrap(),
    ];
    inject_schema_instructions(&mut messages, &plan_schema());
    let expected = "Be brief.\n\nStructured response requirement: when you finish the task, you MUST call the `structured_response` tool with a JSON payload that strictly conforms to the `Plan` schema. This is the ONLY way to complete the task.";
    assert_eq!(messages.len(), 2);
    assert_eq!(messages[0].get_str("content"), Some(expected));
    assert_eq!(messages[0].get_str("role"), Some("system"));
    assert_eq!(messages[1].to_text(), "{\"content\":\"hi\",\"role\":\"user\"}");
    inject_schema_instructions(&mut messages, &plan_schema());
    assert_eq!(messages[0].get_str("content"), Some(expected));
}

#[test]
fn instruction_needs_a_leading_system_text() {
    let mut empty: Vec<Json> = Vec::new();
    inject_schema_instructions(&mut empty, &plan_schema());
    assert!(empty.is_empty());
    for first in [
        "{\"role\":\"user\",\"content\":\"hi\"}",
        "{\"role\":\"system\",\"content\":null}",
        "{\"role\":\"system\"}",
        "{\"content\":\"no role\"}",
        "\"system\"",
    ] {
        let mut messages = vec![Json::parse(first).unwrap()];
        let before = messages[0].to_text();
        inject_schema_instructions(&mut messages, &plan_schema());
        assert_eq!(messages[0].to_text(), before);
    }
}

#[test]
fn final_answer_arguments_are_read() {
    let full = parse_final_answer_arguments(
        &Json::parse("{\"answer\":\" 42 \",\"structured\":{\"n\":42},\"meta\":{\"m\":1},\"extra\":true}").unwrap(),
    )
    .unwrap();
    assert_eq!(full.answer, " 42 ");
    assert_eq!(full.structured.unwrap().to_text(), "{\"n\":42}");
    assert_eq!(full.meta.unwrap().to_text(), "{\"m\":1}");
    let plain = parse_final_answer_arguments(&Json::parse("{\"answer\":\"a\",\"structured\":null}").unwrap()).unwrap();
    assert!(plain.structured.is_none());
    assert!(plain.meta.is_none());
    assert_eq!(
        parse_final_answer_arguments(&Json::object()).unwrap_err(),
        "missing field `answer`"
    );
    assert_eq!(
        parse_final_answer_arguments(&Json::parse("{\"answer\":5}").unwrap()).unwrap_err(),
        "invalid type for `answer`: expected a string"
    );
    assert_eq!(
        parse_final_answer_arguments(&Json::parse("[\"a\"]").unwrap()).unwrap_err(),
        "invalid type: expected an object"
    );
}

#[test]
fn structured_response_arguments_are_read() {
    let full = parse_structured_response_arguments(&Json::parse("{\"structured\":{\"n\":1},\"meta\":null}").unwrap()).unwrap();
    assert_eq!(full.structured.to_text(), "{\"n\":1}");
    assert!(full.meta.is_none());
    let null = parse_structured_response_arguments(&Json::parse("{\"structured\":null}").unwrap()).unwrap();
    assert!(null.structured.is_null());
    assert_eq!(
        parse_structured_response_arguments(&Json::object()).unwrap_err(),
        "missing field `structured`"
    );
    assert_eq!(
        parse_structured_response_arguments(&Json::string("x")).unwrap_err(),
        "invalid type: expected an object"
    );
}

#[test]
fn schema_context_gives_the_response_format() {
    let mut context = SchemaContext::default();
    assert!(context.handle().is_none());
    assert!(context.response_format().is_none());
    context.set_handle(SchemaHandle::new("S", "T", TypeId::of::<u8>(), Json::object().with("type", Json::string("object"))));
    assert_eq!(context.handle().unwrap().schema_name(), "S");
    assert_eq!(
        context.response_format().unwrap().to_text(),
        "{\"json_schema\":{\"name\":\"S\",\"schema\":{\"type\":\"object\"}},\"type\":\"json_schema\"}"
    );
    let copy = context.clone();
    assert!(copy.handle().is_some());
    context.clear();
    assert!(context.response_format().is_none());
}

#[test]
fn conversation_keeps_messages_and_schema() {
    let mut conversation = Conversation::new();
    assert!(conversation.messages().is_empty());
    conversation.push_message(Json::string("a"));
    conversation.extend_messages(vec![Json::string("b"), Json::string("c")]);
    let texts: Vec<String> = conversation.messages().iter().map(|m| m.to_text()).collect();
    assert_eq!(texts, vec!["\"a\"", "\"b\"", "\"c\""]);
    assert!(conversation.response_format().is_none());
    conversation.set_schema_handle(plan_schema());
    assert_eq!(conversation.schema_context().handle().unwrap().schema_name(), "Plan");
    assert!(conversation.response_format().is_some());
    conversation.clear_schema();
    assert!(conversation.schema_context().handle().is_none());
    let mut seeded = Conversation::with_messages(vec![Json::Null]);
    assert_eq!(seeded.messages().len(), 1);
    seeded.messages_mut().push(Json::Bool(true));
    seeded.messages_mut().remove(0);
    assert_eq!(seeded.messages().len(), 1);
    assert_eq!(seeded.messages()[0].to_text(), "true");
    seeded.schema_context_mut().set_handle(plan_schema());
    assert_eq!(seeded.schema_context().handle().unwrap().schema_name(), "Plan");
    assert!(Conversation::default().messages().is_empty());
}

#[test]
fn structured_payload_holds_schema_and_value() {
    let payload = StructuredPayload::new(plan_schema(), Json::object().with("title", Json::string("t")));
    assert_eq!(payload.schema().schema_name(), "Plan");
    assert_eq!(payload.value().to_text(), "{\"title\":\"t\"}");
    let copy = payload.clone();
    let (schema, value) = copy.into_inner();
    assert_eq!(schema.schema_name(), "Plan");
    assert_eq!(value.to_text(), "{\"title\":\"t\"}");
}

#[test]
fn documentation_fills_what_the_schema_lacks() {
    let mut schema = Json::parse(
        "{\"type\":\"object\",\"properties\":{\"a\":{\"type\":\"string\"},\"b\":{\"type\":\"string\",\"description\":\"kept\"},\"c\":true}}",
    )
    .unwrap();
    apply_doc_comments(
        &mut schema,
        "Plan",
        Some("A plan."),
        &[("a", "The a."), ("b", "The b."), ("c", "The c."), ("d", "The d.")],
    );
    assert_eq!(
        schema.to_text(),
        "{\"description\":\"A plan.\",\"properties\":{\"a\":{\"description\":\"The a.\",\"type\":\"string\"},\"b\":{\"description\":\"kept\",\"type\":\"string\"},\"c\":true},\"title\":\"Plan\",\"type\":\"object\"}"
    );
    let mut titled = Json::parse("{\"title\":\"Mine\",\"description\":\"Own.\",\"properties\":[]}").unwrap();
    apply_doc_comments(&mut titled, "Plan", Some("A plan."), &[("a", "The a.")]);
    assert_eq!(titled.to_text(), "{\"description\":\"Own.\",\"properties\":[],\"title\":\"Mine\"}");
    let mut bare = Json::object();
    apply_doc_comments(&mut bare, "Plan", None, &[("a", "The a.")]);
    assert_eq!(bare.to_text(), "{\"title\":\"Plan\"}");
    let mut flag = Json::Bool(true);
    apply_doc_comments(&mut flag, "Plan", Some("A plan."), &[]);
    assert_eq!(flag.to_text(), "true");
    let handle = plan_schema().with_doc_comments("Plan", Some("A plan."), &[("title", "Its title.")]);
    assert_eq!(handle.schema_name(), "Plan");
    assert_eq!(handle.schema_json().get_str("title"), Some("Plan"));
    assert_eq!(
        handle.schema_json().get("properties").unwrap().get("title").unwrap().get_str("description"),
        Some("Its title.")
    );
}

#[test]
fn handle_is_checked_against_the_type_asked_for() {
    let handle = plan_schema();
    assert!(handle.check_type(TypeId::of::<u8>(), "u8").is_ok());
    match handle.check_type(TypeId::of::<u16>(), "u16") {
        Err(AgentError::Validation(m)) => assert_eq!(m, "schema `Plan` does not match target type `u16`"),
        other => panic!("unexpected {:?}", other),
    }
    assert!(ensure_schema_matches::<u8>(&handle, "u8").is_ok());
    match ensure_schema_matches::<String>(&handle, "alloc::string::String") {
        Err(AgentError::Validation(m)) => {
            assert_eq!(m, "schema `Plan` does not match target type `alloc::string::String`")
        }
        other => panic!("unexpected {:?}", other),
    }
}
