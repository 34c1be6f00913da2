use tiny_agent_rs::jina::{
    jina_reader_descriptor, jina_target_url, parse_jina_response, JinaReaderParams,
};
use tiny_agent_rs::json::Json;

#[test]
fn test_parse_jina_response() {
    let raw =
        "Title: Example\nURL Source: https://example.com\nMarkdown Content:\nLine 1\nLine 2";
    let parsed = parse_jina_response(raw);
    assert_eq!(parsed.title.as_deref(), Some("Example"));
    assert_eq!(parsed.url_source.as_deref(), Some("https://example.com"));
    assert_eq!(parsed.markdown.as_deref(), Some("Line 1\nLine 2"));
    assert!(parsed.raw.contains("Markdown Content"));
}

#[test]
fn jina_response_without_markdown() {
    let parsed = parse_jina_response("Title:   Spaced  \r\nPublished Time: 2024-01-01\nstray line");
    assert_eq!(parsed.title.as_deref(), Some("Spaced"));
    assert_eq!(parsed.published_time.as_deref(), Some("2024-01-01"));
    assert_eq!(parsed.url_source, None);
    assert_eq!(parsed.markdown, None);
    assert_eq!(parsed.raw, "Title:   Spaced  \r\nPublished Time: 2024-01-01\nstray line");
}

#[test]
fn jina_markdown_may_start_on_the_marker_line() {
    let parsed = parse_jina_response("Markdown Content:   # Head\n\nbody\nTitle: Late");
    assert_eq!(parsed.markdown.as_deref(), Some("# Head\n\nbody"));
    assert_eq!(parsed.title.as_deref(), Some("Late"));
    let output = parsed.to_json();
    assert_eq!(output.get_str("title"), Some("Late"));
    assert!(output.get("url_source").unwrap().is_null());
    assert_eq!(output.get_str("markdown"), Some("# Head\n\nbody"));
}

#[test]
fn jina_target_url_adds_the_reader_once() {
    assert_eq!(jina_target_url("https://example.com"), "https://r.jina.ai/https://example.com");
    assert_eq!(jina_target_url("https://r.jina.ai/https://example.com"), "https://r.jina.ai/https://example.com");
}

#[test]
fn jina_params_are_read_from_json() {
    let params = JinaReaderParams::from_json(
        &Json::object().with("url", Json::string("https://example.com")).with("no_cache", Json::Bool(true)),
    )
    .unwrap();
    assert_eq!(params.url, "https://example.com");
    assert_eq!(params.no_cache, Some(true));
    let plain = JinaReaderParams::from_json(&Json::object().with("url", Json::string("u"))).unwrap();
    assert_eq!(plain.no_cache, None);
    assert_eq!(
        JinaReaderParams::from_json(&Json::object()).unwrap_err(),
        "missing field `url`"
    );
    assert_eq!(
        JinaReaderParams::from_json(&Json::object().with("url", Json::string("u")).with("no_cache", Json::string("yes"))).unwrap_err(),
        "invalid type for `no_cache`: expected a boolean"
    );
    assert_eq!(JinaReaderParams::from_json(&Json::Null).unwrap_err(), "invalid type: expected an object");
}

#[test]
fn jina_descriptor_is_well_described() {
    let tool = jina_reader_descriptor();
    assert_eq!(tool.name, "jina_reader");
    assert!(!tool.description.is_empty());
    assert!(tool.parameters.is_object());
    assert_eq!(
        tool.parameters.to_text(),
        "{\"properties\":{\"no_cache\":{\"description\":\"Set true to bypass cached snapshot\",\"type\":\"boolean\"},\"url\":{\"description\":\"Fully qualified URL to fetch\",\"type\":\"string\"}},\"required\":[\"url\"],\"type\":\"object\"}"
    );
}
