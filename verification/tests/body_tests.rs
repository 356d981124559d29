use gemini_client::body::{generate_request_body, generate_vertex_request_body, json_escape};
use gemini_client::client::{generate_result, GeminiClient, GeminiError};

#[test]
fn test_json_escape_plain() {
    assert_eq!(json_escape("hello world"), "hello world");
    assert_eq!(json_escape(""), "");
}

#[test]
fn test_json_escape_specials() {
    assert_eq!(json_escape("a\"b\\c"), "a\\\"b\\\\c");
    assert_eq!(json_escape("line\nbreak\ttab\rret"), "line\\nbreak\\ttab\\rret");
    assert_eq!(json_escape("\u{8}\u{c}"), "\\b\\f");
    assert_eq!(json_escape("\u{0}\u{1}\u{b}\u{1f}"), "\\u0000\\u0001\\u000b\\u001f");
}

#[test]
fn test_generate_body_shapes() {
    assert_eq!(
        generate_request_body("hi"),
        "{\"contents\":[{\"parts\":[{\"text\":\"hi\"}]}]}"
    );
    assert_eq!(
        generate_vertex_request_body("hi"),
        "{\"contents\":[{\"role\":\"user\",\"parts\":[{\"text\":\"hi\"}]}]}"
    );
}

#[test]
fn test_generate_request_by_endpoint() {
    let vertex = GeminiClient::with_base_url(
        "k",
        "https://aiplatform.googleapis.com/v1/publishers/google/models",
    )
    .unwrap();
    let (url, body) = vertex.generate_request("gemini-2.5-flash-lite", "hi");
    assert_eq!(
        url,
        "https://aiplatform.googleapis.com/v1/publishers/google/models/gemini-2.5-flash-lite:streamGenerateContent?key=k"
    );
    assert!(body.contains("\"role\":\"user\""));

    let studio = GeminiClient::new("k").unwrap();
    let (url, body) = studio.generate_request("gemini-3-flash-preview", "hi");
    assert_eq!(
        url,
        "https://generativelanguage.googleapis.com/v1/models/gemini-3-flash-preview:generateContent?key=k"
    );
    assert!(!body.contains("role"));
    assert_eq!(body, "{\"contents\":[{\"parts\":[{\"text\":\"hi\"}]}]}");
}

#[test]
fn test_generate_result_statuses() {
    let ok = generate_result(200, "m", "raw body".to_string());
    assert_eq!(ok.unwrap(), "raw body");
    match generate_result(404, "gemini-x", String::new()) {
        Err(GeminiError::ModelNotFound(name)) => assert_eq!(name, "gemini-x"),
        other => panic!("expected a model-not-found error, got {:?}", other),
    }
    assert!(matches!(
        generate_result(401, "m", String::new()),
        Err(GeminiError::InvalidApiKey)
    ));
    assert!(matches!(generate_result(503, "m", String::new()), Err(GeminiError::Http(503))));
}
