use gemini_client::client::{
    get_model_result, host_str, list_models_result, GeminiClient, GeminiError, ModelInfo,
    ModelListResponse, VERTEX_AI_BASE_URL,
};

fn model_info(name: &str) -> ModelInfo {
    ModelInfo {
        name: name.to_string(),
        display_name: None,
        description: None,
        supported_generation_methods: None,
    }
}

#[test]
fn test_create_client() {
    let client = GeminiClient::new("test-key");
    assert!(client.is_ok());
}

#[test]
fn test_empty_api_key() {
    let client = GeminiClient::new("");
    assert!(matches!(client, Err(GeminiError::InvalidApiKey)));
}

#[test]
fn test_custom_base_url() {
    let client = GeminiClient::with_base_url("test-key", "https://custom.api.com/");
    assert!(client.is_ok());
    assert_eq!(client.unwrap().base_url, "https://custom.api.com");
}

#[test]
fn test_whitespace_api_key() {
    let client = GeminiClient::new(" \t\n ");
    assert!(matches!(client, Err(GeminiError::InvalidApiKey)));
}

#[test]
fn test_default_base_url() {
    let client = GeminiClient::new("test-key").unwrap();
    assert_eq!(client.base_url, "https://generativelanguage.googleapis.com/v1");
    assert_eq!(client.api_key, "test-key");
}

#[test]
fn test_many_trailing_slashes_stripped() {
    let client = GeminiClient::with_base_url("test-key", "https://x.com///").unwrap();
    assert_eq!(client.base_url, "https://x.com");
}

#[test]
fn test_is_vertex_ai() {
    let vertex = GeminiClient::with_base_url("test-key", VERTEX_AI_BASE_URL).unwrap();
    assert!(vertex.is_vertex_ai());
    let studio = GeminiClient::new("test-key").unwrap();
    assert!(!studio.is_vertex_ai());
    let custom = GeminiClient::with_base_url("test-key", "https://custom.api.com").unwrap();
    assert!(!custom.is_vertex_ai());
}

#[test]
fn test_is_vertex_ai_checks_the_host() {
    let masquerade =
        GeminiClient::with_base_url("test-key", "https://evil.example/aiplatform.googleapis.com")
            .unwrap();
    assert!(!masquerade.is_vertex_ai());
    let other_path = GeminiClient::with_base_url("test-key", "https://aiplatform.googleapis.com/v1")
        .unwrap();
    assert!(other_path.is_vertex_ai());
}

#[test]
fn test_host_str() {
    assert_eq!(host_str("https://aiplatform.googleapis.com/v1"), "aiplatform.googleapis.com");
    assert_eq!(host_str("https://evil.example/aiplatform.googleapis.com"), "evil.example");
    assert_eq!(host_str("https://custom.api.com"), "custom.api.com");
    assert_eq!(host_str("no-scheme-here"), "");
}

#[test]
fn test_list_models_url() {
    let client = GeminiClient::with_base_url("k", "https://x.com").unwrap();
    assert_eq!(client.list_models_url(), "https://x.com/models?key=k");
}

#[test]
fn test_get_model_url_prefix_insensitive() {
    let client = GeminiClient::with_base_url("k", "https://x.com").unwrap();
    let bare = client.get_model_url("foo");
    let prefixed = client.get_model_url("models/foo");
    assert_eq!(bare, "https://x.com/models/foo?key=k");
    assert_eq!(bare, prefixed);
}

#[test]
fn test_list_models_strips_prefix() {
    let resp = ModelListResponse { models: vec![model_info("models/a"), model_info("b")] };
    let names = list_models_result(200, Ok(resp)).unwrap();
    assert_eq!(names, vec!["a".to_string(), "b".to_string()]);
}

#[test]
fn test_list_models_unauthorized() {
    let resp = ModelListResponse { models: vec![] };
    let r = list_models_result(401, Ok(resp));
    assert!(matches!(r, Err(GeminiError::InvalidApiKey)));
}

#[test]
fn test_list_models_http_error() {
    let r = list_models_result(500, Err(String::new()));
    assert!(matches!(r, Err(GeminiError::Http(500))));
}

#[test]
fn test_list_models_bad_json() {
    let r = list_models_result(200, Err("truncated body".to_string()));
    match r {
        Err(GeminiError::Json(msg)) => assert_eq!(msg, "truncated body"),
        other => panic!("expected a JSON error, got {:?}", other),
    }
}

#[test]
fn test_get_model_not_found_keeps_identifier() {
    let r = get_model_result(404, "foo", Err(String::new()));
    match r {
        Err(GeminiError::ModelNotFound(name)) => assert_eq!(name, "foo"),
        other => panic!("expected a model-not-found error, got {:?}", other),
    }
}

#[test]
fn test_get_model_unauthorized() {
    let r = get_model_result(401, "foo", Err(String::new()));
    assert!(matches!(r, Err(GeminiError::InvalidApiKey)));
}

#[test]
fn test_get_model_success() {
    let r = get_model_result(200, "foo", Ok(model_info("models/foo"))).unwrap();
    assert_eq!(r.name, "models/foo");
}
