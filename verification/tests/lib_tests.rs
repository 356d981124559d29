use gemini_client::{is_gemini_model, DEFAULT_GEMINI_MODEL, GEMINI_AI_STUDIO_URL};

#[test]
fn test_is_gemini_model() {
    assert!(is_gemini_model("gemini-3.1-flash"));
    assert!(is_gemini_model("gemini-3.0-pro"));
    assert!(is_gemini_model("gemini-4.0-ultra"));
    assert!(!is_gemini_model("gpt-4"));
    assert!(!is_gemini_model("llama-3"));
}

#[test]
fn test_default_model() {
    assert_eq!(DEFAULT_GEMINI_MODEL, "gemini-3-flash-preview");
}

#[test]
fn test_studio_url() {
    assert_eq!(GEMINI_AI_STUDIO_URL, "https://generativelanguage.googleapis.com/v1");
}
