use gemini_client::ready::{
    effective_model, model_available, readiness_report, resolve_api_key, ReadinessError,
};

#[test]
fn test_resolve_api_key_missing() {
    let r = resolve_api_key(None, None, None);
    assert!(matches!(r, Err(ReadinessError::ApiKeyNotFound)));
}

#[test]
fn test_resolve_api_key_blank() {
    let r = resolve_api_key(Some("  ".to_string()), Some("real-key".to_string()), None);
    assert!(matches!(r, Err(ReadinessError::ApiKeyEmpty)));
}

#[test]
fn test_resolve_api_key_priority() {
    let r = resolve_api_key(Some("a".to_string()), Some("b".to_string()), Some("c".to_string()));
    assert_eq!(r.unwrap(), "a");
    let r = resolve_api_key(None, Some("b".to_string()), Some("c".to_string()));
    assert_eq!(r.unwrap(), "b");
    let r = resolve_api_key(None, None, Some("c".to_string()));
    assert_eq!(r.unwrap(), "c");
}

#[test]
fn test_readiness_survives_listing_failure() {
    let report = readiness_report(None, "gemini-3-flash-preview");
    assert!(!report.models_listed);
    assert!(!report.model_available);
}

#[test]
fn test_readiness_model_lookup() {
    let models = vec!["gemini-3-flash-preview".to_string(), "gemini-3.1-pro".to_string()];
    let report = readiness_report(Some(&models), "gemini-3-flash-preview");
    assert!(report.models_listed);
    assert!(report.model_available);
    let report = readiness_report(Some(&models), "gpt-4");
    assert!(report.models_listed);
    assert!(!report.model_available);
}

#[test]
fn test_model_available_is_substring_match() {
    let models = vec!["gemini-3-flash-preview".to_string()];
    assert!(model_available(&models, "flash"));
    assert!(!model_available(&models, "pro"));
    assert!(model_available(&models, ""));
}

#[test]
fn test_effective_model() {
    assert_eq!(effective_model(Some("gemini-3.1-pro")), "gemini-3.1-pro");
    assert_eq!(effective_model(None), "gemini-3-flash-preview");
}
