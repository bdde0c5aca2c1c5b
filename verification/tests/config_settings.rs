use ai_shot_core::config::{Config, DEFAULT_MODEL};
use ai_shot_core::ui::settings::{available_models, Settings};

fn some(s: &str) -> Option<String> {
    Some(s.to_string())
}

#[test]
fn builder_values_win_over_the_environment() {
    let c = Config::builder()
        .with_model("gemini-2.5-pro")
        .with_api_key("explicit")
        .build(some("env-key"), some("env-model"))
        .unwrap();
    assert_eq!(c.gemini_api_key, "explicit");
    assert_eq!(c.model_name, "gemini-2.5-pro");
}

#[test]
fn environment_fills_what_the_builder_left_open() {
    let c = Config::builder().with_model("m").build(some("env-key"), some("env-model")).unwrap();
    assert_eq!((c.gemini_api_key.as_str(), c.model_name.as_str()), ("env-key", "m"));
    let c = Config::builder().with_api_key("k").build(some("env-key"), some("env-model")).unwrap();
    assert_eq!((c.gemini_api_key.as_str(), c.model_name.as_str()), ("k", "env-model"));
}

#[test]
fn defaults_apply_where_nothing_is_set() {
    let c = Config::builder().build(None, None).unwrap();
    assert_eq!(c.gemini_api_key, "");
    assert_eq!(c.model_name, "gemini-flash-latest");
    assert_eq!(DEFAULT_MODEL, "gemini-flash-latest");
}

#[test]
fn later_builder_calls_replace_earlier_ones() {
    let c = Config::builder().with_model("a").with_model("b").with_api_key("x").with_api_key("y")
        .build(None, None)
        .unwrap();
    assert_eq!((c.gemini_api_key.as_str(), c.model_name.as_str()), ("y", "b"));
}

#[test]
fn load_reads_only_the_environment() {
    let c = Config::load(some("env-key"), None).unwrap();
    assert_eq!((c.gemini_api_key.as_str(), c.model_name.as_str()), ("env-key", "gemini-flash-latest"));
    let c = Config::load(None, some("env-model")).unwrap();
    assert_eq!((c.gemini_api_key.as_str(), c.model_name.as_str()), ("", "env-model"));
}

#[test]
fn with_key_uses_the_default_model() {
    let c = Config::with_key("abc");
    assert_eq!((c.gemini_api_key.as_str(), c.model_name.as_str()), ("abc", "gemini-flash-latest"));
    let d = c.clone();
    assert_eq!((d.gemini_api_key, d.model_name), (c.gemini_api_key, c.model_name));
}

#[test]
fn default_settings() {
    let s = Settings::with_defaults("gemini-2.5-pro");
    assert_eq!(s.model, "gemini-2.5-pro");
    assert_eq!(s.system_prompt, "");
    assert!(!s.thinking_enabled);
    assert!(!s.google_search);
    assert_eq!(s.api_key, "");
    assert!(!s.has_api_key());
    let d = Settings::default();
    assert_eq!(d.model, "gemini-flash-latest");
    assert!(!d.has_api_key());
}

#[test]
fn has_api_key_tests_for_any_text() {
    let mut s = Settings::default();
    s.api_key = " ".to_string();
    assert!(s.has_api_key());
    s.api_key = "k".to_string();
    assert!(s.has_api_key());
}

#[test]
fn stored_settings_are_used_as_they_are() {
    let mut stored = Settings::with_defaults("gemini-flash-lite-latest");
    stored.system_prompt = "be brief".to_string();
    stored.thinking_enabled = true;
    let s = Settings::load(Some(stored), "other");
    assert_eq!(s.model, "gemini-flash-lite-latest");
    assert_eq!(s.system_prompt, "be brief");
    assert!(s.thinking_enabled);
    let s = Settings::load(None, "other");
    assert_eq!(s.model, "other");
    assert!(!s.thinking_enabled);
}

#[test]
fn key_fallback_applies_only_to_an_empty_key() {
    let s = Settings::default().with_key_fallback("from-config");
    assert_eq!(s.api_key, "from-config");
    let mut own = Settings::default();
    own.api_key = "own".to_string();
    own.google_search = true;
    let s = own.with_key_fallback("from-config");
    assert_eq!(s.api_key, "own");
    assert!(s.google_search);
    let c = s.clone();
    assert_eq!(c.api_key, "own");
    assert!(c.google_search);
}

#[test]
fn models_on_offer() {
    assert_eq!(
        available_models(),
        vec!["gemini-2.5-pro", "gemini-flash-latest", "gemini-flash-lite-latest"]
    );
}

#[test]
fn settings_compare_field_by_field() {
    let a = Settings::with_defaults("m");
    let mut b = Settings::with_defaults("m");
    assert!(a == b);
    b.google_search = true;
    assert!(a != b);
    let mut c = a.clone();
    assert!(a == c);
    c.system_prompt = "x".to_string();
    assert!(a != c);
}

#[test]
fn builder_default_sets_nothing() {
    let c = ai_shot_core::config::ConfigBuilder::default().build(None, None).unwrap();
    assert_eq!((c.gemini_api_key.as_str(), c.model_name.as_str()), ("", "gemini-flash-latest"));
}
