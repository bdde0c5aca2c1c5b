use ai_shot_core::error::AppError;
use ai_shot_core::text::{char_is_whitespace, text_has_prefix, text_is_blank};

#[test]
fn constructors_pick_their_variant() {
    assert!(matches!(AppError::config("a"), AppError::Config(m) if m == "a"));
    assert!(matches!(AppError::capture("b"), AppError::ScreenCapture(m) if m == "b"));
    assert!(matches!(AppError::image("c"), AppError::ImageProcessing(m) if m == "c"));
    assert!(matches!(AppError::gemini("d"), AppError::GeminiApi(m) if m == "d"));
    assert!(matches!(AppError::ui("e"), AppError::Ui(m) if m == "e"));
}

#[test]
fn messages_of_every_variant() {
    assert_eq!(AppError::Config("x".into()).message(), "Configuration error: x");
    assert_eq!(
        AppError::MissingEnvVar("GEMINI_API_KEY".into()).message(),
        "Missing required environment variable: GEMINI_API_KEY"
    );
    assert_eq!(AppError::ScreenCapture("x".into()).message(), "Screen capture failed: x");
    assert_eq!(AppError::ImageProcessing("x".into()).message(), "Image processing failed: x");
    assert_eq!(AppError::EmptySelection.message(), "Selection area is empty or invalid");
    assert_eq!(AppError::GeminiApi("x".into()).message(), "Gemini API error: x");
    assert_eq!(AppError::RateLimited.message(), "Rate limited by Gemini API, please retry later");
    assert_eq!(AppError::Ui("x".into()).message(), "UI error: x");
    assert_eq!(AppError::Io("x".into()).message(), "IO error: x");
    assert_eq!(AppError::Json("x".into()).message(), "JSON error: x");
    assert_eq!(AppError::Unknown("".into()).message(), "Unknown error: ");
}

#[test]
fn screen_index_is_written_in_decimal() {
    assert_eq!(AppError::ScreenNotFound(0).message(), "Screen not found: index 0");
    assert_eq!(AppError::ScreenNotFound(7).message(), "Screen not found: index 7");
    assert_eq!(AppError::ScreenNotFound(10).message(), "Screen not found: index 10");
    assert_eq!(AppError::ScreenNotFound(1234567890).message(), "Screen not found: index 1234567890");
    assert_eq!(
        AppError::ScreenNotFound(usize::MAX).message(),
        format!("Screen not found: index {}", usize::MAX)
    );
}

#[test]
fn whitespace_agrees_with_the_standard_library() {
    let mut code: u32 = 0;
    while code <= 0x3100 {
        if let Some(c) = char::from_u32(code) {
            assert_eq!(char_is_whitespace(c), c.is_whitespace(), "U+{:04X}", code);
        }
        code += 1;
    }
    assert!(!char_is_whitespace('\u{feff}'));
    assert!(!char_is_whitespace('\u{10ffff}'));
}

#[test]
fn blank_text() {
    assert!(text_is_blank(""));
    assert!(text_is_blank("  \t\r\n"));
    assert!(text_is_blank("\u{2003}\u{2028}"));
    assert!(!text_is_blank(" a "));
    assert!(!text_is_blank("\u{200b}"));
    assert_eq!(text_is_blank(" x"), " x".trim().is_empty());
}

#[test]
fn prefixes() {
    assert!(text_has_prefix("models/x", "models/"));
    assert!(text_has_prefix("models/", "models/"));
    assert!(text_has_prefix("anything", ""));
    assert!(!text_has_prefix("model/x", "models/"));
    assert!(!text_has_prefix("model", "models/"));
    assert!(!text_has_prefix("", "m"));
    assert!(text_has_prefix("\u{e9}t\u{e9}", "\u{e9}t"));
}
