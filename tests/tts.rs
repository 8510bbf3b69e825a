use resilient_ai_agent::tts::{validate_and_sanitize_tts_text, voices_or_default};

#[test]
fn tts_text_is_trimmed() {
    assert_eq!(validate_and_sanitize_tts_text("  hello world \n"), Some("hello world".to_string()));
}

#[test]
fn tts_text_empty_or_blank_is_refused() {
    assert_eq!(validate_and_sanitize_tts_text(""), None);
    assert_eq!(validate_and_sanitize_tts_text(" \t\u{3000}\n"), None);
}

#[test]
fn tts_text_control_and_non_ascii_removed() {
    assert_eq!(
        validate_and_sanitize_tts_text("a\u{7}b\tc\u{e9}d\ne"),
        Some("ab\tcd\ne".to_string())
    );
}

#[test]
fn tts_text_length_limit_in_bytes() {
    let ok = "a".repeat(500);
    assert_eq!(validate_and_sanitize_tts_text(&ok), Some(ok.clone()));
    let too_long = "a".repeat(501);
    assert_eq!(validate_and_sanitize_tts_text(&too_long), None);
    let wide = "\u{e9}".repeat(251);
    assert_eq!(validate_and_sanitize_tts_text(&wide), None);
    let fits = "\u{e9}".repeat(250);
    assert_eq!(validate_and_sanitize_tts_text(&fits), Some(String::new()));
    let padded = format!("   {}   ", "b".repeat(500));
    assert_eq!(validate_and_sanitize_tts_text(&padded), Some("b".repeat(500)));
}

#[test]
fn voices_fall_back_to_defaults() {
    assert_eq!(voices_or_default(Some(vec!["Ann".to_string()])), vec!["Ann".to_string()]);
    assert_eq!(voices_or_default(Some(vec![])), Vec::<String>::new());
    assert_eq!(voices_or_default(None), vec!["Samantha", "Alex", "Daniel", "Victoria", "Tom"]);
}
