use adlib::models::{recording_text, Settings};

#[test]
fn recording_text_prefers_edits() {
    let edited = Some("edited".to_string());
    let transcribed = "transcribed".to_string();
    assert_eq!(recording_text(&edited, Some(&transcribed)), "edited");
    assert_eq!(recording_text(&None, Some(&transcribed)), "transcribed");
    assert_eq!(recording_text(&None, None), "");
}

#[test]
fn default_settings() {
    let s = Settings::default();
    assert_eq!(s.selected_model_name, "tiny");
    assert!(s.confirm_on_delete);
    assert!(!s.is_using_gpu);
}
