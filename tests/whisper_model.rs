use adlib::whisper_model::{ModelDownloadProgress, ProgressReporter, ProgressTracker, WhisperModel};

#[test]
fn test_model_names() {
    assert_eq!(WhisperModel::Tiny.short_name(), "tiny");
    assert_eq!(
        WhisperModel::from_short_name("tiny"),
        Some(WhisperModel::Tiny)
    );
    assert_eq!(WhisperModel::from_short_name("invalid"), None);
}

#[test]
fn test_model_file_names() {
    assert_eq!(WhisperModel::Tiny.file_name(), "ggml-tiny.bin");
    assert_eq!(WhisperModel::LargeV3.file_name(), "ggml-large-v3.bin");
}

#[test]
fn short_names_round_trip() {
    for m in WhisperModel::all() {
        assert_eq!(WhisperModel::from_short_name(m.short_name()), Some(m));
    }
    assert_eq!(
        WhisperModel::from_short_name("large-v3-turbo"),
        Some(WhisperModel::LargeV3Turbo)
    );
    assert_eq!(WhisperModel::from_short_name("Tiny"), None);
    assert_eq!(WhisperModel::from_short_name(""), None);
}

#[test]
fn catalogue_contents() {
    assert_eq!(WhisperModel::all().len(), 12);
    assert_eq!(
        WhisperModel::recommended(),
        vec![
            WhisperModel::Tiny,
            WhisperModel::Base,
            WhisperModel::Small,
            WhisperModel::Medium
        ]
    );
    assert_eq!(WhisperModel::default_model(), WhisperModel::Tiny);
    assert_eq!(WhisperModel::Medium.display_name(), "Medium (1.5 GB)");
    assert_eq!(WhisperModel::TinyEn.file_name(), "ggml-tiny.en.bin");
    assert_eq!(WhisperModel::LargeV3Turbo.size_bytes(), 1_600_000_000);
    assert_eq!(WhisperModel::BaseEn.size_bytes(), 142_000_000);
}

#[test]
fn progress_tracker_records_updates() {
    let mut t = ProgressTracker::new();
    let p = t.get_progress();
    assert_eq!(p.downloaded_bytes, 0);
    assert_eq!(p.total_bytes, None);
    assert!(!p.is_complete);
    assert!(p.error.is_none());
    assert!(!t.is_cancelled());

    t.set_total(1000);
    t.set_downloaded(250);
    let p = t.get_progress();
    assert_eq!(p.total_bytes, Some(1000));
    assert_eq!(p.downloaded_bytes, 250);

    t.set_error("network down".to_string());
    t.set_complete();
    t.cancel();
    let p = t.get_progress();
    assert_eq!(p.error.as_deref(), Some("network down"));
    assert!(p.is_complete);
    assert!(t.is_cancelled());
}

#[test]
fn reporter_accumulates_bytes() {
    let mut r = ProgressReporter::new(ProgressTracker::new());
    r.init(1000);
    r.update(300);
    r.update(200);
    let p = r.get_progress();
    assert_eq!(p.downloaded_bytes, 500);
    assert_eq!(p.total_bytes, Some(1000));
    assert!(!p.is_complete);
    r.finish();
    assert!(r.get_progress().is_complete);
    let d = ModelDownloadProgress::default();
    assert_eq!(d.downloaded_bytes, 0);
    assert_eq!(d.total_bytes, None);
}
