use adlib::session::{LiveSession, TickOutcome};
use adlib::transcriber::{LiveTranscriber, ProcessCycleResult};

fn speech(n: usize) -> Vec<i16> {
    (0..n).map(|i| if i % 2 == 0 { 6000 } else { -6000 }).collect()
}

fn hello(_: &[i16]) -> Result<Vec<String>, String> {
    Ok(vec!["hello world".to_string()])
}

#[test]
fn session_resamples_and_processes() {
    let mut s = LiveSession::new(LiveTranscriber::with_threshold(0));
    let mut captured = speech(12000);
    // 12000 samples at 48 kHz are 4000 at 16 kHz: not yet a step.
    assert_eq!(s.tick(&captured, 48000, hello), TickOutcome::Waiting);
    assert_eq!(s.transcriber().buffer_len(), 4000);
    // Nothing new: nothing happens.
    assert_eq!(s.tick(&captured, 48000, hello), TickOutcome::Waiting);
    assert_eq!(s.transcriber().buffer_len(), 4000);
    captured.extend(speech(12000));
    assert_eq!(
        s.tick(&captured, 48000, hello),
        TickOutcome::Processed(ProcessCycleResult::Updated)
    );
    assert_eq!(s.transcript(), "hello world");
    assert_eq!(s.error(), None);
}

#[test]
fn session_reports_failures() {
    let mut s = LiveSession::new(LiveTranscriber::with_threshold(0));
    let captured = speech(8000);
    let outcome = s.tick(&captured, 16000, |_: &[i16]| Err("model crashed".to_string()));
    assert_eq!(outcome, TickOutcome::Failed);
    assert_eq!(s.error(), Some("Transcription error: model crashed"));
    assert_eq!(s.transcript(), "");
    assert_eq!(s.transcriber().buffer_len(), 8000);
}

#[test]
fn stopped_session_reads_nothing() {
    let mut s = LiveSession::new(LiveTranscriber::new());
    assert!(s.is_running());
    s.stop();
    assert!(!s.is_running());
    assert_eq!(s.tick(&vec![0; 48000], 16000, hello), TickOutcome::Stopped);
    assert!(!s.transcriber().is_calibrated());
}

#[test]
fn session_calibrates_from_capture() {
    let mut s = LiveSession::new(LiveTranscriber::new());
    let quiet = vec![0i16; 144000];
    assert_eq!(s.tick(&quiet, 48000, hello), TickOutcome::Waiting);
    assert!(s.transcriber().is_calibrated());
    assert_eq!(s.transcriber().calibration_progress(), 1000);
}
