use adlib::transcriber::{
    InferenceError, LiveTranscriber, ProcessCycleResult, CALIBRATION_SAMPLES,
    MAX_BUFFER_SAMPLES, MIN_VAD_ENERGY, STEP_SAMPLES,
};

fn quiet(n: usize) -> Vec<i16> {
    vec![0; n]
}

fn loud(n: usize) -> Vec<i16> {
    (0..n).map(|i| if i % 2 == 0 { 5000 } else { -5000 }).collect()
}

fn says(text: &'static str) -> impl FnOnce(&[i16]) -> Result<Vec<String>, String> {
    move |_: &[i16]| Ok(vec![text.to_string()])
}

fn never_called(_: &[i16]) -> Result<Vec<String>, String> {
    panic!("the model must not run on this cycle")
}

fn calibrated_engine() -> LiveTranscriber {
    LiveTranscriber::with_threshold(0)
}

#[test]
fn quiet_audio_below_target_keeps_calibrating() {
    let mut t = LiveTranscriber::new();
    assert!(!t.is_calibrated());
    assert_eq!(t.calibration_progress(), 0);
    t.add_samples(&quiet(CALIBRATION_SAMPLES - 1));
    assert!(!t.is_calibrated());
    assert_eq!(t.calibration_progress(), 999);
    assert!(!t.ready_to_process());
    t.add_samples(&quiet(1));
    assert!(t.is_calibrated());
    assert_eq!(t.calibration_progress(), 1000);
    assert_eq!(t.vad_threshold(), MIN_VAD_ENERGY);
}

#[test]
fn calibration_in_small_pieces() {
    let mut t = LiveTranscriber::new();
    for _ in 0..(CALIBRATION_SAMPLES / 480 - 1) {
        t.add_samples(&quiet(480));
    }
    assert!(!t.is_calibrated());
    t.add_samples(&quiet(480));
    assert!(t.is_calibrated());
}

#[test]
fn samples_beyond_calibration_reach_the_buffer() {
    let mut t = LiveTranscriber::new();
    t.add_samples(&quiet(CALIBRATION_SAMPLES + 2000));
    assert!(t.is_calibrated());
    assert_eq!(t.buffer_len(), 2000);
    assert!(!t.ready_to_process());
    t.add_samples(&quiet(6000));
    assert!(t.ready_to_process());
}

#[test]
fn loud_chunk_resets_calibration() {
    let mut t = LiveTranscriber::new();
    t.add_samples(&quiet(16000));
    assert_eq!(t.calibration_progress(), 333);
    t.add_samples(&loud(1600));
    assert_eq!(t.calibration_progress(), 0);
    assert!(!t.is_calibrated());
    // Within a single call, too.
    let mut mixed = quiet(3200);
    mixed.extend(loud(1600));
    t.add_samples(&mixed);
    assert_eq!(t.calibration_progress(), 0);
    t.add_samples(&quiet(CALIBRATION_SAMPLES));
    assert!(t.is_calibrated());
}

#[test]
fn threshold_follows_ambient_noise() {
    let mut t = LiveTranscriber::new();
    let hum: Vec<i16> = (0..CALIBRATION_SAMPLES)
        .map(|i| if i % 2 == 0 { 1000 } else { -1000 })
        .collect();
    t.add_samples(&hum);
    assert!(t.is_calibrated());
    // Three times the ambient RMS level of 1000, squared.
    assert_eq!(t.vad_threshold(), 9_000_000);
    // A level of 2000 is below the threshold: silence, no model call.
    t.add_samples(&vec![2000; STEP_SAMPLES]);
    assert_eq!(t.process(never_called).unwrap(), ProcessCycleResult::NoChange);
    // A level of 4000 is speech.
    t.add_samples(&vec![4000; STEP_SAMPLES]);
    assert_eq!(
        t.process(says("speech detected")).unwrap(),
        ProcessCycleResult::Updated
    );
}

#[test]
fn no_audio_reaches_the_buffer_before_calibration() {
    let mut t = LiveTranscriber::new();
    t.add_samples(&loud(STEP_SAMPLES * 4));
    assert!(!t.is_calibrated());
    assert_eq!(t.buffer_len(), 0);
    assert!(!t.ready_to_process());
    assert_eq!(t.process(never_called).unwrap(), ProcessCycleResult::NoChange);
}

#[test]
fn ready_after_a_step_of_audio() {
    let mut t = calibrated_engine();
    t.add_samples(&loud(STEP_SAMPLES - 1));
    assert!(!t.ready_to_process());
    t.add_samples(&loud(1));
    assert!(t.ready_to_process());
    t.process(says("hello world")).unwrap();
    assert!(!t.ready_to_process());
}

#[test]
fn silence_commits_tentative_text() {
    let mut t = calibrated_engine();
    t.add_samples(&loud(STEP_SAMPLES));
    assert_eq!(t.process(says("hello world")).unwrap(), ProcessCycleResult::Updated);
    assert_eq!(t.get_tentative(), "hello world");
    assert_eq!(t.get_confirmed(), "");
    t.add_samples(&quiet(STEP_SAMPLES));
    assert_eq!(t.process(never_called).unwrap(), ProcessCycleResult::NoChange);
    t.add_samples(&quiet(STEP_SAMPLES));
    assert_eq!(t.process(never_called).unwrap(), ProcessCycleResult::NoChange);
    t.add_samples(&quiet(STEP_SAMPLES));
    assert_eq!(t.process(never_called).unwrap(), ProcessCycleResult::Committed);
    assert_eq!(t.get_transcript(), "hello world");
    assert_eq!(t.get_confirmed(), "hello world");
    assert_eq!(t.get_tentative(), "");
    assert_eq!(t.buffer_len(), 0);
    assert_eq!(t.process(never_called).unwrap(), ProcessCycleResult::NoChange);
}

#[test]
fn silence_without_text_commits_nothing() {
    let mut t = calibrated_engine();
    for _ in 0..5 {
        t.add_samples(&quiet(STEP_SAMPLES));
        assert_eq!(t.process(never_called).unwrap(), ProcessCycleResult::NoChange);
    }
    assert_eq!(t.get_transcript(), "");
    assert_eq!(t.buffer_len(), 5 * STEP_SAMPLES);
}

#[test]
fn end_to_end_hello_world() {
    let mut t = calibrated_engine();
    let mut results = Vec::new();
    for _ in 0..3 {
        t.add_samples(&loud(STEP_SAMPLES));
        results.push(t.process(says("hello world")).unwrap());
    }
    assert_eq!(
        results,
        vec![
            ProcessCycleResult::Updated,
            ProcessCycleResult::NoChange,
            ProcessCycleResult::NoChange
        ]
    );
    let mut results = Vec::new();
    for _ in 0..3 {
        t.add_samples(&quiet(STEP_SAMPLES));
        results.push(t.process(never_called).unwrap());
    }
    assert_eq!(
        results,
        vec![
            ProcessCycleResult::NoChange,
            ProcessCycleResult::NoChange,
            ProcessCycleResult::Committed
        ]
    );
    assert_eq!(t.get_transcript(), "hello world");
}

#[test]
fn segments_are_separated_by_a_blank_line() {
    let mut t = calibrated_engine();
    t.add_samples(&loud(STEP_SAMPLES));
    t.process(says("hello world")).unwrap();
    for _ in 0..3 {
        t.add_samples(&quiet(STEP_SAMPLES));
        t.process(never_called).unwrap();
    }
    t.add_samples(&loud(STEP_SAMPLES));
    assert_eq!(t.process(says("second part")).unwrap(), ProcessCycleResult::Updated);
    assert_eq!(t.get_transcript(), "hello world\n\nsecond part");
    assert_eq!(t.get_confirmed(), "hello world");
    assert_eq!(t.get_tentative(), "second part");
}

#[test]
fn hard_cap_forces_a_commit() {
    let mut t = calibrated_engine();
    t.add_samples(&loud(STEP_SAMPLES));
    t.process(says("hello world")).unwrap();
    t.add_samples(&loud(MAX_BUFFER_SAMPLES - STEP_SAMPLES));
    assert!(t.should_force_commit());
    assert_eq!(t.process(never_called).unwrap(), ProcessCycleResult::Committed);
    assert_eq!(t.get_confirmed(), "hello world");
    assert_eq!(t.get_tentative(), "");
    assert_eq!(t.buffer_len(), 0);
    assert!(!t.should_force_commit());
}

#[test]
fn hard_cap_applies_to_quiet_audio_too() {
    let mut t = calibrated_engine();
    t.add_samples(&quiet(MAX_BUFFER_SAMPLES));
    assert_eq!(t.process(never_called).unwrap(), ProcessCycleResult::Committed);
    assert_eq!(t.buffer_len(), 0);
    assert_eq!(t.get_transcript(), "");
}

#[test]
fn inference_failure_keeps_the_audio() {
    let mut t = calibrated_engine();
    t.add_samples(&loud(STEP_SAMPLES));
    let err: InferenceError = t
        .process(|_: &[i16]| Err("out of memory".to_string()))
        .unwrap_err();
    assert_eq!(err.message, "out of memory");
    assert_eq!(t.buffer_len(), STEP_SAMPLES);
    assert_eq!(t.get_transcript(), "");
    t.add_samples(&loud(STEP_SAMPLES));
    assert_eq!(t.process(says("retried")).unwrap(), ProcessCycleResult::Updated);
    assert_eq!(t.get_transcript(), "retried");
}

#[test]
fn whole_buffer_goes_to_the_model() {
    let mut t = calibrated_engine();
    t.add_samples(&loud(STEP_SAMPLES));
    t.process(says("one")).unwrap();
    t.add_samples(&loud(STEP_SAMPLES));
    let mut seen = 0;
    t.process(|s: &[i16]| {
        seen = s.len();
        Ok(vec!["one two".to_string()])
    })
    .unwrap();
    assert_eq!(seen, 2 * STEP_SAMPLES);
    assert_eq!(t.get_tentative(), "one two");
}

#[test]
fn segments_are_filtered_and_joined() {
    let mut t = calibrated_engine();
    let segs = vec![
        "[Music]".to_string(),
        " Good morning".to_string(),
        "   ".to_string(),
        "everyone here".to_string(),
        " thank you".to_string(),
        " and welcome back".to_string(),
    ];
    assert_eq!(t.apply_transcription(&segs), ProcessCycleResult::Updated);
    assert_eq!(
        t.get_tentative(),
        "Good morning everyone here and welcome back"
    );
    assert_eq!(t.apply_transcription(&segs), ProcessCycleResult::NoChange);
    let nothing = vec!["[BLANK_AUDIO]".to_string()];
    assert_eq!(t.apply_transcription(&nothing), ProcessCycleResult::NoChange);
    assert_eq!(
        t.get_tentative(),
        "Good morning everyone here and welcome back"
    );
}

#[test]
fn clear_returns_to_a_fresh_engine() {
    let mut t = LiveTranscriber::new();
    t.add_samples(&quiet(CALIBRATION_SAMPLES));
    t.add_samples(&loud(STEP_SAMPLES));
    t.process(says("hello world")).unwrap();
    assert_eq!(t.get_transcript(), "hello world");
    t.clear();
    assert_eq!(t.get_transcript(), "");
    assert!(!t.is_calibrated());
    assert_eq!(t.calibration_progress(), 0);
    assert_eq!(t.buffer_len(), 0);
    assert_eq!(t.vad_threshold(), MIN_VAD_ENERGY);
    t.clear();
    assert_eq!(t.get_transcript(), "");
    // It calibrates again as a new engine does.
    let mut fresh = LiveTranscriber::new();
    t.add_samples(&quiet(CALIBRATION_SAMPLES - 1600));
    fresh.add_samples(&quiet(CALIBRATION_SAMPLES - 1600));
    assert_eq!(t.calibration_progress(), fresh.calibration_progress());
    assert_eq!(t.is_calibrated(), fresh.is_calibrated());
}

#[test]
fn audio_after_the_target_inside_a_chunk_is_kept() {
    let mut t = LiveTranscriber::new();
    t.add_samples(&quiet(47000));
    assert!(!t.is_calibrated());
    t.add_samples(&quiet(3200));
    assert!(t.is_calibrated());
    assert_eq!(t.buffer_len(), 2200);
}

#[test]
fn no_space_before_punctuation() {
    let mut t = calibrated_engine();
    let segs = vec![
        "Hello there".to_string(),
        ", my friend".to_string(),
        "again".to_string(),
    ];
    assert_eq!(t.apply_transcription(&segs), ProcessCycleResult::Updated);
    assert_eq!(t.get_tentative(), "Hello there, my friend again");
}
