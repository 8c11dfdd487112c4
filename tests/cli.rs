use adlib::cli::Args;
use log::LevelFilter;

#[test]
fn log_level_follows_flags() {
    let args = |verbose: u8, quiet: bool| Args { verbose, quiet };
    assert_eq!(args(0, false).log_level(), LevelFilter::Warn);
    assert_eq!(args(1, false).log_level(), LevelFilter::Info);
    assert_eq!(args(2, false).log_level(), LevelFilter::Debug);
    assert_eq!(args(3, false).log_level(), LevelFilter::Trace);
    assert_eq!(args(9, false).log_level(), LevelFilter::Trace);
    assert_eq!(args(3, true).log_level(), LevelFilter::Error);
}

#[test]
fn whisper_verbose_from_three_flags() {
    assert!(!Args { verbose: 2, quiet: false }.whisper_verbose());
    assert!(Args { verbose: 3, quiet: false }.whisper_verbose());
    assert!(Args { verbose: 4, quiet: true }.whisper_verbose());
}
