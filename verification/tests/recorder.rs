use croaker::audio::u32_to_decimal;
use croaker::audio::AudioError;
use croaker::audio::AudioRecorder;
use croaker::config::Config;

#[test]
fn start_twice_keeps_exactly_one_session() {
    let mut rec = AudioRecorder::new(Config::default());
    assert!(!rec.is_recording());

    let first = rec.start("/tmp/a.wav".to_string());
    assert!(first);
    assert!(rec.is_recording());

    // A second start without a stop is an idempotent no-op: no new session.
    let second = rec.start("/tmp/b.wav".to_string());
    assert!(!second);
    assert!(rec.is_recording());

    // The one active session is still the first one.
    let r = rec.stop(Some(42));
    assert_eq!(r.unwrap(), "/tmp/a.wav");
    assert!(!rec.is_recording());
}

#[test]
fn stop_on_empty_file_is_empty_recording() {
    let mut rec = AudioRecorder::new(Config::default());
    rec.start("/tmp/empty.wav".to_string());
    let r = rec.stop(Some(0));
    assert!(matches!(r, Err(AudioError::EmptyRecording)));
    assert!(!rec.is_recording());
}

#[test]
fn stop_without_session_is_no_active_session() {
    let mut rec = AudioRecorder::new(Config::default());
    let r = rec.stop(Some(10));
    assert!(matches!(r, Err(AudioError::NoActiveSession)));
}

#[test]
fn stop_on_unreadable_file_is_read_error() {
    let mut rec = AudioRecorder::new(Config::default());
    rec.start("/tmp/gone.wav".to_string());
    let r = rec.stop(None);
    assert!(matches!(r, Err(AudioError::ReadError(_))));
    assert!(!rec.is_recording());
}

#[test]
fn stop_hands_the_path_over_once() {
    let mut rec = AudioRecorder::new(Config::default());
    rec.start("/tmp/take.wav".to_string());
    assert_eq!(rec.stop(Some(1)).unwrap(), "/tmp/take.wav");
    // The session is gone; a second stop finds none.
    assert!(matches!(rec.stop(Some(1)), Err(AudioError::NoActiveSession)));
}

#[test]
fn capture_arguments_carry_the_configured_rate() {
    let rec = AudioRecorder::new(Config::default());
    assert_eq!(
        rec.capture_args("/tmp/out.wav"),
        vec!["--format=s16", "--rate=16000", "--channels=1", "/tmp/out.wav"]
    );

    let mut config = Config::default();
    config.audio.sample_rate = 44100;
    let rec = AudioRecorder::new(config);
    assert_eq!(rec.capture_args("x")[1], "--rate=44100");
}

#[test]
fn decimal_formatting_spot_checks() {
    assert_eq!(u32_to_decimal(0), "0");
    assert_eq!(u32_to_decimal(7), "7");
    assert_eq!(u32_to_decimal(10), "10");
    assert_eq!(u32_to_decimal(16000), "16000");
    assert_eq!(u32_to_decimal(u32::MAX), "4294967295");
}

#[test]
fn cleanup_is_safe_with_and_without_a_session() {
    let mut rec = AudioRecorder::new(Config::default());
    assert!(!rec.cleanup());
    rec.start("/tmp/c.wav".to_string());
    assert!(rec.cleanup());
    assert!(!rec.is_recording());
    assert!(!rec.cleanup());
}
