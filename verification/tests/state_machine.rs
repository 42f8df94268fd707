use croaker::config::Config;
use croaker::config::OutputMode;
use croaker::state::Action;
use croaker::state::DaemonState;
use croaker::state::StateError;
use croaker::state::StateEvent;
use croaker::state::StateMachine;
use croaker::state::typing_follow_up;
use croaker::state::use_clipboard_output;
use croaker::state::TypingFollowUp;
use croaker::uinput::UinputError;

fn machine() -> StateMachine {
    StateMachine::new(Config::default())
}

#[test]
fn full_cycle_follows_the_table() {
    let mut m = machine();
    assert_eq!(m.state(), DaemonState::Idle);

    let r = m.handle_event(StateEvent::StartRecording);
    assert!(matches!(r, Ok(Some(Action::StartCapture))));
    assert_eq!(m.state(), DaemonState::Recording);

    let r = m.handle_event(StateEvent::StopRecording);
    assert!(matches!(r, Ok(Some(Action::StopCapture))));
    assert_eq!(m.state(), DaemonState::Processing);

    let r = m.handle_event(StateEvent::ProcessingComplete("hello".to_string()));
    match r {
        Ok(Some(Action::DispatchOutput(text))) => assert_eq!(text, "hello"),
        other => panic!("unexpected transition result: {:?}", other.is_ok()),
    }
    assert_eq!(m.state(), DaemonState::Outputting);

    let r = m.handle_event(StateEvent::OutputComplete);
    assert!(matches!(r, Ok(None)));
    assert_eq!(m.state(), DaemonState::Idle);
}

#[test]
fn cancel_returns_to_idle_from_each_active_state() {
    for reach in 1..=3 {
        let mut m = machine();
        m.handle_event(StateEvent::StartRecording).unwrap();
        if reach >= 2 {
            m.handle_event(StateEvent::StopRecording).unwrap();
        }
        if reach >= 3 {
            m.handle_event(StateEvent::ProcessingComplete(String::new())).unwrap();
        }
        let r = m.handle_event(StateEvent::Cancel);
        assert!(matches!(r, Ok(Some(Action::CancelCapture))));
        assert_eq!(m.state(), DaemonState::Idle);
    }
}

#[test]
fn invalid_pairs_leave_state_unchanged() {
    // Idle rejects everything but StartRecording and the toggles.
    let mut m = machine();
    for ev in [
        StateEvent::StopRecording,
        StateEvent::Cancel,
        StateEvent::ProcessingComplete(String::new()),
        StateEvent::OutputComplete,
    ] {
        let r = m.handle_event(ev);
        assert!(matches!(r, Err(StateError::InvalidTransition)));
        assert_eq!(m.state(), DaemonState::Idle);
    }

    // Recording rejects StartRecording, ProcessingComplete and OutputComplete.
    m.handle_event(StateEvent::StartRecording).unwrap();
    for ev in [
        StateEvent::StartRecording,
        StateEvent::ProcessingComplete(String::new()),
        StateEvent::OutputComplete,
    ] {
        let r = m.handle_event(ev);
        assert!(matches!(r, Err(StateError::InvalidTransition)));
        assert_eq!(m.state(), DaemonState::Recording);
    }

    // Processing rejects StartRecording, StopRecording and OutputComplete.
    m.handle_event(StateEvent::StopRecording).unwrap();
    for ev in [
        StateEvent::StartRecording,
        StateEvent::StopRecording,
        StateEvent::OutputComplete,
    ] {
        let r = m.handle_event(ev);
        assert!(matches!(r, Err(StateError::InvalidTransition)));
        assert_eq!(m.state(), DaemonState::Processing);
    }

    // Outputting rejects StartRecording, StopRecording and ProcessingComplete.
    m.handle_event(StateEvent::ProcessingComplete(String::new())).unwrap();
    for ev in [
        StateEvent::StartRecording,
        StateEvent::StopRecording,
        StateEvent::ProcessingComplete(String::new()),
    ] {
        let r = m.handle_event(ev);
        assert!(matches!(r, Err(StateError::InvalidTransition)));
        assert_eq!(m.state(), DaemonState::Outputting);
    }
}

#[test]
fn output_mode_toggle_cycles_and_keeps_state() {
    let mut m = machine();
    assert_eq!(m.output_mode, OutputMode::Both);
    m.handle_event(StateEvent::ToggleOutputMode).unwrap();
    assert_eq!(m.output_mode, OutputMode::Direct);
    m.handle_event(StateEvent::ToggleOutputMode).unwrap();
    assert_eq!(m.output_mode, OutputMode::Clipboard);
    m.handle_event(StateEvent::ToggleOutputMode).unwrap();
    assert_eq!(m.output_mode, OutputMode::Both);
    assert_eq!(m.state(), DaemonState::Idle);

    // Also accepted mid-session, without disturbing the phase.
    m.handle_event(StateEvent::StartRecording).unwrap();
    m.handle_event(StateEvent::ToggleOutputMode).unwrap();
    assert_eq!(m.state(), DaemonState::Recording);
}

#[test]
fn language_toggle_walks_the_configured_list() {
    let mut m = machine();
    // The default list is en, tr, es, fr, de and the default language is en.
    assert_eq!(m.current_language(), "en");
    m.handle_event(StateEvent::ToggleLanguage).unwrap();
    assert_eq!(m.current_language(), "tr");
    for _ in 0..4 {
        m.handle_event(StateEvent::ToggleLanguage).unwrap();
    }
    assert_eq!(m.current_language(), "en");
}

#[test]
fn initial_language_index_finds_the_configured_language() {
    let mut config = Config::default();
    config.general.language = "fr".to_string();
    let m = StateMachine::new(config);
    assert_eq!(m.current_language(), "fr");

    let mut config = Config::default();
    config.general.language = "xx".to_string();
    let m = StateMachine::new(config);
    // Not in the list: the cycle starts at the front.
    assert_eq!(m.current_language(), "en");
}

#[test]
fn any_typing_failure_falls_back_to_the_clipboard() {
    assert_eq!(typing_follow_up(&Ok(())), TypingFollowUp::Complete);
    assert_eq!(
        typing_follow_up(&Err(UinputError::UnsupportedChar('\u{e9}'))),
        TypingFollowUp::ClipboardFallback
    );
    assert_eq!(
        typing_follow_up(&Err(UinputError::WriteError("device gone".to_string()))),
        TypingFollowUp::ClipboardFallback
    );
    assert_eq!(
        typing_follow_up(&Err(UinputError::OpenError("no permission".to_string()))),
        TypingFollowUp::ClipboardFallback
    );
}

#[test]
fn clipboard_routing_follows_display_server_and_ascii() {
    assert!(use_clipboard_output(true, "plain ascii"));
    assert!(!use_clipboard_output(false, "plain ascii"));
    assert!(use_clipboard_output(false, "caf\u{e9}"));
    assert!(use_clipboard_output(true, "caf\u{e9}"));
    assert!(!use_clipboard_output(false, ""));
}
