use croaker::socket::Command;
use croaker::socket::SocketError;
use croaker::socket::socket_path;
use croaker::state::DaemonState;
use croaker::state::StateEvent;

#[test]
fn the_five_commands_parse() {
    assert_eq!(Command::parse("toggle").unwrap(), Command::Toggle);
    assert_eq!(Command::parse("cancel").unwrap(), Command::Cancel);
    assert_eq!(Command::parse("status").unwrap(), Command::Status);
    assert_eq!(Command::parse("toggle-output-mode").unwrap(), Command::ToggleOutputMode);
    assert_eq!(Command::parse("toggle-language").unwrap(), Command::ToggleLanguage);
}

#[test]
fn parse_trims_the_received_line() {
    assert_eq!(Command::parse("toggle\n").unwrap(), Command::Toggle);
    assert_eq!(Command::parse("  status \r\n").unwrap(), Command::Status);
}

#[test]
fn unknown_commands_are_rejected() {
    assert!(matches!(Command::parse("restart"), Err(SocketError::ParseError(_))));
    assert!(matches!(Command::parse(""), Err(SocketError::ParseError(_))));
    assert!(matches!(Command::parse("TOGGLE"), Err(SocketError::ParseError(_))));
}

#[test]
fn commands_map_to_their_events() {
    assert!(matches!(Command::Toggle.event(), Some(StateEvent::StartRecording)));
    assert!(matches!(Command::Cancel.event(), Some(StateEvent::Cancel)));
    assert!(Command::Status.event().is_none());
    assert!(matches!(Command::ToggleOutputMode.event(), Some(StateEvent::ToggleOutputMode)));
    assert!(matches!(Command::ToggleLanguage.event(), Some(StateEvent::ToggleLanguage)));
}

#[test]
fn replies_are_ok_or_the_state_name() {
    assert_eq!(Command::Toggle.reply(DaemonState::Idle), "ok");
    assert_eq!(Command::Cancel.reply(DaemonState::Recording), "ok");
    assert_eq!(Command::Status.reply(DaemonState::Idle), "Idle");
    assert_eq!(Command::Status.reply(DaemonState::Recording), "Recording");
    assert_eq!(Command::Status.reply(DaemonState::Processing), "Processing");
    assert_eq!(Command::Status.reply(DaemonState::Outputting), "Outputting");
}

#[test]
fn socket_path_when_available_ends_with_the_fixed_suffix() {
    match socket_path() {
        Ok(p) => assert!(p.ends_with("/croaker/croaker.sock")),
        Err(e) => assert!(matches!(e, SocketError::CreateError(_))),
    }
}
