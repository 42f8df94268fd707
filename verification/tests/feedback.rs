use croaker::overlay::CroakerTray;
use croaker::overlay::LayerShellOverlay;
use croaker::overlay::NotificationOverlay;
use croaker::overlay::OverlayError;
use croaker::state::DaemonState;

#[test]
fn tray_starts_idle_with_default_labels() {
    let tray = CroakerTray::new();
    assert_eq!(tray.daemon_state, DaemonState::Idle);
    assert_eq!(tray.output_mode, "Both");
    assert_eq!(tray.language, "en");
}

#[test]
fn tray_icon_follows_the_state() {
    let mut tray = CroakerTray::new();
    assert_eq!(tray.get_icon_name(), "audio-input-microphone");
    tray.daemon_state = DaemonState::Recording;
    assert_eq!(tray.get_icon_name(), "media-record");
    tray.daemon_state = DaemonState::Processing;
    assert_eq!(tray.get_icon_name(), "view-refresh");
    tray.daemon_state = DaemonState::Outputting;
    assert_eq!(tray.get_icon_name(), "dialog-ok");
}

#[test]
fn tray_color_follows_the_state() {
    let mut tray = CroakerTray::new();
    assert_eq!(tray.get_color(), (128, 128, 128));
    tray.daemon_state = DaemonState::Recording;
    assert_eq!(tray.get_color(), (255, 60, 60));
    tray.daemon_state = DaemonState::Processing;
    assert_eq!(tray.get_color(), (255, 180, 60));
    tray.daemon_state = DaemonState::Outputting;
    assert_eq!(tray.get_color(), (60, 200, 60));
}

#[test]
fn tray_tooltip_shows_status_mode_and_uppercased_language() {
    let mut tray = CroakerTray::new();
    assert_eq!(tray.get_tooltip(), "Croaker: Ready\nMode: Both | Lang: EN");
    tray.daemon_state = DaemonState::Recording;
    tray.output_mode = "Direct".to_string();
    tray.language = "tr".to_string();
    assert_eq!(tray.get_tooltip(), "Croaker: Recording...\nMode: Direct | Lang: TR");
}

#[test]
fn notifications_exist_for_every_state_but_idle() {
    assert!(NotificationOverlay::notification_for_state(DaemonState::Idle).is_none());
    let (msg, urgency) =
        NotificationOverlay::notification_for_state(DaemonState::Recording).unwrap();
    assert_eq!(msg, "Recording...");
    assert_eq!(urgency, "normal");
    let (msg, _) = NotificationOverlay::notification_for_state(DaemonState::Processing).unwrap();
    assert_eq!(msg, "Processing...");
    let (msg, _) = NotificationOverlay::notification_for_state(DaemonState::Outputting).unwrap();
    assert_eq!(msg, "Outputting...");
}

#[test]
fn notification_overlay_tracks_its_replace_id() {
    let mut overlay = NotificationOverlay::new().unwrap();
    assert!(overlay.current_notification_id.is_none());
    overlay.set_notification_id(Some(7));
    assert_eq!(overlay.current_notification_id, Some(7));
    overlay.set_notification_id(None);
    assert!(overlay.current_notification_id.is_none());
}

#[test]
fn layer_shell_backend_reports_unavailable() {
    assert!(matches!(LayerShellOverlay::new(), Err(OverlayError::InitError)));
}
