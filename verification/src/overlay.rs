//! Visual feedback: what each backend shows for each daemon state. The
//! desktop-notification calls and the tray service run outside; the icon
//! names, colors, messages and tooltips they display are decided here.
use vstd::prelude::*;
use crate::state::DaemonState;
use crate::text::ascii_upper;
use crate::text::upper_char;

verus! {

#[derive(Debug)]
pub enum OverlayError {
    Error(String),
    InitError,
}

/// The desktop-notification backend; it tracks the notification it last put
/// up so the next one can replace it.
pub struct NotificationOverlay {
    pub current_notification_id: Option<u32>,
}

/// The notification (message, urgency) shown when the daemon enters a state;
/// entering `Idle` shows none — the current notification is closed instead.
pub open spec fn spec_notification_for_state(s: DaemonState) -> Option<(Seq<char>, Seq<char>)> {
    match s {
        DaemonState::Recording => Some(("Recording..."@, "normal"@)),
        DaemonState::Processing => Some(("Processing..."@, "normal"@)),
        DaemonState::Outputting => Some(("Outputting..."@, "normal"@)),
        DaemonState::Idle => None,
    }
}

impl NotificationOverlay {
    pub fn new() -> (r: Result<Self, OverlayError>)
        ensures
            r matches Ok(o) && o.current_notification_id is None,
    {
        Ok(NotificationOverlay { current_notification_id: None })
    }

    /// The message and urgency to show for a state, or nothing for `Idle`.
    pub fn notification_for_state(state: DaemonState) -> (r: Option<(String, String)>)
        ensures
            spec_notification_for_state(state) is None <==> r is None,
            r matches Some(t) ==> spec_notification_for_state(state) == Some((t.0@, t.1@)),
    {
        match state {
            DaemonState::Recording => Some(
                (String::from_str("Recording..."), String::from_str("normal")),
            ),
            DaemonState::Processing => Some(
                (String::from_str("Processing..."), String::from_str("normal")),
            ),
            DaemonState::Outputting => Some(
                (String::from_str("Outputting..."), String::from_str("normal")),
            ),
            DaemonState::Idle => None,
        }
    }

    /// Remember (or forget) the notification id the notification tool
    /// reported, so the next notification can replace the one on screen.
    pub fn set_notification_id(&mut self, id: Option<u32>)
        ensures
            final(self).current_notification_id == id,
    {
        self.current_notification_id = id;
    }
}

/// The layer-shell backend is not built into this daemon; constructing it
/// always reports that, and the caller falls back to another backend.
pub struct LayerShellOverlay;

impl LayerShellOverlay {
    pub fn new() -> (r: Result<LayerShellOverlay, OverlayError>)
        ensures
            r matches Err(e) && e is InitError,
    {
        Err(OverlayError::InitError)
    }
}

/// The system-tray state: the daemon phase plus the output-mode and language
/// labels, from which the tray's icon, color and tooltip are derived.
pub struct CroakerTray {
    pub daemon_state: DaemonState,
    pub output_mode: String,
    pub language: String,
}

/// The freedesktop icon name shown for each state.
pub open spec fn spec_tray_icon_name(s: DaemonState) -> Seq<char> {
    match s {
        DaemonState::Idle => "audio-input-microphone"@,
        DaemonState::Recording => "media-record"@,
        DaemonState::Processing => "view-refresh"@,
        DaemonState::Outputting => "dialog-ok"@,
    }
}

/// The status word shown for each state in the tooltip.
pub open spec fn spec_tray_status(s: DaemonState) -> Seq<char> {
    match s {
        DaemonState::Idle => "Ready"@,
        DaemonState::Recording => "Recording..."@,
        DaemonState::Processing => "Processing..."@,
        DaemonState::Outputting => "Outputting..."@,
    }
}

/// The icon's RGB color for each state: grey when idle, red while recording,
/// orange while processing, green while outputting.
pub open spec fn spec_tray_color(s: DaemonState) -> (u8, u8, u8) {
    match s {
        DaemonState::Idle => (128u8, 128u8, 128u8),
        DaemonState::Recording => (255u8, 60u8, 60u8),
        DaemonState::Processing => (255u8, 180u8, 60u8),
        DaemonState::Outputting => (60u8, 200u8, 60u8),
    }
}

impl CroakerTray {
    pub fn new() -> (r: Self)
        ensures
            r.daemon_state == DaemonState::Idle,
            r.output_mode@ == "Both"@,
            r.language@ == "en"@,
    {
        CroakerTray {
            daemon_state: DaemonState::Idle,
            output_mode: String::from_str("Both"),
            language: String::from_str("en"),
        }
    }

    pub fn get_icon_name(&self) -> (r: String)
        ensures
            r@ == spec_tray_icon_name(self.daemon_state),
    {
        match self.daemon_state {
            DaemonState::Idle => String::from_str("audio-input-microphone"),
            DaemonState::Recording => String::from_str("media-record"),
            DaemonState::Processing => String::from_str("view-refresh"),
            DaemonState::Outputting => String::from_str("dialog-ok"),
        }
    }

    pub fn get_color(&self) -> (r: (u8, u8, u8))
        ensures
            r == spec_tray_color(self.daemon_state),
    {
        match self.daemon_state {
            DaemonState::Idle => (128, 128, 128),
            DaemonState::Recording => (255, 60, 60),
            DaemonState::Processing => (255, 180, 60),
            DaemonState::Outputting => (60, 200, 60),
        }
    }

    /// The tooltip: the status word, then the output mode, then the language
    /// in upper case.
    pub fn get_tooltip(&self) -> (r: String)
        ensures
            r@ == "Croaker: "@ + spec_tray_status(self.daemon_state) + "\nMode: "@
                + self.output_mode@ + " | Lang: "@ + Seq::new(
                self.language@.len(),
                |i: int| upper_char(self.language@[i]),
            ),
    {
        let mut out = String::from_str("Croaker: ");
        match self.daemon_state {
            DaemonState::Idle => out.append("Ready"),
            DaemonState::Recording => out.append("Recording..."),
            DaemonState::Processing => out.append("Processing..."),
            DaemonState::Outputting => out.append("Outputting..."),
        }
        out.append("\nMode: ");
        out.append(self.output_mode.as_str());
        out.append(" | Lang: ");
        let upper = ascii_upper(self.language.as_str());
        out.append(upper.as_str());
        proof {
            assert(upper@ =~= Seq::new(
                self.language@.len(),
                |i: int| upper_char(self.language@[i]),
            ));
        }
        out
    }
}

} // verus!
