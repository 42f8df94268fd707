//! Clipboard output path: what to put on the clipboard, when the previous
//! contents are snapshotted, and the three-tier paste fallback — native paste
//! tool, then the virtual-keyboard chord, then a notice asking the user to
//! paste by hand. The external utilities themselves run outside; every
//! decision between them is made here.
use vstd::prelude::*;
use crate::text::contains_seq;
use crate::text::str_contains;
use crate::text::trim_spec;
use crate::text::trim_str;
use crate::uinput::UinputError;

verus! {

#[derive(Debug)]
pub enum ClipboardError {
    CopyError(String),
    PasteError(String),
    UinputError(UinputError),
}

/// A clipboard operation the caller is asked to perform.
#[derive(Debug)]
pub enum ClipboardAction {
    /// Read the clipboard's current contents (only ever asked for when the
    /// restore flag is on).
    ReadClipboard,
    /// Place this text on the clipboard.
    SetClipboard(String),
}

/// Which mechanism attempts the paste first.
#[derive(Clone, Copy, Debug, PartialEq, Eq, Structural)]
pub enum PasteMethod {
    /// The display server's native virtual-keyboard paste utility.
    PasteTool,
    /// A Ctrl+V chord through the synthetic keyboard.
    UinputChord,
}

/// How a run of the native paste tool ended, as the caller observed it.
#[derive(Clone, Copy, Debug, PartialEq, Eq, Structural)]
pub enum PasteToolOutcome {
    Succeeded,
    /// The tool ran and said the compositor lacks the virtual-keyboard
    /// protocol.
    ProtocolUnsupported,
    /// The tool ran and failed for any other reason.
    OtherFailure,
    /// The tool could not be started at all.
    ToolMissing,
}

/// What to do after the native paste tool's outcome is known.
#[derive(Clone, Copy, Debug, PartialEq, Eq, Structural)]
pub enum PasteFallback {
    /// The paste went through; nothing more to do.
    Done,
    /// Try the chord; if that also fails, show the manual-paste notice and
    /// report success anyway — the text is safe on the clipboard.
    ChordBestEffort,
    /// Try the chord; a failure there is the operation's failure.
    ChordRequired,
}

pub struct ClipboardOutput {
    pub restore_enabled: bool,
    pub saved_content: Option<String>,
}

impl ClipboardOutput {
    pub fn new(restore_enabled: bool) -> (r: Self)
        ensures
            r.restore_enabled == restore_enabled,
            r.saved_content is None,
    {
        ClipboardOutput { restore_enabled, saved_content: None }
    }

    /// The clipboard operations that begin a copy-and-paste: a snapshot read
    /// first when (and only when) the restore flag is on, then placing the
    /// text. With the restore flag off, no clipboard read is ever asked for.
    pub fn copy_plan(&self, text: &str) -> (v: Vec<ClipboardAction>)
        ensures
            self.restore_enabled ==> v@.len() == 2 && v@[0] is ReadClipboard && (v@[1] matches
                ClipboardAction::SetClipboard(s) && s@ == text@),
            !self.restore_enabled ==> v@.len() == 1 && (v@[0] matches
                ClipboardAction::SetClipboard(s) && s@ == text@),
            !self.restore_enabled ==> forall|i: int|
                0 <= i < v@.len() ==> !(v@[i] is ReadClipboard),
    {
        let mut v: Vec<ClipboardAction> = Vec::new();
        if self.restore_enabled {
            v.push(ClipboardAction::ReadClipboard);
        }
        v.push(ClipboardAction::SetClipboard(String::from_str(text)));
        v
    }

    /// Record what a snapshot read returned. Without the restore flag, or
    /// after a failed read, nothing changes.
    pub fn save_current(&mut self, read_ok: bool, content: &str)
        ensures
            final(self).restore_enabled == old(self).restore_enabled,
            !old(self).restore_enabled ==> *final(self) == *old(self),
            old(self).restore_enabled && read_ok ==> (final(self).saved_content matches Some(s)
                && s@ == trim_spec(content@)),
            old(self).restore_enabled && !read_ok ==> final(self).saved_content == old(
                self,
            ).saved_content,
    {
        if self.restore_enabled && read_ok {
            self.saved_content = Some(trim_str(content));
        }
    }

    /// Which paste mechanism to try first: the native tool under the newer
    /// display protocol, the synthetic chord under the older one.
    pub fn paste_method(is_wayland: bool) -> (r: PasteMethod)
        ensures
            is_wayland <==> r == PasteMethod::PasteTool,
            !is_wayland <==> r == PasteMethod::UinputChord,
    {
        if is_wayland {
            PasteMethod::PasteTool
        } else {
            PasteMethod::UinputChord
        }
    }

    /// Classify how the native paste tool fared. `spawned` says whether the
    /// tool could be started, `success` whether it exited cleanly, and
    /// `stderr` is what it printed; the compositor's missing
    /// virtual-keyboard protocol is recognized from the latter.
    pub fn classify_paste_tool_result(spawned: bool, success: bool, stderr: &str) -> (r:
        PasteToolOutcome)
        ensures
            !spawned ==> r == PasteToolOutcome::ToolMissing,
            spawned && success ==> r == PasteToolOutcome::Succeeded,
            spawned && !success && contains_seq(stderr@, "virtual keyboard protocol"@) ==> r
                == PasteToolOutcome::ProtocolUnsupported,
            spawned && !success && !contains_seq(stderr@, "virtual keyboard protocol"@) ==> r
                == PasteToolOutcome::OtherFailure,
    {
        if !spawned {
            PasteToolOutcome::ToolMissing
        } else if success {
            PasteToolOutcome::Succeeded
        } else if str_contains(stderr, "virtual keyboard protocol") {
            PasteToolOutcome::ProtocolUnsupported
        } else {
            PasteToolOutcome::OtherFailure
        }
    }

    /// The tier to fall back to for each outcome of the native paste tool.
    /// A tool that is altogether absent and a tool that reports the missing
    /// virtual-keyboard protocol take the same best-effort path: the chord is
    /// tried, a chord failure ends in the manual-paste notice, and the
    /// operation still succeeds — the text stays on the clipboard.
    pub fn paste_fallback(outcome: PasteToolOutcome) -> (r: PasteFallback)
        ensures
            outcome == PasteToolOutcome::Succeeded <==> r == PasteFallback::Done,
            (outcome == PasteToolOutcome::ProtocolUnsupported || outcome
                == PasteToolOutcome::ToolMissing) <==> r == PasteFallback::ChordBestEffort,
            outcome == PasteToolOutcome::OtherFailure <==> r == PasteFallback::ChordRequired,
    {
        match outcome {
            PasteToolOutcome::Succeeded => PasteFallback::Done,
            PasteToolOutcome::ProtocolUnsupported => PasteFallback::ChordBestEffort,
            PasteToolOutcome::ToolMissing => PasteFallback::ChordBestEffort,
            PasteToolOutcome::OtherFailure => PasteFallback::ChordRequired,
        }
    }

    /// The notice shown when no automatic paste went through and the text is
    /// waiting on the clipboard.
    pub fn manual_paste_notice() -> (r: String)
        ensures
            r@ == "Text ready! Press Ctrl+V to paste."@,
    {
        String::from_str("Text ready! Press Ctrl+V to paste.")
    }
}

} // verus!
