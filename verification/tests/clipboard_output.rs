use croaker::clipboard::ClipboardAction;
use croaker::clipboard::ClipboardOutput;
use croaker::clipboard::PasteFallback;
use croaker::clipboard::PasteMethod;
use croaker::clipboard::PasteToolOutcome;

#[test]
fn restore_off_never_reads_the_clipboard() {
    let out = ClipboardOutput::new(false);
    let plan = out.copy_plan("some text");
    assert_eq!(plan.len(), 1);
    for action in &plan {
        assert!(!matches!(action, ClipboardAction::ReadClipboard));
    }
    match &plan[0] {
        ClipboardAction::SetClipboard(s) => assert_eq!(s, "some text"),
        _ => panic!("expected the text to be placed on the clipboard"),
    }
}

#[test]
fn restore_on_snapshots_before_setting() {
    let out = ClipboardOutput::new(true);
    let plan = out.copy_plan("text");
    assert_eq!(plan.len(), 2);
    assert!(matches!(plan[0], ClipboardAction::ReadClipboard));
    assert!(matches!(&plan[1], ClipboardAction::SetClipboard(s) if s == "text"));
}

#[test]
fn snapshot_is_recorded_trimmed_and_only_when_enabled() {
    let mut out = ClipboardOutput::new(true);
    out.save_current(true, "  old contents\n");
    assert_eq!(out.saved_content.as_deref(), Some("old contents"));

    let mut off = ClipboardOutput::new(false);
    off.save_current(true, "whatever");
    assert!(off.saved_content.is_none());

    let mut failed = ClipboardOutput::new(true);
    failed.save_current(false, "ignored");
    assert!(failed.saved_content.is_none());
}

#[test]
fn wayland_prefers_the_native_paste_tool() {
    assert_eq!(ClipboardOutput::paste_method(true), PasteMethod::PasteTool);
    assert_eq!(ClipboardOutput::paste_method(false), PasteMethod::UinputChord);
}

#[test]
fn paste_tool_outcomes_are_classified_by_what_happened() {
    assert_eq!(
        ClipboardOutput::classify_paste_tool_result(false, false, ""),
        PasteToolOutcome::ToolMissing
    );
    assert_eq!(
        ClipboardOutput::classify_paste_tool_result(true, true, ""),
        PasteToolOutcome::Succeeded
    );
    assert_eq!(
        ClipboardOutput::classify_paste_tool_result(
            true,
            false,
            "compositor does not support the virtual keyboard protocol"
        ),
        PasteToolOutcome::ProtocolUnsupported
    );
    assert_eq!(
        ClipboardOutput::classify_paste_tool_result(true, false, "connection refused"),
        PasteToolOutcome::OtherFailure
    );
}

#[test]
fn fallback_tiers_match_the_outcomes() {
    assert_eq!(
        ClipboardOutput::paste_fallback(PasteToolOutcome::Succeeded),
        PasteFallback::Done
    );
    // A missing protocol and an absent tool both chord best-effort: a chord
    // failure ends in the manual-paste notice, not in an error.
    assert_eq!(
        ClipboardOutput::paste_fallback(PasteToolOutcome::ProtocolUnsupported),
        PasteFallback::ChordBestEffort
    );
    assert_eq!(
        ClipboardOutput::paste_fallback(PasteToolOutcome::ToolMissing),
        PasteFallback::ChordBestEffort
    );
    assert_eq!(
        ClipboardOutput::paste_fallback(PasteToolOutcome::OtherFailure),
        PasteFallback::ChordRequired
    );
}

#[test]
fn manual_paste_notice_text() {
    assert_eq!(
        ClipboardOutput::manual_paste_notice(),
        "Text ready! Press Ctrl+V to paste."
    );
}
