use croaker::config::Config;
use croaker::uinput::KeyTransition;
use croaker::uinput::Keystroke;
use croaker::uinput::RawEvent;
use croaker::uinput::UinputError;
use croaker::uinput::UinputKeyboard;

fn keyboard() -> UinputKeyboard {
    UinputKeyboard::new(&Config::default())
}

#[test]
fn hello_bang_maps_to_six_keystrokes_two_shifted() {
    let kb = keyboard();
    let plan = kb.type_text("Hello!");
    assert!(plan.rejected.is_none());
    // H(shift) - e - l - l - o - !(shift)
    let expected = [
        Keystroke { code: 37, shift: true },
        Keystroke { code: 34, shift: false },
        Keystroke { code: 41, shift: false },
        Keystroke { code: 41, shift: false },
        Keystroke { code: 44, shift: false },
        Keystroke { code: 2, shift: true },
    ];
    assert_eq!(plan.keys.len(), 6);
    assert_eq!(plan.keys.iter().filter(|k| k.shift).count(), 2);
    for (got, want) in plan.keys.iter().zip(expected.iter()) {
        assert_eq!(got, want);
    }
}

#[test]
fn non_ascii_stops_after_typing_the_prefix() {
    let kb = keyboard();
    let plan = kb.type_text("ab\u{e9}cd");
    // The two characters before the offending one are planned (and typed);
    // nothing after it is.
    assert_eq!(plan.keys.len(), 2);
    assert_eq!(plan.keys[0], Keystroke { code: 30, shift: false });
    assert_eq!(plan.keys[1], Keystroke { code: 31, shift: false });
    assert_eq!(plan.rejected, Some('\u{e9}'));
}

#[test]
fn unmapped_ascii_control_character_is_rejected_too() {
    let kb = keyboard();
    let plan = kb.type_text("a\rb");
    assert_eq!(plan.keys.len(), 1);
    assert_eq!(plan.rejected, Some('\r'));

    let r = kb.char_to_keycode('\r');
    assert!(matches!(r, Err(UinputError::UnsupportedChar('\r'))));
}

#[test]
fn newline_and_tab_have_dedicated_keys() {
    let kb = keyboard();
    let plan = kb.type_text("a\n\tb");
    assert!(plan.rejected.is_none());
    assert_eq!(
        plan.keys,
        vec![
            Keystroke { code: 30, shift: false },
            Keystroke { code: 28, shift: false },
            Keystroke { code: 15, shift: false },
            Keystroke { code: 31, shift: false },
        ]
    );
}

#[test]
fn character_table_spot_checks() {
    let kb = keyboard();
    assert_eq!(kb.char_to_keycode('a').unwrap(), (30, false));
    assert_eq!(kb.char_to_keycode('A').unwrap(), (30, true));
    assert_eq!(kb.char_to_keycode('z').unwrap(), (55, false));
    assert_eq!(kb.char_to_keycode('0').unwrap(), (11, false));
    assert_eq!(kb.char_to_keycode('1').unwrap(), (2, false));
    assert_eq!(kb.char_to_keycode('9').unwrap(), (10, false));
    assert_eq!(kb.char_to_keycode(' ').unwrap(), (57, false));
    assert_eq!(kb.char_to_keycode('!').unwrap(), (2, true));
    assert_eq!(kb.char_to_keycode(')').unwrap(), (11, true));
    assert_eq!(kb.char_to_keycode('?').unwrap(), (53, true));
    assert_eq!(kb.char_to_keycode('\'').unwrap(), (40, false));
}

#[test]
fn shifted_keystroke_wraps_the_key_in_shift() {
    let kb = keyboard();
    let v = kb.keystroke_transitions(Keystroke { code: 37, shift: true });
    assert_eq!(
        v,
        vec![
            KeyTransition { code: 42, press: true },
            KeyTransition { code: 37, press: true },
            KeyTransition { code: 37, press: false },
            KeyTransition { code: 42, press: false },
        ]
    );

    let v = kb.keystroke_transitions(Keystroke { code: 34, shift: false });
    assert_eq!(
        v,
        vec![
            KeyTransition { code: 34, press: true },
            KeyTransition { code: 34, press: false },
        ]
    );
}

#[test]
fn paste_chord_is_ctrl_v_in_order() {
    let kb = keyboard();
    let v = kb.send_paste();
    assert_eq!(
        v,
        vec![
            KeyTransition { code: 29, press: true },
            KeyTransition { code: 47, press: true },
            KeyTransition { code: 47, press: false },
            KeyTransition { code: 29, press: false },
        ]
    );
}

#[test]
fn each_transition_writes_key_event_then_sync() {
    let kb = keyboard();
    let v = kb.transition_records(KeyTransition { code: 47, press: true });
    assert_eq!(
        v,
        vec![
            RawEvent { ev_type: 1, code: 47, value: 1 },
            RawEvent { ev_type: 0, code: 0, value: 0 },
        ]
    );
    let v = kb.transition_records(KeyTransition { code: 47, press: false });
    assert_eq!(v[0], RawEvent { ev_type: 1, code: 47, value: 0 });
}

#[test]
fn keystroke_delay_comes_from_configuration() {
    let mut config = Config::default();
    config.output.keystroke_delay_ms = 17;
    let kb = UinputKeyboard::new(&config);
    assert_eq!(kb.delay_ms, 17);
}
