//! Kernel key-event monitor: recognizes which input device is a keyboard,
//! parses the configured push-to-talk key and chord strings, and turns the
//! raw press/release/repeat stream into daemon commands. The device reads
//! themselves happen outside on a dedicated thread; every decision about an
//! event is made here.
use vstd::prelude::*;
use crate::config::Config;
use crate::state::StateEvent;
use crate::text::contains_seq_ci;
use crate::text::seq_eqi;
use crate::text::split_plus;
use crate::text::split_plus_str;
use crate::text::str_contains_ignore_case;
use crate::text::str_eq_ignore_case;
use crate::text::trim_spec;
use crate::text::trim_str;

verus! {

#[derive(Debug)]
pub enum EvdevError {
    OpenError(String),
    NoDevice,
    ParseKeyError(String),
    ParseShortcutError(String),
}

// Linux input event codes for the modifier keys the monitor tracks.
pub const KEY_LEFTCTRL_CODE: u16 = 29;
pub const KEY_LEFTSHIFT_CODE: u16 = 42;
pub const KEY_RIGHTSHIFT_CODE: u16 = 54;
pub const KEY_LEFTALT_CODE: u16 = 56;
pub const KEY_RIGHTCTRL_CODE: u16 = 97;
pub const KEY_RIGHTALT_CODE: u16 = 100;

/// A parsed chord: an optional shift requirement, an optional non-shift
/// modifier, and the mandatory main key.
#[derive(Clone, Copy, Debug)]
pub struct KeyBinding {
    pub needs_shift: bool,
    pub modifier_key_code: Option<u16>,
    pub main_key_code: u16,
}

/// The key code a configurable key name stands for; only modifier keys can
/// be push-to-talk keys.
pub open spec fn spec_key_name_code(s: Seq<char>) -> Option<u16> {
    if seq_eqi(s, "rightalt"@) || seq_eqi(s, "alt_r"@) {
        Some(KEY_RIGHTALT_CODE)
    } else if seq_eqi(s, "leftalt"@) || seq_eqi(s, "alt_l"@) {
        Some(KEY_LEFTALT_CODE)
    } else if seq_eqi(s, "rightctrl"@) || seq_eqi(s, "ctrl_r"@) {
        Some(KEY_RIGHTCTRL_CODE)
    } else if seq_eqi(s, "leftctrl"@) || seq_eqi(s, "ctrl_l"@) {
        Some(KEY_LEFTCTRL_CODE)
    } else if seq_eqi(s, "rightshift"@) || seq_eqi(s, "shift_r"@) {
        Some(KEY_RIGHTSHIFT_CODE)
    } else if seq_eqi(s, "leftshift"@) || seq_eqi(s, "shift_l"@) {
        Some(KEY_LEFTSHIFT_CODE)
    } else {
        None
    }
}

/// The Linux key code of a letter key, for either case of the letter.
pub open spec fn spec_letter_code(c: char) -> Option<u16> {
    if c == 'q' || c == 'Q' { Some(16u16) } else if c == 'w' || c == 'W' { Some(17u16) }
    else if c == 'e' || c == 'E' { Some(18u16) } else if c == 'r' || c == 'R' { Some(19u16) }
    else if c == 't' || c == 'T' { Some(20u16) } else if c == 'y' || c == 'Y' { Some(21u16) }
    else if c == 'u' || c == 'U' { Some(22u16) } else if c == 'i' || c == 'I' { Some(23u16) }
    else if c == 'o' || c == 'O' { Some(24u16) } else if c == 'p' || c == 'P' { Some(25u16) }
    else if c == 'a' || c == 'A' { Some(30u16) } else if c == 's' || c == 'S' { Some(31u16) }
    else if c == 'd' || c == 'D' { Some(32u16) } else if c == 'f' || c == 'F' { Some(33u16) }
    else if c == 'g' || c == 'G' { Some(34u16) } else if c == 'h' || c == 'H' { Some(35u16) }
    else if c == 'j' || c == 'J' { Some(36u16) } else if c == 'k' || c == 'K' { Some(37u16) }
    else if c == 'l' || c == 'L' { Some(38u16) } else if c == 'z' || c == 'Z' { Some(44u16) }
    else if c == 'x' || c == 'X' { Some(45u16) } else if c == 'c' || c == 'C' { Some(46u16) }
    else if c == 'v' || c == 'V' { Some(47u16) } else if c == 'b' || c == 'B' { Some(48u16) }
    else if c == 'n' || c == 'N' { Some(49u16) } else if c == 'm' || c == 'M' { Some(50u16) }
    else { None }
}

/// Whether a chord token asks for shift.
pub open spec fn spec_token_shift(t: Seq<char>) -> bool {
    seq_eqi(t, "shift"@)
}

/// The modifier key a chord token names, if it names one.
pub open spec fn spec_token_modifier(t: Seq<char>) -> Option<u16> {
    if seq_eqi(t, "rightalt"@) || seq_eqi(t, "alt_r"@) {
        Some(KEY_RIGHTALT_CODE)
    } else if seq_eqi(t, "leftalt"@) || seq_eqi(t, "alt_l"@) {
        Some(KEY_LEFTALT_CODE)
    } else if seq_eqi(t, "rightctrl"@) || seq_eqi(t, "ctrl_r"@) {
        Some(KEY_RIGHTCTRL_CODE)
    } else if seq_eqi(t, "leftctrl"@) || seq_eqi(t, "ctrl_l"@) {
        Some(KEY_LEFTCTRL_CODE)
    } else {
        None
    }
}

/// The main key a chord token names: a single letter, either case.
pub open spec fn spec_token_main(t: Seq<char>) -> Option<u16> {
    if t.len() == 1 {
        spec_letter_code(t[0])
    } else {
        None
    }
}

/// Folding a chord's tokens left to right into (shift requirement, modifier,
/// main key); `None` when some token is recognized as nothing at all.
pub open spec fn spec_fold_tokens(
    tokens: Seq<Seq<char>>,
    shift: bool,
    modifier: Option<u16>,
    main: Option<u16>,
) -> Option<(bool, Option<u16>, Option<u16>)>
    decreases tokens.len(),
{
    if tokens.len() == 0 {
        Some((shift, modifier, main))
    } else {
        let t = trim_spec(tokens[0]);
        if spec_token_shift(t) {
            spec_fold_tokens(tokens.drop_first(), true, modifier, main)
        } else if spec_token_modifier(t) is Some {
            spec_fold_tokens(tokens.drop_first(), shift, spec_token_modifier(t), main)
        } else if spec_token_main(t) is Some {
            spec_fold_tokens(tokens.drop_first(), shift, modifier, spec_token_main(t))
        } else {
            None
        }
    }
}

/// What folding a whole chord string's `'+'`-separated tokens yields;
/// the empty string is handled before this fold — it configures no chord.
pub open spec fn spec_parse_shortcut(s: Seq<char>) -> Option<(bool, Option<u16>, Option<u16>)> {
    spec_fold_tokens(split_plus(s), false, None, None)
}

/// Whether a configured chord string is acceptable: empty (no chord), or a
/// clean fold that ends up with a main key.
pub open spec fn spec_shortcut_ok(s: Seq<char>) -> bool {
    s.len() == 0 || (spec_parse_shortcut(s) matches Some(acc) && acc.2 is Some)
}

/// The binding a configured chord string stands for, `None` when it
/// configures no chord. Meaningful only when `spec_shortcut_ok` holds.
pub open spec fn spec_shortcut_binding(s: Seq<char>) -> Option<KeyBinding> {
    if s.len() == 0 {
        None
    } else {
        let acc = spec_parse_shortcut(s).unwrap();
        Some(
            KeyBinding {
                needs_shift: acc.0,
                modifier_key_code: acc.1,
                main_key_code: acc.2.unwrap(),
            },
        )
    }
}

/// Parse a configurable key name into its key code.
pub fn parse_key_name(name: &str) -> (r: Result<u16, EvdevError>)
    ensures
        spec_key_name_code(name@) matches Some(c) ==> r == Ok::<u16, EvdevError>(c),
        spec_key_name_code(name@) is None ==> (r matches Err(e) && e is ParseKeyError),
{
    if str_eq_ignore_case(name, "rightalt") || str_eq_ignore_case(name, "alt_r") {
        Ok(KEY_RIGHTALT_CODE)
    } else if str_eq_ignore_case(name, "leftalt") || str_eq_ignore_case(name, "alt_l") {
        Ok(KEY_LEFTALT_CODE)
    } else if str_eq_ignore_case(name, "rightctrl") || str_eq_ignore_case(name, "ctrl_r") {
        Ok(KEY_RIGHTCTRL_CODE)
    } else if str_eq_ignore_case(name, "leftctrl") || str_eq_ignore_case(name, "ctrl_l") {
        Ok(KEY_LEFTCTRL_CODE)
    } else if str_eq_ignore_case(name, "rightshift") || str_eq_ignore_case(name, "shift_r") {
        Ok(KEY_RIGHTSHIFT_CODE)
    } else if str_eq_ignore_case(name, "leftshift") || str_eq_ignore_case(name, "shift_l") {
        Ok(KEY_LEFTSHIFT_CODE)
    } else {
        let mut msg = String::from_str("Unknown key: ");
        msg.append(name);
        Err(EvdevError::ParseKeyError(msg))
    }
}

fn token_modifier_code(t: &str) -> (r: Option<u16>)
    ensures
        r == spec_token_modifier(t@),
{
    if str_eq_ignore_case(t, "rightalt") || str_eq_ignore_case(t, "alt_r") {
        Some(KEY_RIGHTALT_CODE)
    } else if str_eq_ignore_case(t, "leftalt") || str_eq_ignore_case(t, "alt_l") {
        Some(KEY_LEFTALT_CODE)
    } else if str_eq_ignore_case(t, "rightctrl") || str_eq_ignore_case(t, "ctrl_r") {
        Some(KEY_RIGHTCTRL_CODE)
    } else if str_eq_ignore_case(t, "leftctrl") || str_eq_ignore_case(t, "ctrl_l") {
        Some(KEY_LEFTCTRL_CODE)
    } else {
        None
    }
}

fn token_main_code(t: &str) -> (r: Option<u16>)
    ensures
        r == spec_token_main(t@),
{
    if t.unicode_len() != 1 {
        return None;
    }
    let c = t.get_char(0);
    match c {
        'q' | 'Q' => Some(16), 'w' | 'W' => Some(17), 'e' | 'E' => Some(18),
        'r' | 'R' => Some(19), 't' | 'T' => Some(20), 'y' | 'Y' => Some(21),
        'u' | 'U' => Some(22), 'i' | 'I' => Some(23), 'o' | 'O' => Some(24),
        'p' | 'P' => Some(25), 'a' | 'A' => Some(30), 's' | 'S' => Some(31),
        'd' | 'D' => Some(32), 'f' | 'F' => Some(33), 'g' | 'G' => Some(34),
        'h' | 'H' => Some(35), 'j' | 'J' => Some(36), 'k' | 'K' => Some(37),
        'l' | 'L' => Some(38), 'z' | 'Z' => Some(44), 'x' | 'X' => Some(45),
        'c' | 'C' => Some(46), 'v' | 'V' => Some(47), 'b' | 'B' => Some(48),
        'n' | 'N' => Some(49), 'm' | 'M' => Some(50),
        _ => None,
    }
}

/// Parse one chord string. The empty string configures no chord; otherwise
/// the string's tokens are folded and the chord must end up with a main key.
pub fn parse_shortcut(shortcut_str: &str) -> (r: Result<Option<KeyBinding>, EvdevError>)
    ensures
        shortcut_str@.len() == 0 ==> (r matches Ok(b) && b is None),
        shortcut_str@.len() > 0 && spec_parse_shortcut(shortcut_str@) is None ==> (r matches Err(
            e,
        ) && e is ParseShortcutError),
        shortcut_str@.len() > 0 && spec_parse_shortcut(shortcut_str@) is Some
            && spec_parse_shortcut(shortcut_str@).unwrap().2 is None ==> (r matches Err(e) && e
            is ParseShortcutError),
        shortcut_str@.len() > 0 && spec_parse_shortcut(shortcut_str@) is Some
            && spec_parse_shortcut(shortcut_str@).unwrap().2 is Some ==> (r matches Ok(Some(b))
            && b.needs_shift == spec_parse_shortcut(shortcut_str@).unwrap().0
            && b.modifier_key_code == spec_parse_shortcut(shortcut_str@).unwrap().1
            && b.main_key_code == spec_parse_shortcut(shortcut_str@).unwrap().2.unwrap()),
{
    if shortcut_str.unicode_len() == 0 {
        return Ok(None);
    }
    let tokens = split_plus_str(shortcut_str);
    let ghost all = split_plus(shortcut_str@);
    proof {
        assert(all.skip(0) =~= all);
    }
    let mut shift = false;
    let mut modifier: Option<u16> = None;
    let mut main: Option<u16> = None;
    let n = tokens.len();
    let mut i: usize = 0;
    while i < n
        invariant
            shortcut_str@.len() > 0,
            n == tokens@.len(),
            n == all.len(),
            forall|k: int| 0 <= k < n ==> tokens@[k]@ == all[k],
            0 <= i <= n,
            spec_fold_tokens(all, false, None, None) == spec_fold_tokens(
                all.skip(i as int),
                shift,
                modifier,
                main,
            ),
            all == split_plus(shortcut_str@),
        decreases n - i,
    {
        let t = trim_str(tokens[i].as_str());
        let ghost rest = all.skip(i as int);
        proof {
            assert(rest[0] == all[i as int]);
            assert(rest.drop_first() =~= all.skip(i as int + 1));
            assert(trim_spec(rest[0]) == t@);
        }
        if str_eq_ignore_case(t.as_str(), "shift") {
            shift = true;
        } else {
            let m = token_modifier_code(t.as_str());
            match m {
                Some(code) => {
                    modifier = Some(code);
                },
                None => {
                    let mk = token_main_code(t.as_str());
                    match mk {
                        Some(code) => {
                            main = Some(code);
                        },
                        None => {
                            proof {
                                assert(spec_fold_tokens(rest, shift, modifier, main) is None);
                                assert(spec_parse_shortcut(shortcut_str@) is None);
                            }
                            let mut msg = String::from_str("Unknown key in shortcut: ");
                            msg.append(t.as_str());
                            return Err(EvdevError::ParseShortcutError(msg));
                        },
                    }
                },
            }
        }
        i += 1;
    }
    proof {
        assert(all.skip(n as int) =~= Seq::<Seq<char>>::empty());
    }
    match main {
        Some(code) => Ok(
            Some(KeyBinding { needs_shift: shift, modifier_key_code: modifier, main_key_code: code }),
        ),
        None => {
            let mut msg = String::from_str("Shortcut missing main key: ");
            msg.append(shortcut_str);
            Err(EvdevError::ParseShortcutError(msg))
        },
    }
}

/// A key code of either shift key.
pub open spec fn is_shift_code(code: u16) -> bool {
    code == KEY_LEFTSHIFT_CODE || code == KEY_RIGHTSHIFT_CODE
}

/// A key code of the tracked non-shift modifiers: either alt, either ctrl.
pub open spec fn is_tracked_modifier_code(code: u16) -> bool {
    code == KEY_RIGHTALT_CODE || code == KEY_LEFTALT_CODE || code == KEY_RIGHTCTRL_CODE || code
        == KEY_LEFTCTRL_CODE
}

/// Whether a chord fires on this event under this modifier state: the main
/// key must go down (value 1, so never a repeat), shift must be held when the
/// chord asks for it, and the chord's modifier must be the one held.
pub open spec fn chord_fires(
    b: KeyBinding,
    shift_pressed: bool,
    modifier_pressed: Option<u16>,
    code: u16,
    value: i32,
) -> bool {
    &&& value == 1
    &&& code == b.main_key_code
    &&& !b.needs_shift || shift_pressed
    &&& b.modifier_key_code is None || modifier_pressed == b.modifier_key_code
}

/// A chord that asks for both shift and a modifier around its main key fires
/// exactly when shift is held, that modifier is the held one, and the main
/// key goes down — not on the main key alone, not without shift, and not on
/// key repeat.
pub proof fn lemma_full_chord_needs_everything(
    b: KeyBinding,
    shift_pressed: bool,
    modifier_pressed: Option<u16>,
    code: u16,
    value: i32,
)
    requires
        b.needs_shift,
        b.modifier_key_code is Some,
    ensures
        chord_fires(b, shift_pressed, modifier_pressed, code, value) <==> (shift_pressed
            && modifier_pressed == b.modifier_key_code && code == b.main_key_code && value == 1),
        value == 2 ==> !chord_fires(b, shift_pressed, modifier_pressed, code, value),
{
}

/// The run-time modifier tracking of the monitor loop: which shift and which
/// non-shift modifier are held, and whether a push-to-talk press is live.
#[derive(Clone, Copy, Debug)]
pub struct MonitorState {
    pub shift_pressed: bool,
    pub modifier_pressed: Option<u16>,
    pub recording: bool,
}

pub struct EvdevMonitor {
    pub key_code: u16,
    pub output_mode_shortcut: Option<KeyBinding>,
    pub language_shortcut: Option<KeyBinding>,
    pub state: MonitorState,
}

/// One step of the monitor loop: the modifier state after a raw key event,
/// and the commands the event emits, in emission order.
pub open spec fn spec_step(m: EvdevMonitor, code: u16, value: i32) -> (
    MonitorState,
    Seq<StateEvent>,
) {
    let st = m.state;
    if is_shift_code(code) {
        let held = if value == 1 {
            true
        } else if value == 0 {
            false
        } else {
            st.shift_pressed
        };
        (
            MonitorState {
                shift_pressed: held,
                modifier_pressed: st.modifier_pressed,
                recording: st.recording,
            },
            Seq::<StateEvent>::empty(),
        )
    } else if is_tracked_modifier_code(code) {
        if value == 1 {
            let starts = code == m.key_code && !st.shift_pressed && !st.recording;
            (
                MonitorState {
                    shift_pressed: st.shift_pressed,
                    modifier_pressed: Some(code),
                    recording: st.recording || starts,
                },
                if starts {
                    seq![StateEvent::StartRecording]
                } else {
                    Seq::<StateEvent>::empty()
                },
            )
        } else if value == 0 {
            let stops = code == m.key_code && st.recording;
            (
                MonitorState {
                    shift_pressed: st.shift_pressed,
                    modifier_pressed: if st.modifier_pressed == Some(code) {
                        None
                    } else {
                        st.modifier_pressed
                    },
                    recording: if stops {
                        false
                    } else {
                        st.recording
                    },
                },
                if stops {
                    seq![StateEvent::StopRecording]
                } else {
                    Seq::<StateEvent>::empty()
                },
            )
        } else {
            (st, Seq::<StateEvent>::empty())
        }
    } else {
        let fire_mode = match m.output_mode_shortcut {
            Some(b) => chord_fires(b, st.shift_pressed, st.modifier_pressed, code, value),
            None => false,
        };
        let fire_lang = match m.language_shortcut {
            Some(b) => chord_fires(b, st.shift_pressed, st.modifier_pressed, code, value),
            None => false,
        };
        let starts = code == m.key_code && value == 1 && !st.recording;
        let stops = code == m.key_code && value == 0 && st.recording;
        let evs = (if fire_mode {
            seq![StateEvent::ToggleOutputMode]
        } else {
            Seq::<StateEvent>::empty()
        }) + (if fire_lang {
            seq![StateEvent::ToggleLanguage]
        } else {
            Seq::<StateEvent>::empty()
        }) + (if starts {
            seq![StateEvent::StartRecording]
        } else if stops {
            seq![StateEvent::StopRecording]
        } else {
            Seq::<StateEvent>::empty()
        });
        (
            MonitorState {
                shift_pressed: st.shift_pressed,
                modifier_pressed: st.modifier_pressed,
                recording: if starts {
                    true
                } else if stops {
                    false
                } else {
                    st.recording
                },
            },
            evs,
        )
    }
}

/// A monitor step emits the output-mode toggle exactly when the event is no
/// modifier event and the configured output-mode chord fires under the held
/// modifiers: never on another key, never without the chord's shift or
/// modifier, and never on a repeat.
pub proof fn lemma_toggle_needs_chord(m: EvdevMonitor, code: u16, value: i32)
    ensures
        spec_step(m, code, value).1.contains(StateEvent::ToggleOutputMode) <==> (!is_shift_code(
            code,
        ) && !is_tracked_modifier_code(code) && (m.output_mode_shortcut matches Some(b)
            && chord_fires(b, m.state.shift_pressed, m.state.modifier_pressed, code, value))),
{
    let evs = spec_step(m, code, value).1;
    if is_shift_code(code) || is_tracked_modifier_code(code) {
        assert(forall|i: int| 0 <= i < evs.len() ==> !(#[trigger] evs[i] is ToggleOutputMode));
    } else {
        let fire_mode = match m.output_mode_shortcut {
            Some(b) => chord_fires(b, m.state.shift_pressed, m.state.modifier_pressed, code, value),
            None => false,
        };
        if fire_mode {
            assert(evs[0] is ToggleOutputMode);
        } else {
            assert(forall|i: int| 0 <= i < evs.len() ==> !(#[trigger] evs[i] is ToggleOutputMode));
        }
    }
}

impl EvdevMonitor {
    /// Parse the configured push-to-talk key and the two chord strings into a
    /// monitor with all modifiers up and no push-to-talk press live. Fails
    /// exactly when one of the three strings does not parse.
    pub fn new(config: &Config) -> (r: Result<EvdevMonitor, EvdevError>)
        ensures
            r is Ok <==> spec_key_name_code(config.hotkeys.push_to_talk_key@) is Some
                && spec_shortcut_ok(config.hotkeys.output_mode_shortcut@) && spec_shortcut_ok(
                config.hotkeys.language_shortcut@,
            ),
            r matches Ok(m) ==> {
                &&& spec_key_name_code(config.hotkeys.push_to_talk_key@) == Some(m.key_code)
                &&& m.output_mode_shortcut == spec_shortcut_binding(
                    config.hotkeys.output_mode_shortcut@,
                )
                &&& m.language_shortcut == spec_shortcut_binding(
                    config.hotkeys.language_shortcut@,
                )
                &&& m.state.shift_pressed == false
                &&& m.state.modifier_pressed is None
                &&& m.state.recording == false
            },
    {
        let key_code = match parse_key_name(config.hotkeys.push_to_talk_key.as_str()) {
            Ok(c) => c,
            Err(e) => {
                return Err(e);
            },
        };
        let output_mode_shortcut = match parse_shortcut(
            config.hotkeys.output_mode_shortcut.as_str(),
        ) {
            Ok(b) => b,
            Err(e) => {
                return Err(e);
            },
        };
        let language_shortcut = match parse_shortcut(config.hotkeys.language_shortcut.as_str()) {
            Ok(b) => b,
            Err(e) => {
                return Err(e);
            },
        };
        Ok(
            EvdevMonitor {
                key_code,
                output_mode_shortcut,
                language_shortcut,
                state: MonitorState {
                    shift_pressed: false,
                    modifier_pressed: None,
                    recording: false,
                },
            },
        )
    }

    /// Interpret one raw key event: update the modifier tracking and emit the
    /// commands the event stands for. Repeat events (value 2) never act;
    /// a push-to-talk release while no press is live emits nothing.
    pub fn handle_key_event(&mut self, code: u16, value: i32) -> (out: Vec<StateEvent>)
        ensures
            final(self).key_code == old(self).key_code,
            final(self).output_mode_shortcut == old(self).output_mode_shortcut,
            final(self).language_shortcut == old(self).language_shortcut,
            final(self).state == spec_step(*old(self), code, value).0,
            out@ == spec_step(*old(self), code, value).1,
    {
        let mut out: Vec<StateEvent> = Vec::new();
        if code == KEY_LEFTSHIFT_CODE || code == KEY_RIGHTSHIFT_CODE {
            if value == 1 {
                self.state.shift_pressed = true;
            } else if value == 0 {
                self.state.shift_pressed = false;
            }
            proof {
                assert(out@ =~= spec_step(*old(self), code, value).1);
            }
        } else if code == KEY_RIGHTALT_CODE || code == KEY_LEFTALT_CODE || code
            == KEY_RIGHTCTRL_CODE || code == KEY_LEFTCTRL_CODE {
            if value == 1 {
                self.state.modifier_pressed = Some(code);
                if code == self.key_code && !self.state.shift_pressed && !self.state.recording {
                    self.state.recording = true;
                    out.push(StateEvent::StartRecording);
                    proof {
                        assert(out@ =~= seq![StateEvent::StartRecording]);
                    }
                } else {
                    proof {
                        assert(out@ =~= Seq::<StateEvent>::empty());
                    }
                }
            } else if value == 0 {
                let clear = match self.state.modifier_pressed {
                    Some(held) => held == code,
                    None => false,
                };
                if clear {
                    self.state.modifier_pressed = None;
                }
                if code == self.key_code && self.state.recording {
                    self.state.recording = false;
                    out.push(StateEvent::StopRecording);
                    proof {
                        assert(out@ =~= seq![StateEvent::StopRecording]);
                    }
                } else {
                    proof {
                        assert(out@ =~= Seq::<StateEvent>::empty());
                    }
                }
            } else {
                proof {
                    assert(out@ =~= Seq::<StateEvent>::empty());
                }
            }
        } else {
            let fire_mode = match self.output_mode_shortcut {
                Some(b) => {
                    value == 1 && code == b.main_key_code && (!b.needs_shift
                        || self.state.shift_pressed) && (match b.modifier_key_code {
                        None => true,
                        Some(want) => match self.state.modifier_pressed {
                            Some(held) => held == want,
                            None => false,
                        },
                    })
                },
                None => false,
            };
            if fire_mode {
                out.push(StateEvent::ToggleOutputMode);
            }
            let fire_lang = match self.language_shortcut {
                Some(b) => {
                    value == 1 && code == b.main_key_code && (!b.needs_shift
                        || self.state.shift_pressed) && (match b.modifier_key_code {
                        None => true,
                        Some(want) => match self.state.modifier_pressed {
                            Some(held) => held == want,
                            None => false,
                        },
                    })
                },
                None => false,
            };
            if fire_lang {
                out.push(StateEvent::ToggleLanguage);
            }
            if code == self.key_code {
                if value == 1 && !self.state.recording {
                    self.state.recording = true;
                    out.push(StateEvent::StartRecording);
                } else if value == 0 && self.state.recording {
                    self.state.recording = false;
                    out.push(StateEvent::StopRecording);
                }
            }
            proof {
                assert(out@ =~= spec_step(*old(self), code, value).1);
            }
        }
        out
    }
}

/// Substrings whose presence in a device's (case-folded) name marks it as
/// something other than a keyboard.
pub open spec fn spec_name_rejected(name: Seq<char>) -> bool {
    ||| contains_seq_ci(name, "mouse"@)
    ||| contains_seq_ci(name, "touchpad"@)
    ||| contains_seq_ci(name, "trackpoint"@)
    ||| contains_seq_ci(name, "stylus"@)
    ||| contains_seq_ci(name, "wacom"@)
    ||| contains_seq_ci(name, "tablet"@)
    ||| contains_seq_ci(name, "power"@)
    ||| contains_seq_ci(name, "button"@)
}

/// The canonical keyboard keys at least one of which a real keyboard
/// advertises: the A key, space, enter, or either alt.
pub open spec fn spec_has_canonical_key(keys: Seq<u16>) -> bool {
    keys.contains(30u16) || keys.contains(57u16) || keys.contains(28u16) || keys.contains(
        56u16,
    ) || keys.contains(100u16)
}

fn codes_contain(keys: &Vec<u16>, code: u16) -> (r: bool)
    ensures
        r == keys@.contains(code),
{
    let n = keys.len();
    let mut i: usize = 0;
    while i < n
        invariant
            n == keys@.len(),
            0 <= i <= n,
            forall|j: int| 0 <= j < i ==> keys@[j] != code,
        decreases n - i,
    {
        if keys[i] == code {
            return true;
        }
        i += 1;
    }
    false
}

/// Whether an enumerated input device qualifies as the keyboard to monitor:
/// its name must not mark it as a non-keyboard device, it must advertise one
/// of the canonical keyboard keys, and it must support more than a minimum
/// number of key codes.
pub fn keyboard_device_acceptable(name: &str, supported_keys: &Vec<u16>) -> (r: bool)
    ensures
        r == (!spec_name_rejected(name@) && spec_has_canonical_key(supported_keys@)
            && supported_keys@.len() > 50),
{
    if str_contains_ignore_case(name, "mouse") || str_contains_ignore_case(name, "touchpad")
        || str_contains_ignore_case(name, "trackpoint") || str_contains_ignore_case(name, "stylus")
        || str_contains_ignore_case(name, "wacom") || str_contains_ignore_case(name, "tablet")
        || str_contains_ignore_case(name, "power") || str_contains_ignore_case(name, "button") {
        return false;
    }
    let has_canonical = codes_contain(supported_keys, 30) || codes_contain(supported_keys, 57)
        || codes_contain(supported_keys, 28) || codes_contain(supported_keys, 56)
        || codes_contain(supported_keys, 100);
    has_canonical && supported_keys.len() > 50
}

} // verus!
