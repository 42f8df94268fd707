//! Synthetic keyboard: maps text onto the key events a virtual input device
//! must emit. The caller owns the device and writes the planned events to it,
//! one serialized writer at a time; everything decided here — which key, which
//! shift wrapping, which order — is planned from the text alone.
use vstd::prelude::*;
use crate::config::Config;

verus! {

#[derive(Debug)]
pub enum UinputError {
    OpenError(String),
    WriteError(String),
    UnsupportedChar(char),
}

// Linux input event codes for the keys the character table uses.
pub const KEY_LEFTCTRL: u16 = 29;
pub const KEY_LEFTSHIFT: u16 = 42;
pub const KEY_V: u16 = 47;
pub const KEY_A: u16 = 30;
pub const KEY_1: u16 = 2;
pub const KEY_0: u16 = 11;
pub const KEY_MINUS: u16 = 12;
pub const KEY_EQUAL: u16 = 13;
pub const KEY_LEFTBRACE: u16 = 26;
pub const KEY_RIGHTBRACE: u16 = 27;
pub const KEY_BACKSLASH: u16 = 43;
pub const KEY_SEMICOLON: u16 = 39;
pub const KEY_APOSTROPHE: u16 = 40;
pub const KEY_GRAVE: u16 = 41;
pub const KEY_COMMA: u16 = 51;
pub const KEY_DOT: u16 = 52;
pub const KEY_SLASH: u16 = 53;
pub const KEY_SPACE: u16 = 57;
pub const KEY_ENTER: u16 = 28;
pub const KEY_TAB: u16 = 15;

// Raw input-event record types.
pub const EV_SYN: u16 = 0;
pub const EV_KEY: u16 = 1;
pub const SYN_REPORT: u16 = 0;
pub const KEY_PRESS: i32 = 1;
pub const KEY_RELEASE: i32 = 0;

/// One logical keystroke: a main key, possibly wrapped in a held shift.
#[derive(Clone, Copy, Debug, PartialEq, Eq, Structural)]
pub struct Keystroke {
    pub code: u16,
    pub shift: bool,
}

/// One key going down or up.
#[derive(Clone, Copy, Debug, PartialEq, Eq, Structural)]
pub struct KeyTransition {
    pub code: u16,
    pub press: bool,
}

/// One fixed-size record as the virtual device takes it; the caller adds the
/// timestamp when it writes the record.
#[derive(Clone, Copy, Debug, PartialEq, Eq, Structural)]
pub struct RawEvent {
    pub ev_type: u16,
    pub code: u16,
    pub value: i32,
}

/// The US-layout character table: key code and shift requirement for every
/// typeable ASCII character, `None` for everything the table does not cover.
pub open spec fn spec_char_keycode(c: char) -> Option<(u16, bool)> {
    let u = c as u32;
    if 97 <= u && u <= 122 {
        Some((((u - 97) + 30) as u16, false))
    } else if 65 <= u && u <= 90 {
        Some((((u - 65) + 30) as u16, true))
    } else if c == '0' {
        Some((KEY_0, false))
    } else if 49 <= u && u <= 57 {
        Some((((u - 49) + 2) as u16, false))
    } else if c == ' ' {
        Some((KEY_SPACE, false))
    } else if c == '-' {
        Some((KEY_MINUS, false))
    } else if c == '=' {
        Some((KEY_EQUAL, false))
    } else if c == '[' {
        Some((KEY_LEFTBRACE, false))
    } else if c == ']' {
        Some((KEY_RIGHTBRACE, false))
    } else if c == '\\' {
        Some((KEY_BACKSLASH, false))
    } else if c == ';' {
        Some((KEY_SEMICOLON, false))
    } else if c == '\'' {
        Some((KEY_APOSTROPHE, false))
    } else if c == '`' {
        Some((KEY_GRAVE, false))
    } else if c == ',' {
        Some((KEY_COMMA, false))
    } else if c == '.' {
        Some((KEY_DOT, false))
    } else if c == '/' {
        Some((KEY_SLASH, false))
    } else if c == '!' {
        Some((KEY_1, true))
    } else if c == '@' {
        Some(((KEY_1 + 1) as u16, true))
    } else if c == '#' {
        Some(((KEY_1 + 2) as u16, true))
    } else if c == '$' {
        Some(((KEY_1 + 3) as u16, true))
    } else if c == '%' {
        Some(((KEY_1 + 4) as u16, true))
    } else if c == '^' {
        Some(((KEY_1 + 5) as u16, true))
    } else if c == '&' {
        Some(((KEY_1 + 6) as u16, true))
    } else if c == '*' {
        Some(((KEY_1 + 7) as u16, true))
    } else if c == '(' {
        Some(((KEY_1 + 8) as u16, true))
    } else if c == ')' {
        Some((KEY_0, true))
    } else if c == '_' {
        Some((KEY_MINUS, true))
    } else if c == '+' {
        Some((KEY_EQUAL, true))
    } else if c == '{' {
        Some((KEY_LEFTBRACE, true))
    } else if c == '}' {
        Some((KEY_RIGHTBRACE, true))
    } else if c == '|' {
        Some((KEY_BACKSLASH, true))
    } else if c == ':' {
        Some((KEY_SEMICOLON, true))
    } else if c == '"' {
        Some((KEY_APOSTROPHE, true))
    } else if c == '~' {
        Some((KEY_GRAVE, true))
    } else if c == '<' {
        Some((KEY_COMMA, true))
    } else if c == '>' {
        Some((KEY_DOT, true))
    } else if c == '?' {
        Some((KEY_SLASH, true))
    } else {
        None
    }
}

/// The keystroke typed for `c` inside running text: newline and tab map to
/// their dedicated keys, everything else goes through the character table.
pub open spec fn spec_keystroke(c: char) -> Option<(u16, bool)> {
    if c == '\n' {
        Some((KEY_ENTER, false))
    } else if c == '\t' {
        Some((KEY_TAB, false))
    } else {
        spec_char_keycode(c)
    }
}

/// What `type_text` plans: the keystrokes of the longest typeable prefix, and
/// the first character the table rejects, if any.
pub struct TypePlan {
    pub keys: Vec<Keystroke>,
    pub rejected: Option<char>,
}

pub struct UinputKeyboard {
    pub delay_ms: u64,
}

impl UinputKeyboard {
    pub fn new(config: &Config) -> (r: Self)
        ensures
            r.delay_ms == config.output.keystroke_delay_ms,
    {
        UinputKeyboard { delay_ms: config.output.keystroke_delay_ms }
    }

    /// The character table as executable code.
    pub fn char_to_keycode(&self, ch: char) -> (r: Result<(u16, bool), UinputError>)
        ensures
            spec_char_keycode(ch) matches Some(k) ==> r == Ok::<(u16, bool), UinputError>(k),
            spec_char_keycode(ch) is None ==> r == Err::<(u16, bool), UinputError>(
                UinputError::UnsupportedChar(ch),
            ),
    {
        let u = ch as u32;
        if 97 <= u && u <= 122 {
            Ok((((u - 97) + 30) as u16, false))
        } else if 65 <= u && u <= 90 {
            Ok((((u - 65) + 30) as u16, true))
        } else if ch == '0' {
            Ok((KEY_0, false))
        } else if 49 <= u && u <= 57 {
            Ok((((u - 49) + 2) as u16, false))
        } else {
            match ch {
                ' ' => Ok((KEY_SPACE, false)),
                '-' => Ok((KEY_MINUS, false)),
                '=' => Ok((KEY_EQUAL, false)),
                '[' => Ok((KEY_LEFTBRACE, false)),
                ']' => Ok((KEY_RIGHTBRACE, false)),
                '\\' => Ok((KEY_BACKSLASH, false)),
                ';' => Ok((KEY_SEMICOLON, false)),
                '\'' => Ok((KEY_APOSTROPHE, false)),
                '`' => Ok((KEY_GRAVE, false)),
                ',' => Ok((KEY_COMMA, false)),
                '.' => Ok((KEY_DOT, false)),
                '/' => Ok((KEY_SLASH, false)),
                '!' => Ok((KEY_1, true)),
                '@' => Ok((KEY_1 + 1, true)),
                '#' => Ok((KEY_1 + 2, true)),
                '$' => Ok((KEY_1 + 3, true)),
                '%' => Ok((KEY_1 + 4, true)),
                '^' => Ok((KEY_1 + 5, true)),
                '&' => Ok((KEY_1 + 6, true)),
                '*' => Ok((KEY_1 + 7, true)),
                '(' => Ok((KEY_1 + 8, true)),
                ')' => Ok((KEY_0, true)),
                '_' => Ok((KEY_MINUS, true)),
                '+' => Ok((KEY_EQUAL, true)),
                '{' => Ok((KEY_LEFTBRACE, true)),
                '}' => Ok((KEY_RIGHTBRACE, true)),
                '|' => Ok((KEY_BACKSLASH, true)),
                ':' => Ok((KEY_SEMICOLON, true)),
                '"' => Ok((KEY_APOSTROPHE, true)),
                '~' => Ok((KEY_GRAVE, true)),
                '<' => Ok((KEY_COMMA, true)),
                '>' => Ok((KEY_DOT, true)),
                '?' => Ok((KEY_SLASH, true)),
                _ => Err(UinputError::UnsupportedChar(ch)),
            }
        }
    }

    /// Plan the keystrokes for `text`, character by character, left to right.
    /// Planning stops at the first character the table rejects: everything
    /// before it is planned (and will have been typed by the time the caller
    /// sees the rejection), nothing after it is.
    pub fn type_text(&self, text: &str) -> (plan: TypePlan)
        ensures
            plan.keys@.len() <= text@.len(),
            forall|i: int|
                0 <= i < plan.keys@.len() ==> spec_keystroke(text@[i]) == Some(
                    (plan.keys@[i].code, plan.keys@[i].shift),
                ),
            plan.rejected is None ==> plan.keys@.len() == text@.len(),
            plan.rejected matches Some(c) ==> plan.keys@.len() < text@.len() && text@[plan.keys@.len() as int]
                == c && spec_keystroke(c) is None,
    {
        let len = text.unicode_len();
        let mut keys: Vec<Keystroke> = Vec::new();
        let mut i: usize = 0;
        while i < len
            invariant
                len == text@.len(),
                0 <= i <= len,
                keys@.len() == i,
                forall|j: int|
                    0 <= j < i ==> spec_keystroke(text@[j]) == Some(
                        (keys@[j].code, keys@[j].shift),
                    ),
            decreases len - i,
        {
            let c = text.get_char(i);
            if c == '\n' {
                keys.push(Keystroke { code: KEY_ENTER, shift: false });
            } else if c == '\t' {
                keys.push(Keystroke { code: KEY_TAB, shift: false });
            } else {
                match self.char_to_keycode(c) {
                    Ok((code, shift)) => {
                        keys.push(Keystroke { code, shift });
                    },
                    Err(_) => {
                        return TypePlan { keys, rejected: Some(c) };
                    },
                }
            }
            i += 1;
        }
        TypePlan { keys, rejected: None }
    }

    /// The key transitions for one keystroke: shift goes down before and up
    /// after the main key's press/release pair, exactly when the keystroke
    /// needs it.
    pub fn keystroke_transitions(&self, k: Keystroke) -> (v: Vec<KeyTransition>)
        ensures
            k.shift ==> v@ == seq![
                (KeyTransition { code: KEY_LEFTSHIFT, press: true }),
                (KeyTransition { code: k.code, press: true }),
                (KeyTransition { code: k.code, press: false }),
                (KeyTransition { code: KEY_LEFTSHIFT, press: false }),
            ],
            !k.shift ==> v@ == seq![
                (KeyTransition { code: k.code, press: true }),
                (KeyTransition { code: k.code, press: false }),
            ],
    {
        let mut v: Vec<KeyTransition> = Vec::new();
        if k.shift {
            v.push(KeyTransition { code: KEY_LEFTSHIFT, press: true });
        }
        v.push(KeyTransition { code: k.code, press: true });
        v.push(KeyTransition { code: k.code, press: false });
        if k.shift {
            v.push(KeyTransition { code: KEY_LEFTSHIFT, press: false });
        }
        proof {
            if k.shift {
                assert(v@ =~= seq![
                    (KeyTransition { code: KEY_LEFTSHIFT, press: true }),
                    (KeyTransition { code: k.code, press: true }),
                    (KeyTransition { code: k.code, press: false }),
                    (KeyTransition { code: KEY_LEFTSHIFT, press: false }),
                ]);
            } else {
                assert(v@ =~= seq![
                    (KeyTransition { code: k.code, press: true }),
                    (KeyTransition { code: k.code, press: false }),
                ]);
            }
        }
        v
    }

    /// The fixed paste chord: Ctrl down, V down, V up, Ctrl up. The caller
    /// must give each transition its own settle delay and synchronization.
    pub fn send_paste(&self) -> (v: Vec<KeyTransition>)
        ensures
            v@ == seq![
                (KeyTransition { code: KEY_LEFTCTRL, press: true }),
                (KeyTransition { code: KEY_V, press: true }),
                (KeyTransition { code: KEY_V, press: false }),
                (KeyTransition { code: KEY_LEFTCTRL, press: false }),
            ],
    {
        let mut v: Vec<KeyTransition> = Vec::new();
        v.push(KeyTransition { code: KEY_LEFTCTRL, press: true });
        v.push(KeyTransition { code: KEY_V, press: true });
        v.push(KeyTransition { code: KEY_V, press: false });
        v.push(KeyTransition { code: KEY_LEFTCTRL, press: false });
        proof {
            assert(v@ =~= seq![
                (KeyTransition { code: KEY_LEFTCTRL, press: true }),
                (KeyTransition { code: KEY_V, press: true }),
                (KeyTransition { code: KEY_V, press: false }),
                (KeyTransition { code: KEY_LEFTCTRL, press: false }),
            ]);
        }
        v
    }

    /// The two records one key transition writes to the device: the key event
    /// itself followed by its synchronization event.
    pub fn transition_records(&self, t: KeyTransition) -> (v: Vec<RawEvent>)
        ensures
            v@ == seq![
                (RawEvent {
                    ev_type: EV_KEY,
                    code: t.code,
                    value: if t.press {
                        KEY_PRESS
                    } else {
                        KEY_RELEASE
                    },
                }),
                (RawEvent { ev_type: EV_SYN, code: SYN_REPORT, value: 0 }),
            ],
    {
        let value: i32 = if t.press {
            KEY_PRESS
        } else {
            KEY_RELEASE
        };
        let mut v: Vec<RawEvent> = Vec::new();
        v.push(RawEvent { ev_type: EV_KEY, code: t.code, value });
        v.push(RawEvent { ev_type: EV_SYN, code: SYN_REPORT, value: 0 });
        proof {
            assert(v@ =~= seq![
                (RawEvent {
                    ev_type: EV_KEY,
                    code: t.code,
                    value: if t.press {
                        KEY_PRESS
                    } else {
                        KEY_RELEASE
                    },
                }),
                (RawEvent { ev_type: EV_SYN, code: SYN_REPORT, value: 0 }),
            ]);
        }
        v
    }
}

} // verus!
