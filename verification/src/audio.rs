//! Recording-session lifecycle: binds the lifetime of one external
//! audio-capture process to exactly one session. The process itself is spawned
//! and reaped by the caller; this model decides when that may happen and owns
//! the session's output path.
use vstd::prelude::*;
use crate::config::Config;

verus! {

#[derive(Debug)]
pub enum AudioError {
    SpawnError(String),
    NoActiveSession,
    EmptyRecording,
    ReadError(String),
    TempFileError(String),
}

pub struct AudioRecorder {
    pub config: Config,
    /// The output path of the active capture session, if one is running.
    pub session: Option<String>,
}

/// The session that remains after asking a recorder holding `s` to start a
/// fresh capture into `path`: an already active session is kept untouched.
pub open spec fn start_session_spec(s: Option<Seq<char>>, path: Seq<char>) -> Option<Seq<char>> {
    if s is Some {
        s
    } else {
        Some(path)
    }
}

impl AudioRecorder {
    /// The active session's output path, abstractly.
    pub open spec fn session_path(self) -> Option<Seq<char>> {
        match self.session {
            Some(p) => Some(p@),
            None => None,
        }
    }

    pub fn new(config: Config) -> (r: Self)
        ensures
            r.session is None,
            r.config == config,
    {
        AudioRecorder { config, session: None }
    }

    pub fn is_recording(&self) -> (r: bool)
        ensures
            r == (self.session is Some),
    {
        self.session.is_some()
    }

    /// Begin a session writing to `temp_path`. Starting while a session is
    /// already active is an idempotent no-op, not an error; the result says
    /// whether the caller should now spawn the capture process.
    pub fn start(&mut self, temp_path: String) -> (started: bool)
        ensures
            final(self).config == old(self).config,
            final(self).session_path() == start_session_spec(
                old(self).session_path(),
                temp_path@,
            ),
            started == (old(self).session is None),
            final(self).session is Some,
            !started ==> *final(self) == *old(self),
            started ==> final(self).session == Some(temp_path),
    {
        if self.session.is_some() {
            false
        } else {
            self.session = Some(temp_path);
            true
        }
    }

    /// End the active session. `file_len` is the size the caller observed for
    /// the session's output file once the capture process was gone, or `None`
    /// when the file could not be read at all. The session ends in every case;
    /// the path is handed out only for a non-empty recording.
    pub fn stop(&mut self, file_len: Option<u64>) -> (r: Result<String, AudioError>)
        ensures
            final(self).config == old(self).config,
            final(self).session is None,
            old(self).session is None ==> r == Err::<String, AudioError>(
                AudioError::NoActiveSession,
            ) && *final(self) == *old(self),
            old(self).session is Some && file_len is None ==> (r matches Err(e) && e
                is ReadError),
            old(self).session is Some && file_len == Some(0u64) ==> r == Err::<
                String,
                AudioError,
            >(AudioError::EmptyRecording),
            old(self).session is Some && (file_len matches Some(n) && n > 0) ==> r == Ok::<
                String,
                AudioError,
            >(old(self).session.unwrap()),
    {
        match self.session.take() {
            None => Err(AudioError::NoActiveSession),
            Some(path) => match file_len {
                None => Err(AudioError::ReadError(String::from_str("Audio file is missing"))),
                Some(n) => {
                    if n == 0 {
                        Err(AudioError::EmptyRecording)
                    } else {
                        Ok(path)
                    }
                },
            },
        }
    }

    /// The capture tool's argument list: mono 16-bit PCM at the configured
    /// sample rate, written to `path`.
    pub fn capture_args(&self, path: &str) -> (v: Vec<String>)
        ensures
            v@.len() == 4,
            v@[0]@ == "--format=s16"@,
            v@[1]@ == "--rate="@ + spec_decimal(self.config.audio.sample_rate as nat),
            v@[2]@ == "--channels=1"@,
            v@[3]@ == path@,
    {
        let mut v: Vec<String> = Vec::new();
        v.push(String::from_str("--format=s16"));
        let mut rate = String::from_str("--rate=");
        let digits = u32_to_decimal(self.config.audio.sample_rate);
        rate.append(digits.as_str());
        v.push(rate);
        v.push(String::from_str("--channels=1"));
        v.push(String::from_str(path));
        v
    }

    /// Forget any active session so the caller can kill the capture process
    /// and remove its artifacts; safe to call when none is active.
    pub fn cleanup(&mut self) -> (had: bool)
        ensures
            final(self).config == old(self).config,
            final(self).session is None,
            had == (old(self).session is Some),
    {
        match self.session.take() {
            Some(_) => true,
            None => false,
        }
    }
}

/// The character of one decimal digit.
pub open spec fn spec_digit_char(d: nat) -> char {
    if d == 0 { '0' } else if d == 1 { '1' } else if d == 2 { '2' } else if d == 3 { '3' }
    else if d == 4 { '4' } else if d == 5 { '5' } else if d == 6 { '6' } else if d == 7 { '7' }
    else if d == 8 { '8' } else { '9' }
}

/// The decimal spelling of `n`, most significant digit first, no leading
/// zeros (but "0" for zero itself).
pub open spec fn spec_decimal(n: nat) -> Seq<char>
    decreases n,
{
    if n < 10 {
        seq![spec_digit_char(n)]
    } else {
        spec_decimal(n / 10) + seq![spec_digit_char(n % 10)]
    }
}

fn digit_str(d: u32) -> (r: String)
    requires
        d < 10,
    ensures
        r@ == seq![spec_digit_char(d as nat)],
{
    let s = match d {
        0 => String::from_str("0"),
        1 => String::from_str("1"),
        2 => String::from_str("2"),
        3 => String::from_str("3"),
        4 => String::from_str("4"),
        5 => String::from_str("5"),
        6 => String::from_str("6"),
        7 => String::from_str("7"),
        8 => String::from_str("8"),
        _ => String::from_str("9"),
    };
    proof {
        reveal_strlit("0"); reveal_strlit("1"); reveal_strlit("2"); reveal_strlit("3");
        reveal_strlit("4"); reveal_strlit("5"); reveal_strlit("6"); reveal_strlit("7");
        reveal_strlit("8"); reveal_strlit("9");
        assert(s@ =~= seq![spec_digit_char(d as nat)]);
    }
    s
}

/// `n` written out in decimal.
pub fn u32_to_decimal(n: u32) -> (r: String)
    ensures
        r@ == spec_decimal(n as nat),
    decreases n,
{
    if n < 10 {
        digit_str(n)
    } else {
        let mut s = u32_to_decimal(n / 10);
        let tail = digit_str(n % 10);
        s.append(tail.as_str());
        s
    }
}

/// Starting twice in a row without an intervening stop leaves exactly the one
/// session that the first start created, whatever path the second start
/// offered.
pub proof fn lemma_start_idempotent(s: Option<Seq<char>>, p1: Seq<char>, p2: Seq<char>)
    ensures
        start_session_spec(start_session_spec(s, p1), p2) == start_session_spec(s, p1),
        start_session_spec(start_session_spec(s, p1), p2) is Some,
{
}

} // verus!
