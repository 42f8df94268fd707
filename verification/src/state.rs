//! The orchestrator: a finite-state machine that sequences recording,
//! transcription and output. It consumes one event at a time and answers with
//! the outside work the daemon loop must perform next; everything the outside
//! work observes comes back in as a later event.
use vstd::prelude::*;
use crate::audio::AudioError;
use crate::clipboard::ClipboardError;
use crate::config::Config;
use crate::config::OutputMode;
use crate::uinput::UinputError;

verus! {

/// One of the four phases of the daemon; exactly one is active at a time.
#[derive(Clone, Copy, Debug, PartialEq, Eq, Structural)]
pub enum DaemonState {
    Idle,
    Recording,
    Processing,
    Outputting,
}

/// Each state's display name, as the status reply prints it.
pub open spec fn spec_state_name(s: DaemonState) -> Seq<char> {
    match s {
        DaemonState::Idle => "Idle"@,
        DaemonState::Recording => "Recording"@,
        DaemonState::Processing => "Processing"@,
        DaemonState::Outputting => "Outputting"@,
    }
}

impl DaemonState {
    /// The state's display name, as the status reply prints it.
    pub fn name(&self) -> (r: String)
        ensures
            r@ == spec_state_name(*self),
    {
        match self {
            DaemonState::Idle => String::from_str("Idle"),
            DaemonState::Recording => String::from_str("Recording"),
            DaemonState::Processing => String::from_str("Processing"),
            DaemonState::Outputting => String::from_str("Outputting"),
        }
    }
}

/// A command entering the orchestrator; consumed once.
#[derive(Debug)]
pub enum StateEvent {
    StartRecording,
    StopRecording,
    Cancel,
    ProcessingComplete(String),
    OutputComplete,
    ToggleOutputMode,
    ToggleLanguage,
}

#[derive(Debug)]
pub enum StateError {
    AudioError(AudioError),
    TranscriptionError(String),
    CleanupError(String),
    OutputError(UinputError),
    ClipboardError(ClipboardError),
    InvalidTransition,
}

/// Outside work the orchestrator asks its caller to perform after a
/// transition: spawn a capture, wind one down, clean one up, or deliver text.
#[derive(Debug)]
pub enum Action {
    /// Allocate a fresh output file and spawn the capture process.
    StartCapture,
    /// Stop the capture process, check its output, and hand the file to the
    /// background transcription task.
    StopCapture,
    /// Kill any capture process and remove its artifacts.
    CancelCapture,
    /// Deliver this text to the focused application.
    DispatchOutput(String),
}

/// The transition table: the state each (state, event) pair leads to, `None`
/// for a pair the orchestrator rejects. The two toggle events adjust
/// orchestrator-local fields and never change the phase, so they are accepted
/// in every state.
pub open spec fn spec_transition(s: DaemonState, e: StateEvent) -> Option<DaemonState> {
    match (s, e) {
        (DaemonState::Idle, StateEvent::StartRecording) => Some(DaemonState::Recording),
        (DaemonState::Recording, StateEvent::StopRecording) => Some(DaemonState::Processing),
        (DaemonState::Recording, StateEvent::Cancel) => Some(DaemonState::Idle),
        (DaemonState::Processing, StateEvent::Cancel) => Some(DaemonState::Idle),
        (DaemonState::Outputting, StateEvent::Cancel) => Some(DaemonState::Idle),
        (DaemonState::Processing, StateEvent::ProcessingComplete(_)) => Some(
            DaemonState::Outputting,
        ),
        (DaemonState::Outputting, StateEvent::OutputComplete) => Some(DaemonState::Idle),
        (_, StateEvent::ToggleOutputMode) => Some(s),
        (_, StateEvent::ToggleLanguage) => Some(s),
        _ => None,
    }
}

/// The transition table, row by row: exactly the listed pairs are valid, and
/// each valid pair leads to the listed state.
pub proof fn lemma_transition_table(s: DaemonState, e: StateEvent)
    ensures
        spec_transition(s, e) is Some <==> ((s == DaemonState::Idle && e is StartRecording) || (
        s == DaemonState::Recording && e is StopRecording) || (s != DaemonState::Idle && e
            is Cancel) || (s == DaemonState::Processing && e is ProcessingComplete) || (s
            == DaemonState::Outputting && e is OutputComplete) || e is ToggleOutputMode || e
            is ToggleLanguage),
        s == DaemonState::Idle && e is StartRecording ==> spec_transition(s, e) == Some(
            DaemonState::Recording,
        ),
        s == DaemonState::Recording && e is StopRecording ==> spec_transition(s, e) == Some(
            DaemonState::Processing,
        ),
        s != DaemonState::Idle && e is Cancel ==> spec_transition(s, e) == Some(DaemonState::Idle),
        s == DaemonState::Processing && e is ProcessingComplete ==> spec_transition(s, e) == Some(
            DaemonState::Outputting,
        ),
        s == DaemonState::Outputting && e is OutputComplete ==> spec_transition(s, e) == Some(
            DaemonState::Idle,
        ),
        e is ToggleOutputMode || e is ToggleLanguage ==> spec_transition(s, e) == Some(s),
{
}

/// The cycle the output-mode toggle walks.
pub open spec fn spec_next_output_mode(m: OutputMode) -> OutputMode {
    match m {
        OutputMode::Direct => OutputMode::Clipboard,
        OutputMode::Clipboard => OutputMode::Both,
        OutputMode::Both => OutputMode::Direct,
    }
}

/// The first position of `lang` in `langs`, if it occurs.
pub open spec fn spec_find_language(langs: Seq<String>, lang: Seq<char>) -> Option<int>
    decreases langs.len(),
{
    if langs.len() == 0 {
        None
    } else if langs[0]@ == lang {
        Some(0)
    } else {
        match spec_find_language(langs.drop_first(), lang) {
            Some(i) => Some(i + 1),
            None => None,
        }
    }
}

proof fn lemma_find_language_first(langs: Seq<String>, lang: Seq<char>, k: int)
    requires
        0 <= k <= langs.len(),
        forall|j: int| 0 <= j < k ==> langs[j]@ != lang,
        k < langs.len() ==> langs[k]@ == lang,
    ensures
        k < langs.len() ==> spec_find_language(langs, lang) == Some(k),
        k == langs.len() ==> spec_find_language(langs, lang) is None,
    decreases langs.len(),
{
    if langs.len() > 0 && k > 0 {
        assert(langs[0]@ != lang);
        assert(forall|j: int|
            0 <= j < k - 1 ==> #[trigger] langs.drop_first()[j]@ == langs[j + 1]@);
        lemma_find_language_first(langs.drop_first(), lang, k - 1);
    }
}

/// The position the configured language starts at in the language list: its
/// first occurrence, or the front of the list when it does not occur.
pub fn find_language_index(langs: &Vec<String>, lang: &String) -> (r: usize)
    ensures
        spec_find_language(langs@, lang@) matches Some(i) ==> r == i,
        spec_find_language(langs@, lang@) is None ==> r == 0,
        langs@.len() == 0 ==> r == 0,
        langs@.len() > 0 ==> r < langs@.len(),
{
    let n = langs.len();
    let mut idx: usize = 0;
    while idx < n
        invariant
            n == langs@.len(),
            0 <= idx <= n,
            forall|j: int| 0 <= j < idx ==> langs@[j]@ != lang@,
        decreases n - idx,
    {
        if langs[idx].eq(lang) {
            proof {
                lemma_find_language_first(langs@, lang@, idx as int);
            }
            return idx;
        }
        idx += 1;
    }
    proof {
        lemma_find_language_first(langs@, lang@, n as int);
    }
    0
}

pub struct StateMachine {
    pub state: DaemonState,
    pub config: Config,
    pub output_mode: OutputMode,
    pub language_index: usize,
}

impl StateMachine {
    /// The language index always points into the configured language list
    /// (and sits at zero when the list is empty).
    pub open spec fn wf(self) -> bool {
        if self.config.general.languages@.len() == 0 {
            self.language_index == 0
        } else {
            self.language_index < self.config.general.languages@.len()
        }
    }

    pub fn new(config: Config) -> (r: Self)
        ensures
            r.wf(),
            r.state == DaemonState::Idle,
            r.config == config,
            r.output_mode == config.output.output_mode,
            spec_find_language(config.general.languages@, config.general.language@) matches Some(
                i,
            ) ==> r.language_index == i,
            spec_find_language(config.general.languages@, config.general.language@) is None
                ==> r.language_index == 0,
    {
        let found = find_language_index(&config.general.languages, &config.general.language);
        let output_mode = config.output.output_mode;
        StateMachine { state: DaemonState::Idle, config, output_mode, language_index: found }
    }

    pub fn state(&self) -> (r: DaemonState)
        ensures
            r == self.state,
    {
        self.state
    }

    /// The language the next transcription will ask for.
    pub fn current_language(&self) -> (r: String)
        requires
            self.wf(),
        ensures
            self.config.general.languages@.len() > 0 ==> r@
                == self.config.general.languages@[self.language_index as int]@,
            self.config.general.languages@.len() == 0 ==> r@ == self.config.general.language@,
    {
        if self.config.general.languages.len() > 0 {
            self.config.general.languages[self.language_index].clone()
        } else {
            self.config.general.language.clone()
        }
    }

    /// Feed one event through the transition table. A valid pair moves the
    /// machine and names the outside work to perform; an invalid pair changes
    /// nothing and is rejected as `InvalidTransition`.
    pub fn handle_event(&mut self, event: StateEvent) -> (r: Result<Option<Action>, StateError>)
        requires
            old(self).wf(),
        ensures
            final(self).wf(),
            final(self).config == old(self).config,
            spec_transition(old(self).state, event) is None <==> r == Err::<
                Option<Action>,
                StateError,
            >(StateError::InvalidTransition),
            r is Err ==> *final(self) == *old(self),
            spec_transition(old(self).state, event) matches Some(s2) ==> final(self).state == s2,
            r is Ok && event is ToggleOutputMode ==> final(self).output_mode
                == spec_next_output_mode(old(self).output_mode),
            r is Ok && !(event is ToggleOutputMode) ==> final(self).output_mode == old(
                self,
            ).output_mode,
            r is Ok && event is ToggleLanguage && old(self).config.general.languages@.len() > 0
                ==> final(self).language_index == (old(self).language_index + 1) % (old(
                self,
            ).config.general.languages@.len() as int),
            r is Ok && !(event is ToggleLanguage) ==> final(self).language_index == old(
                self,
            ).language_index,
            old(self).state == DaemonState::Idle && event is StartRecording ==> r == Ok::<
                Option<Action>,
                StateError,
            >(Some(Action::StartCapture)),
            old(self).state == DaemonState::Recording && event is StopRecording ==> r == Ok::<
                Option<Action>,
                StateError,
            >(Some(Action::StopCapture)),
            old(self).state != DaemonState::Idle && event is Cancel ==> r == Ok::<
                Option<Action>,
                StateError,
            >(Some(Action::CancelCapture)),
            old(self).state == DaemonState::Processing && event is ProcessingComplete ==> r
                == Ok::<Option<Action>, StateError>(
                Some(Action::DispatchOutput(event->ProcessingComplete_0)),
            ),
            old(self).state == DaemonState::Outputting && event is OutputComplete ==> r == Ok::<
                Option<Action>,
                StateError,
            >(None),
            (event is ToggleOutputMode || event is ToggleLanguage) ==> r == Ok::<
                Option<Action>,
                StateError,
            >(None),
    {
        match event {
            StateEvent::ToggleOutputMode => {
                self.output_mode = match self.output_mode {
                    OutputMode::Direct => OutputMode::Clipboard,
                    OutputMode::Clipboard => OutputMode::Both,
                    OutputMode::Both => OutputMode::Direct,
                };
                Ok(None)
            },
            StateEvent::ToggleLanguage => {
                let n = self.config.general.languages.len();
                if n > 0 {
                    self.language_index = (self.language_index + 1) % n;
                }
                Ok(None)
            },
            StateEvent::StartRecording => {
                if self.state == DaemonState::Idle {
                    self.state = DaemonState::Recording;
                    Ok(Some(Action::StartCapture))
                } else {
                    Err(StateError::InvalidTransition)
                }
            },
            StateEvent::StopRecording => {
                if self.state == DaemonState::Recording {
                    self.state = DaemonState::Processing;
                    Ok(Some(Action::StopCapture))
                } else {
                    Err(StateError::InvalidTransition)
                }
            },
            StateEvent::Cancel => {
                if self.state != DaemonState::Idle {
                    self.state = DaemonState::Idle;
                    Ok(Some(Action::CancelCapture))
                } else {
                    Err(StateError::InvalidTransition)
                }
            },
            StateEvent::ProcessingComplete(text) => {
                if self.state == DaemonState::Processing {
                    self.state = DaemonState::Outputting;
                    Ok(Some(Action::DispatchOutput(text)))
                } else {
                    Err(StateError::InvalidTransition)
                }
            },
            StateEvent::OutputComplete => {
                if self.state == DaemonState::Outputting {
                    self.state = DaemonState::Idle;
                    Ok(None)
                } else {
                    Err(StateError::InvalidTransition)
                }
            },
        }
    }
}

/// True when any character of `text` falls outside ASCII.
pub open spec fn spec_has_non_ascii(text: Seq<char>) -> bool {
    exists|i: int| 0 <= i < text.len() && #[trigger] (text[i] as u32) > 127
}

/// The step after a direct-typing attempt.
#[derive(Clone, Copy, Debug, PartialEq, Eq, Structural)]
pub enum TypingFollowUp {
    /// The text was typed; the output is complete.
    Complete,
    /// The text goes to the clipboard path instead.
    ClipboardFallback,
}

/// What follows a direct-typing attempt: success completes the output, and
/// any typing failure — an unsupported character as much as a device error —
/// falls back to the clipboard rather than surfacing to the user, so the
/// output either succeeds or leaves the text recoverable on the clipboard.
pub fn typing_follow_up(typed: &Result<(), UinputError>) -> (r: TypingFollowUp)
    ensures
        typed is Ok <==> r == TypingFollowUp::Complete,
        typed is Err <==> r == TypingFollowUp::ClipboardFallback,
{
    match typed {
        Ok(_) => TypingFollowUp::Complete,
        Err(_) => TypingFollowUp::ClipboardFallback,
    }
}

/// Whether `text` must go through the clipboard rather than direct synthetic
/// typing: always under the newer display protocol, and always when the text
/// holds any non-ASCII character.
pub fn use_clipboard_output(is_wayland: bool, text: &str) -> (r: bool)
    ensures
        r == (is_wayland || spec_has_non_ascii(text@)),
{
    if is_wayland {
        return true;
    }
    let len = text.unicode_len();
    let mut i: usize = 0;
    while i < len
        invariant
            len == text@.len(),
            0 <= i <= len,
            forall|j: int| 0 <= j < i ==> #[trigger] (text@[j] as u32) <= 127,
        decreases len - i,
    {
        let c = text.get_char(i);
        if c as u32 > 127 {
            return true;
        }
        i += 1;
    }
    false
}

} // verus!
