//! The IPC surface: line-delimited text commands arriving over a local
//! socket, the daemon events they stand for, and the one-line replies they
//! get. The socket itself is bound and read outside.
use vstd::prelude::*;
use crate::state::DaemonState;
use crate::state::StateEvent;
use crate::state::spec_state_name;
use crate::sysdirs::cache_dir_string;
use crate::text::str_eq;
use crate::text::trim_spec;
use crate::text::trim_str;

verus! {

#[derive(Debug)]
pub enum SocketError {
    CreateError(String),
    ParseError(String),
}

#[derive(Clone, Copy, Debug, PartialEq, Eq, Structural)]
pub enum Command {
    Toggle,
    Cancel,
    Status,
    ToggleOutputMode,
    ToggleLanguage,
}

/// The command a received line spells, once surrounding whitespace is
/// dropped; `None` for an unknown command.
pub open spec fn spec_parse_command(line: Seq<char>) -> Option<Command> {
    let t = trim_spec(line);
    if t == "toggle"@ {
        Some(Command::Toggle)
    } else if t == "cancel"@ {
        Some(Command::Cancel)
    } else if t == "status"@ {
        Some(Command::Status)
    } else if t == "toggle-output-mode"@ {
        Some(Command::ToggleOutputMode)
    } else if t == "toggle-language"@ {
        Some(Command::ToggleLanguage)
    } else {
        None
    }
}

impl Command {
    /// Parse one received line into a command.
    pub fn parse(line: &str) -> (r: Result<Command, SocketError>)
        ensures
            spec_parse_command(line@) matches Some(c) ==> r == Ok::<Command, SocketError>(c),
            spec_parse_command(line@) is None ==> (r matches Err(e) && e is ParseError),
    {
        let t = trim_str(line);
        if str_eq(t.as_str(), "toggle") {
            Ok(Command::Toggle)
        } else if str_eq(t.as_str(), "cancel") {
            Ok(Command::Cancel)
        } else if str_eq(t.as_str(), "status") {
            Ok(Command::Status)
        } else if str_eq(t.as_str(), "toggle-output-mode") {
            Ok(Command::ToggleOutputMode)
        } else if str_eq(t.as_str(), "toggle-language") {
            Ok(Command::ToggleLanguage)
        } else {
            let mut msg = String::from_str("Unknown command: ");
            msg.append(t.as_str());
            Err(SocketError::ParseError(msg))
        }
    }

    /// The orchestrator event a command injects; the status query injects
    /// none.
    pub fn event(&self) -> (r: Option<StateEvent>)
        ensures
            *self == Command::Toggle ==> r == Some(StateEvent::StartRecording),
            *self == Command::Cancel ==> r == Some(StateEvent::Cancel),
            *self == Command::Status ==> r is None,
            *self == Command::ToggleOutputMode ==> r == Some(StateEvent::ToggleOutputMode),
            *self == Command::ToggleLanguage ==> r == Some(StateEvent::ToggleLanguage),
    {
        match self {
            Command::Toggle => Some(StateEvent::StartRecording),
            Command::Cancel => Some(StateEvent::Cancel),
            Command::Status => None,
            Command::ToggleOutputMode => Some(StateEvent::ToggleOutputMode),
            Command::ToggleLanguage => Some(StateEvent::ToggleLanguage),
        }
    }

    /// The one-line reply a command gets: the current state's name for the
    /// status query, an acknowledgement for everything else.
    pub fn reply(&self, state: DaemonState) -> (r: String)
        ensures
            *self == Command::Status ==> r@ == spec_state_name(state),
            *self != Command::Status ==> r@ == "ok"@,
    {
        match self {
            Command::Status => state.name(),
            _ => String::from_str("ok"),
        }
    }
}

/// Where the daemon's socket lives: `croaker/croaker.sock` under the
/// platform's cache directory. The caller creates the directory and removes
/// a stale socket file before binding.
pub fn socket_path() -> (r: Result<String, SocketError>)
    ensures
        r matches Ok(p) ==> exists|base: Seq<char>| p@ == base + "/croaker/croaker.sock"@,
        r matches Err(e) ==> e is CreateError,
{
    match cache_dir_string() {
        Some(base) => {
            let mut out = base;
            let ghost b = out@;
            out.append("/croaker/croaker.sock");
            proof {
                assert(out@ == b + "/croaker/croaker.sock"@);
            }
            Ok(out)
        },
        None => Err(SocketError::CreateError(String::from_str("Could not find cache directory"))),
    }
}

} // verus!
