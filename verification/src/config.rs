//! Configuration model: the sections of the daemon's configuration file, their
//! defaults, and the path/key handling that does not touch the file system.
use vstd::prelude::*;
use crate::text::trim_spec;
use crate::text::trim_str;
use crate::sysdirs::home_dir_string;
use crate::sysdirs::config_dir_string;

verus! {

#[derive(Debug)]
pub enum ConfigError {
    ReadError(String),
    ParseError(String),
    KeyReadError(String),
    InvalidKey,
}

#[derive(Clone, Copy, Debug, PartialEq, Eq, Structural)]
pub enum OutputMode {
    Direct,
    Clipboard,
    Both,
}

impl OutputMode {
    /// The mode's name as the configuration file spells it.
    pub fn name(&self) -> (r: String)
        ensures
            *self == OutputMode::Direct ==> r@ == "direct"@,
            *self == OutputMode::Clipboard ==> r@ == "clipboard"@,
            *self == OutputMode::Both ==> r@ == "both"@,
    {
        match self {
            OutputMode::Direct => String::from_str("direct"),
            OutputMode::Clipboard => String::from_str("clipboard"),
            OutputMode::Both => String::from_str("both"),
        }
    }
}

#[derive(Clone, Debug)]
pub struct GeneralConfig {
    pub language: String,
    pub languages: Vec<String>,
}

#[derive(Clone, Debug)]
pub struct HotkeyConfig {
    pub push_to_talk_key: String,
    pub push_to_talk_enabled: bool,
    pub toggle_shortcut: String,
    pub toggle_enabled: bool,
    pub cancel_shortcut: String,
    pub output_mode_shortcut: String,
    pub language_shortcut: String,
}

#[derive(Clone, Debug)]
pub struct AudioConfig {
    pub device: String,
    pub sample_rate: u32,
    pub format: String,
}

#[derive(Clone, Debug)]
pub struct GroqConfig {
    pub key_file: String,
    pub whisper_model: String,
    pub cleanup_enabled: bool,
    pub cleanup_model: String,
    pub cleanup_prompt_file: String,
}

#[derive(Clone, Debug)]
pub struct OutputConfig {
    pub keystroke_delay_ms: u64,
    pub clipboard_restore: bool,
    pub output_mode: OutputMode,
}

#[derive(Clone, Debug)]
pub struct Config {
    pub general: GeneralConfig,
    pub hotkeys: HotkeyConfig,
    pub audio: AudioConfig,
    pub groq: GroqConfig,
    pub output: OutputConfig,
}

pub fn default_language() -> (r: String)
    ensures
        r@ == "en"@,
{
    String::from_str("en")
}

pub fn default_languages() -> (r: Vec<String>)
    ensures
        r@.len() == 5,
        r@[0]@ == "en"@,
        r@[1]@ == "tr"@,
        r@[2]@ == "es"@,
        r@[3]@ == "fr"@,
        r@[4]@ == "de"@,
{
    let mut v: Vec<String> = Vec::new();
    v.push(String::from_str("en"));
    v.push(String::from_str("tr"));
    v.push(String::from_str("es"));
    v.push(String::from_str("fr"));
    v.push(String::from_str("de"));
    v
}

pub fn default_push_to_talk_key() -> (r: String)
    ensures
        r@ == "RightAlt"@,
{
    String::from_str("RightAlt")
}

pub fn default_toggle_shortcut() -> (r: String)
    ensures
        r@ == "Super+Shift+R"@,
{
    String::from_str("Super+Shift+R")
}

pub fn default_cancel_shortcut() -> (r: String)
    ensures
        r@ == "Escape"@,
{
    String::from_str("Escape")
}

pub fn default_output_mode_shortcut() -> (r: String)
    ensures
        r@ == "Shift+RightAlt+O"@,
{
    String::from_str("Shift+RightAlt+O")
}

pub fn default_language_shortcut() -> (r: String)
    ensures
        r@ == "Shift+RightAlt+L"@,
{
    String::from_str("Shift+RightAlt+L")
}

pub fn default_true() -> (r: bool)
    ensures
        r == true,
{
    true
}

pub fn default_device() -> (r: String)
    ensures
        r@ == "default"@,
{
    String::from_str("default")
}

pub fn default_sample_rate() -> (r: u32)
    ensures
        r == 16000,
{
    16000
}

pub fn default_format() -> (r: String)
    ensures
        r@ == "s16"@,
{
    String::from_str("s16")
}

pub fn default_key_file() -> (r: String)
    ensures
        r@ == "~/.config/croaker/groq.key"@,
{
    String::from_str("~/.config/croaker/groq.key")
}

pub fn default_whisper_model() -> (r: String)
    ensures
        r@ == "whisper-large-v3-turbo"@,
{
    String::from_str("whisper-large-v3-turbo")
}

pub fn default_cleanup_model() -> (r: String)
    ensures
        r@ == "llama-3.3-70b-versatile"@,
{
    String::from_str("llama-3.3-70b-versatile")
}

pub fn default_cleanup_prompt_file() -> (r: String)
    ensures
        r@ == "~/.config/croaker/prompts/default.txt"@,
{
    String::from_str("~/.config/croaker/prompts/default.txt")
}

pub fn default_keystroke_delay() -> (r: u64)
    ensures
        r == 5,
{
    5
}

pub fn default_output_mode() -> (r: OutputMode)
    ensures
        r == OutputMode::Both,
{
    OutputMode::Both
}

pub fn default_backend() -> (r: String)
    ensures
        r@ == "notification"@,
{
    String::from_str("notification")
}

pub fn default_position() -> (r: String)
    ensures
        r@ == "top-center"@,
{
    String::from_str("top-center")
}

pub fn default_size() -> (r: u32)
    ensures
        r == 48,
{
    48
}

/// The default values of the general section.
pub open spec fn general_defaults(g: GeneralConfig) -> bool {
    &&& g.language@ == "en"@
    &&& g.languages@.len() == 5
    &&& g.languages@[0]@ == "en"@
    &&& g.languages@[1]@ == "tr"@
    &&& g.languages@[2]@ == "es"@
    &&& g.languages@[3]@ == "fr"@
    &&& g.languages@[4]@ == "de"@
}

/// The default values of the hotkey section.
pub open spec fn hotkey_defaults(h: HotkeyConfig) -> bool {
    &&& h.push_to_talk_key@ == "RightAlt"@
    &&& h.push_to_talk_enabled == true
    &&& h.toggle_shortcut@ == "Super+Shift+R"@
    &&& h.toggle_enabled == true
    &&& h.cancel_shortcut@ == "Escape"@
    &&& h.output_mode_shortcut@ == "Shift+RightAlt+O"@
    &&& h.language_shortcut@ == "Shift+RightAlt+L"@
}

/// The default values of the audio section.
pub open spec fn audio_defaults(a: AudioConfig) -> bool {
    &&& a.device@ == "default"@
    &&& a.sample_rate == 16000
    &&& a.format@ == "s16"@
}

/// The default values of the transcription-service section.
pub open spec fn groq_defaults(g: GroqConfig) -> bool {
    &&& g.key_file@ == "~/.config/croaker/groq.key"@
    &&& g.whisper_model@ == "whisper-large-v3-turbo"@
    &&& g.cleanup_enabled == true
    &&& g.cleanup_model@ == "llama-3.3-70b-versatile"@
    &&& g.cleanup_prompt_file@ == "~/.config/croaker/prompts/default.txt"@
}

/// The default values of the output section.
pub open spec fn output_defaults(o: OutputConfig) -> bool {
    &&& o.keystroke_delay_ms == 5
    &&& o.clipboard_restore == true
    &&& o.output_mode == OutputMode::Both
}

/// The default values of the whole configuration.
pub open spec fn config_defaults(c: Config) -> bool {
    &&& general_defaults(c.general)
    &&& hotkey_defaults(c.hotkeys)
    &&& audio_defaults(c.audio)
    &&& groq_defaults(c.groq)
    &&& output_defaults(c.output)
}

impl Default for GeneralConfig {
    fn default() -> (r: Self)
        ensures
            general_defaults(r),
    {
        GeneralConfig { language: default_language(), languages: default_languages() }
    }
}

impl Default for HotkeyConfig {
    fn default() -> (r: Self)
        ensures
            hotkey_defaults(r),
    {
        HotkeyConfig {
            push_to_talk_key: default_push_to_talk_key(),
            push_to_talk_enabled: default_true(),
            toggle_shortcut: default_toggle_shortcut(),
            toggle_enabled: default_true(),
            cancel_shortcut: default_cancel_shortcut(),
            output_mode_shortcut: default_output_mode_shortcut(),
            language_shortcut: default_language_shortcut(),
        }
    }
}

impl Default for AudioConfig {
    fn default() -> (r: Self)
        ensures
            audio_defaults(r),
    {
        AudioConfig {
            device: default_device(),
            sample_rate: default_sample_rate(),
            format: default_format(),
        }
    }
}

impl Default for GroqConfig {
    fn default() -> (r: Self)
        ensures
            groq_defaults(r),
    {
        GroqConfig {
            key_file: default_key_file(),
            whisper_model: default_whisper_model(),
            cleanup_enabled: default_true(),
            cleanup_model: default_cleanup_model(),
            cleanup_prompt_file: default_cleanup_prompt_file(),
        }
    }
}

impl Default for OutputConfig {
    fn default() -> (r: Self)
        ensures
            output_defaults(r),
    {
        OutputConfig {
            keystroke_delay_ms: default_keystroke_delay(),
            clipboard_restore: default_true(),
            output_mode: default_output_mode(),
        }
    }
}

impl Default for Config {
    fn default() -> (r: Self)
        ensures
            config_defaults(r),
    {
        Config {
            general: GeneralConfig::default(),
            hotkeys: HotkeyConfig::default(),
            audio: AudioConfig::default(),
            groq: GroqConfig::default(),
            output: OutputConfig::default(),
        }
    }
}

/// True when `path` names a file under the user's home directory by a leading
/// tilde.
pub open spec fn has_tilde_prefix(path: Seq<char>) -> bool {
    path.len() >= 2 && path[0] == '~' && path[1] == '/'
}

impl Config {
    /// A tilde-prefixed `path` re-rooted at `home`; anything else is unchanged.
    pub fn expand_path_with_home(path: &str, home: &str) -> (r: String)
        ensures
            has_tilde_prefix(path@) ==> r@ == home@ + "/"@ + path@.skip(2),
            !has_tilde_prefix(path@) ==> r@ == path@,
    {
        let len = path.unicode_len();
        if len >= 2 && path.get_char(0) == '~' && path.get_char(1) == '/' {
            let suffix = path.substring_char(2, len);
            let mut out = String::from_str(home);
            out.append("/");
            out.append(suffix);
            proof {
                assert(path@.subrange(2, len as int) =~= path@.skip(2));
            }
            out
        } else {
            String::from_str(path)
        }
    }

    /// A tilde-prefixed `path` re-rooted at the home directory that the
    /// platform reports; fails only when a tilde needs expanding and no home
    /// directory is known.
    pub fn expand_path(path: &str) -> (r: Result<String, ConfigError>)
        ensures
            !has_tilde_prefix(path@) ==> (r matches Ok(s) && s@ == path@),
            has_tilde_prefix(path@) ==> (r matches Ok(s) ==> exists|h: Seq<char>|
                s@ == h + "/"@ + path@.skip(2)),
            r is Err ==> has_tilde_prefix(path@) && (r matches Err(e) && e is ReadError),
    {
        let len = path.unicode_len();
        if len >= 2 && path.get_char(0) == '~' && path.get_char(1) == '/' {
            match home_dir_string() {
                Some(home) => {
                    let expanded = Self::expand_path_with_home(path, home.as_str());
                    proof {
                        let h = home@;
                        assert(expanded@ == h + "/"@ + path@.skip(2));
                    }
                    Ok(expanded)
                },
                None => Err(
                    ConfigError::ReadError(String::from_str("Could not find home directory")),
                ),
            }
        } else {
            Ok(String::from_str(path))
        }
    }

    /// Where the configuration file lives: `croaker/config.toml` under the
    /// platform's configuration directory.
    pub fn config_path() -> (r: Result<String, ConfigError>)
        ensures
            r matches Ok(p) ==> exists|base: Seq<char>| p@ == base + "/croaker/config.toml"@,
            r matches Err(e) ==> e is ReadError,
    {
        match config_dir_string() {
            Some(base) => {
                let mut out = base;
                let ghost b = out@;
                out.append("/croaker/config.toml");
                proof {
                    assert(out@ == b + "/croaker/config.toml"@);
                }
                Ok(out)
            },
            None => Err(ConfigError::ReadError(String::from_str("Could not find config directory"))),
        }
    }

    /// The API key held in the key file's contents: the contents trimmed,
    /// rejected as `InvalidKey` exactly when nothing but whitespace is there.
    pub fn api_key_from_contents(contents: &str) -> (r: Result<String, ConfigError>)
        ensures
            trim_spec(contents@).len() == 0 <==> (r matches Err(e) && e is InvalidKey),
            r matches Ok(k) ==> k@ == trim_spec(contents@),
            r is Err ==> (r matches Err(e) && e is InvalidKey),
    {
        let key = trim_str(contents);
        if key.as_str().unicode_len() == 0 {
            Err(ConfigError::InvalidKey)
        } else {
            Ok(key)
        }
    }

    /// Where the fallback cleanup prompt lives: `croaker/prompts/default.txt`
    /// under the platform's configuration directory.
    pub fn default_prompt_path() -> (r: Result<String, ConfigError>)
        ensures
            r matches Ok(p) ==> exists|base: Seq<char>|
                p@ == base + "/croaker/prompts/default.txt"@,
            r matches Err(e) ==> e is ReadError,
    {
        match config_dir_string() {
            Some(base) => {
                let mut out = base;
                let ghost b = out@;
                out.append("/croaker/prompts/default.txt");
                proof {
                    assert(out@ == b + "/croaker/prompts/default.txt"@);
                }
                Ok(out)
            },
            None => Err(
                ConfigError::ReadError(String::from_str("Could not find config directory")),
            ),
        }
    }

    /// The built-in instruction text used to clean a transcription up when no
    /// prompt file exists.
    pub fn default_prompt_text() -> (r: String)
        ensures
            r@ == "Clean up this speech-to-text transcription:\n- Fix punctuation and capitalization\n- Remove filler words (um, uh, like, you know)\n- Fix obvious transcription errors\n- Preserve meaning and tone\n\nOutput only the cleaned text, nothing else."@,
    {
        String::from_str(
            "Clean up this speech-to-text transcription:\n- Fix punctuation and capitalization\n- Remove filler words (um, uh, like, you know)\n- Fix obvious transcription errors\n- Preserve meaning and tone\n\nOutput only the cleaned text, nothing else.",
        )
    }
}

/// The annotated configuration file written on first start, every option at
/// its shipped value.
pub open spec fn spec_default_config_text() -> Seq<char> {
    r#"# croaker Configuration File
# All options are shown below with their default values.
# Uncomment and modify any option you want to change.

[general]
# Language code for transcription (e.g., "en", "es", "fr")
language = "en"
# List of languages to toggle between (use language codes like "en", "tr", "es", "fr", "de", etc.)
languages = ["en", "tr", "es", "fr", "de"]

[hotkeys]
# Push-to-talk key (e.g., "RightAlt", "LeftAlt", "RightCtrl", "LeftCtrl")
push_to_talk_key = "RightAlt"
# Enable push-to-talk mode
push_to_talk_enabled = true
# Toggle shortcut for recording (e.g., "Super+Shift+R")
toggle_shortcut = "Super+Shift+R"
# Enable toggle shortcut mode
toggle_enabled = true
# Cancel shortcut
cancel_shortcut = "Escape"
# Output mode toggle shortcut (cycles between direct/clipboard/both)
output_mode_shortcut = "Shift+RightAlt+O"
# Language toggle shortcut (cycles through configured languages)
language_shortcut = "Shift+RightAlt+L"

[audio]
# Audio device (use "default" for system default)
device = "default"
# Sample rate in Hz
sample_rate = 16000
# Audio format (s16, s24, s32, f32, f64)
format = "s16"

[groq]
# Path to Groq API key file
key_file = "~/.config/croaker/groq.key"
# Whisper model for transcription (use any Groq-supported Whisper model slug)
# Examples: whisper-large-v3-turbo, whisper-large-v3, whisper-medium, etc.
whisper_model = "whisper-large-v3-turbo"
# Enable LLM cleanup of transcription
cleanup_enabled = true
# LLM model for text cleanup (use any Groq-supported model slug)
# Examples: llama-3.3-70b-versatile, llama-3.1-8b-instant, openai/gpt-oss-20b, etc.
# Check https://console.groq.com/docs/models for available models
cleanup_model = "llama-3.3-70b-versatile"
# Path to cleanup prompt file
cleanup_prompt_file = "~/.config/croaker/prompts/default.txt"

[output]
# Delay between keystrokes in milliseconds (for uinput typing)
keystroke_delay_ms = 5
# Restore clipboard after pasting (disabled - user preference)
clipboard_restore = false
# Output mode: "direct" (type directly), "clipboard" (copy to clipboard only), "both" (do both)
output_mode = "both"

[overlay]
# Enable visual overlay
enabled = true
# Overlay backend: "notification" (default, desktop notifications), "gtk" (pulsing dot), "layer-shell", or "auto"
backend = "notification"
# Overlay position: "top-center", "top-left", "top-right", "bottom-center", etc.
position = "top-center"
# Overlay size in pixels
size = 48
# Overlay opacity (0.0 to 1.0)
opacity = 0.9
"#@
}

impl Config {
    /// The annotated configuration file written on first start; the caller
    /// puts it on disk when no configuration file exists yet.
    pub fn default_config_text() -> (r: String)
        ensures
            r@ == spec_default_config_text(),
    {
        String::from_str(
            r#"# croaker Configuration File
# All options are shown below with their default values.
# Uncomment and modify any option you want to change.

[general]
# Language code for transcription (e.g., "en", "es", "fr")
language = "en"
# List of languages to toggle between (use language codes like "en", "tr", "es", "fr", "de", etc.)
languages = ["en", "tr", "es", "fr", "de"]

[hotkeys]
# Push-to-talk key (e.g., "RightAlt", "LeftAlt", "RightCtrl", "LeftCtrl")
push_to_talk_key = "RightAlt"
# Enable push-to-talk mode
push_to_talk_enabled = true
# Toggle shortcut for recording (e.g., "Super+Shift+R")
toggle_shortcut = "Super+Shift+R"
# Enable toggle shortcut mode
toggle_enabled = true
# Cancel shortcut
cancel_shortcut = "Escape"
# Output mode toggle shortcut (cycles between direct/clipboard/both)
output_mode_shortcut = "Shift+RightAlt+O"
# Language toggle shortcut (cycles through configured languages)
language_shortcut = "Shift+RightAlt+L"

[audio]
# Audio device (use "default" for system default)
device = "default"
# Sample rate in Hz
sample_rate = 16000
# Audio format (s16, s24, s32, f32, f64)
format = "s16"

[groq]
# Path to Groq API key file
key_file = "~/.config/croaker/groq.key"
# Whisper model for transcription (use any Groq-supported Whisper model slug)
# Examples: whisper-large-v3-turbo, whisper-large-v3, whisper-medium, etc.
whisper_model = "whisper-large-v3-turbo"
# Enable LLM cleanup of transcription
cleanup_enabled = true
# LLM model for text cleanup (use any Groq-supported model slug)
# Examples: llama-3.3-70b-versatile, llama-3.1-8b-instant, openai/gpt-oss-20b, etc.
# Check https://console.groq.com/docs/models for available models
cleanup_model = "llama-3.3-70b-versatile"
# Path to cleanup prompt file
cleanup_prompt_file = "~/.config/croaker/prompts/default.txt"

[output]
# Delay between keystrokes in milliseconds (for uinput typing)
keystroke_delay_ms = 5
# Restore clipboard after pasting (disabled - user preference)
clipboard_restore = false
# Output mode: "direct" (type directly), "clipboard" (copy to clipboard only), "both" (do both)
output_mode = "both"

[overlay]
# Enable visual overlay
enabled = true
# Overlay backend: "notification" (default, desktop notifications), "gtk" (pulsing dot), "layer-shell", or "auto"
backend = "notification"
# Overlay position: "top-center", "top-left", "top-right", "bottom-center", etc.
position = "top-center"
# Overlay size in pixels
size = 48
# Overlay opacity (0.0 to 1.0)
opacity = 0.9
"#,
        )
    }
}

} // verus!
