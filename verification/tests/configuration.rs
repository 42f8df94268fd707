use croaker::config::Config;
use croaker::config::ConfigError;
use croaker::config::GeneralConfig;
use croaker::config::HotkeyConfig;
use croaker::config::AudioConfig;
use croaker::config::GroqConfig;
use croaker::config::OutputConfig;
use croaker::config::OutputMode;
use croaker::config::default_keystroke_delay;
use croaker::config::default_language;
use croaker::config::default_languages;
use croaker::config::default_output_mode;
use croaker::config::default_push_to_talk_key;
use croaker::config::default_sample_rate;

#[test]
fn shipped_defaults() {
    let c = Config::default();
    assert_eq!(c.general.language, "en");
    assert_eq!(c.general.languages, vec!["en", "tr", "es", "fr", "de"]);
    assert_eq!(c.hotkeys.push_to_talk_key, "RightAlt");
    assert!(c.hotkeys.push_to_talk_enabled);
    assert_eq!(c.hotkeys.toggle_shortcut, "Super+Shift+R");
    assert!(c.hotkeys.toggle_enabled);
    assert_eq!(c.hotkeys.cancel_shortcut, "Escape");
    assert_eq!(c.hotkeys.output_mode_shortcut, "Shift+RightAlt+O");
    assert_eq!(c.hotkeys.language_shortcut, "Shift+RightAlt+L");
    assert_eq!(c.audio.device, "default");
    assert_eq!(c.audio.sample_rate, 16000);
    assert_eq!(c.audio.format, "s16");
    assert_eq!(c.groq.key_file, "~/.config/croaker/groq.key");
    assert_eq!(c.groq.whisper_model, "whisper-large-v3-turbo");
    assert!(c.groq.cleanup_enabled);
    assert_eq!(c.groq.cleanup_model, "llama-3.3-70b-versatile");
    assert_eq!(c.groq.cleanup_prompt_file, "~/.config/croaker/prompts/default.txt");
    assert_eq!(c.output.keystroke_delay_ms, 5);
    assert!(c.output.clipboard_restore);
    assert_eq!(c.output.output_mode, OutputMode::Both);
}

#[test]
fn section_defaults_agree_with_the_default_functions() {
    assert_eq!(GeneralConfig::default().language, default_language());
    assert_eq!(GeneralConfig::default().languages, default_languages());
    assert_eq!(HotkeyConfig::default().push_to_talk_key, default_push_to_talk_key());
    assert_eq!(AudioConfig::default().sample_rate, default_sample_rate());
    assert_eq!(GroqConfig::default().cleanup_enabled, true);
    assert_eq!(OutputConfig::default().keystroke_delay_ms, default_keystroke_delay());
    assert_eq!(OutputConfig::default().output_mode, default_output_mode());
}

#[test]
fn tilde_paths_are_rerooted_at_home() {
    assert_eq!(
        Config::expand_path_with_home("~/.config/croaker/groq.key", "/home/alice"),
        "/home/alice/.config/croaker/groq.key"
    );
    assert_eq!(
        Config::expand_path_with_home("/etc/croaker.toml", "/home/alice"),
        "/etc/croaker.toml"
    );
    assert_eq!(Config::expand_path_with_home("~", "/home/alice"), "~");
}

#[test]
fn api_key_is_trimmed_and_must_be_nonempty() {
    assert_eq!(
        Config::api_key_from_contents("  gsk_something\n").unwrap(),
        "gsk_something"
    );
    assert!(matches!(
        Config::api_key_from_contents(""),
        Err(ConfigError::InvalidKey)
    ));
    assert!(matches!(
        Config::api_key_from_contents(" \n\t "),
        Err(ConfigError::InvalidKey)
    ));
}

#[test]
fn output_mode_names() {
    assert_eq!(OutputMode::Direct.name(), "direct");
    assert_eq!(OutputMode::Clipboard.name(), "clipboard");
    assert_eq!(OutputMode::Both.name(), "both");
}

#[test]
fn default_config_text_is_a_complete_annotated_file() {
    let text = Config::default_config_text();
    assert!(text.starts_with("# croaker Configuration File"));
    assert!(text.contains("[general]"));
    assert!(text.contains("[hotkeys]"));
    assert!(text.contains("[audio]"));
    assert!(text.contains("[groq]"));
    assert!(text.contains("[output]"));
    assert!(text.contains("[overlay]"));
    assert!(text.contains("push_to_talk_key = \"RightAlt\""));
    assert!(text.contains("output_mode_shortcut = \"Shift+RightAlt+O\""));
}

#[test]
fn default_prompt_text_asks_for_cleanup_only() {
    let prompt = Config::default_prompt_text();
    assert!(prompt.starts_with("Clean up this speech-to-text transcription:"));
    assert!(prompt.ends_with("Output only the cleaned text, nothing else."));
}

#[test]
fn config_path_when_available_ends_with_the_fixed_suffix() {
    match Config::config_path() {
        Ok(p) => assert!(p.ends_with("/croaker/config.toml")),
        Err(e) => assert!(matches!(e, ConfigError::ReadError(_))),
    }
}

#[test]
fn expand_path_without_tilde_never_touches_the_environment() {
    assert_eq!(Config::expand_path("/plain/path").unwrap(), "/plain/path");
}
