//! The settings of the application.

use crate::error::SessionError;
use crate::paths::{join_path, joined_path, missing_directory_error, project_config_dir};
use crate::text::option_text;
use vstd::prelude::*;

verus! {

/// The settings of the application.
#[derive(Debug)]
pub struct Settings {
    /// Speech-to-text provider of new modes.
    pub default_stt_provider: String,
    /// Speech-to-text model of new modes.
    pub default_stt_model: String,
    /// Language-model provider of new modes.
    pub default_llm_provider: String,
    /// Language model of new modes.
    pub default_llm_model: String,
    /// Key of the active mode.
    pub active_mode_key: String,
    /// Name of the input device; empty for the default device.
    pub input_device: String,
    /// Whether the output is pasted after it is copied.
    pub auto_paste: bool,
    /// Whether a snapshot of the context is taken when a recording starts.
    pub context_awareness: bool,
    /// The language that is spoken.
    pub language: String,
    /// Address of a self-hosted speech-to-text server.
    pub whisper_server_url: Option<String>,
}

/// [`Settings`] with its strings as text.
pub struct SettingsView {
    pub default_stt_provider: Seq<char>,
    pub default_stt_model: Seq<char>,
    pub default_llm_provider: Seq<char>,
    pub default_llm_model: Seq<char>,
    pub active_mode_key: Seq<char>,
    pub input_device: Seq<char>,
    pub auto_paste: bool,
    pub context_awareness: bool,
    pub language: Seq<char>,
    pub whisper_server_url: Option<Seq<char>>,
}

impl View for Settings {
    type V = SettingsView;

    open spec fn view(&self) -> SettingsView {
        SettingsView {
            default_stt_provider: self.default_stt_provider@,
            default_stt_model: self.default_stt_model@,
            default_llm_provider: self.default_llm_provider@,
            default_llm_model: self.default_llm_model@,
            active_mode_key: self.active_mode_key@,
            input_device: self.input_device@,
            auto_paste: self.auto_paste,
            context_awareness: self.context_awareness,
            language: self.language@,
            whisper_server_url: option_text(self.whisper_server_url),
        }
    }
}

/// The settings of a fresh installation: local providers, the default input
/// device, English, automatic paste, no context.
pub open spec fn default_settings() -> SettingsView {
    SettingsView {
        default_stt_provider: "whispercpp"@,
        default_stt_model: "base.en"@,
        default_llm_provider: "ollama"@,
        default_llm_model: "llama3.2"@,
        active_mode_key: "voice_to_text"@,
        input_device: ""@,
        auto_paste: true,
        context_awareness: false,
        language: "en"@,
        whisper_server_url: None,
    }
}

/// The file of the settings: `settings.json` in the directory of the
/// application's configuration.
pub fn get_settings_path() -> (file: Result<String, SessionError>)
    ensures
        match file {
            Ok(path) => exists|config_dir: Seq<char>|
                path@ == joined_path(config_dir, "settings.json"@),
            Err(e) => e@ == missing_directory_error("config"@),
        },
{
    match project_config_dir() {
        Ok(config_dir) => {
            let path = join_path(config_dir.as_str(), "settings.json");
            assert(path@ == joined_path(config_dir@, "settings.json"@));
            Ok(path)
        },
        Err(e) => Err(e),
    }
}

impl Default for Settings {
    fn default() -> (settings: Self)
        ensures
            settings@ == default_settings(),
    {
        Settings {
            default_stt_provider: String::from_str("whispercpp"),
            default_stt_model: String::from_str("base.en"),
            default_llm_provider: String::from_str("ollama"),
            default_llm_model: String::from_str("llama3.2"),
            active_mode_key: String::from_str("voice_to_text"),
            input_device: String::from_str(""),
            auto_paste: true,
            context_awareness: false,
            language: String::from_str("en"),
            whisper_server_url: None,
        }
    }
}

impl Clone for Settings {
    fn clone(&self) -> (r: Self)
        ensures
            r == *self,
    {
        Settings {
            default_stt_provider: self.default_stt_provider.clone(),
            default_stt_model: self.default_stt_model.clone(),
            default_llm_provider: self.default_llm_provider.clone(),
            default_llm_model: self.default_llm_model.clone(),
            active_mode_key: self.active_mode_key.clone(),
            input_device: self.input_device.clone(),
            auto_paste: self.auto_paste,
            context_awareness: self.context_awareness,
            language: self.language.clone(),
            whisper_server_url: match &self.whisper_server_url {
                Some(url) => Some(url.clone()),
                None => None,
            },
        }
    }
}

} // verus!
