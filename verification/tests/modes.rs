use whispertray::modes::{
    create_builtin_modes, default_stt_model, get_modes_dir, mode_file_name, LlmProvider, Mode,
    OutputFormat, SttProvider, MESSAGE_TEMPLATE,
};
use whispertray::paths::project_config_dir;
use whispertray::registry::{merge_modes, ModeRegistry};
use whispertray::settings::get_settings_path;

#[test]
fn test_create_builtin_modes() {
    let modes = create_builtin_modes();
    assert!(!modes.is_empty());
    assert!(modes.iter().any(|m| m.key == "voice_to_text"));
    assert!(modes.iter().any(|m| m.key == "message"));
    assert!(modes.iter().any(|m| m.key == "email"));
}

#[test]
fn builtin_modes_are_six_in_order() {
    let modes = create_builtin_modes();
    let keys: Vec<&str> = modes.iter().map(|m| m.key.as_str()).collect();
    assert_eq!(keys, vec!["voice_to_text", "message", "email", "note", "meeting", "super"]);
    for mode in &modes {
        assert!(mode.builtin);
        assert_eq!(mode.stt_provider, SttProvider::WhisperCpp);
        assert_eq!(mode.stt_model, "base.en");
        assert_eq!(mode.llm_provider, LlmProvider::Ollama);
    }
    assert!(!modes[0].ai_processing);
    assert_eq!(modes[0].prompt_template, "");
    assert_eq!(modes[0].llm_model, "");
    assert!(modes[1].ai_processing);
    assert_eq!(modes[1].llm_model, "llama3.2");
    assert_eq!(modes[1].prompt_template, MESSAGE_TEMPLATE);
    assert_eq!(modes[3].output_format, OutputFormat::Markdown);
    assert_eq!(modes[4].output_format, OutputFormat::Markdown);
    assert_eq!(modes[5].output_format, OutputFormat::Plain);
}

#[test]
fn message_template_has_the_placeholders() {
    assert!(MESSAGE_TEMPLATE.starts_with("You are a helpful assistant that cleans up"));
    assert!(MESSAGE_TEMPLATE.contains("{{#if context}}\nContext (for reference only):\n{{context}}\n{{/if}}"));
    assert!(MESSAGE_TEMPLATE.ends_with("Transcript to clean up:\n{{transcript}}\n\nCleaned message:"));
}

#[test]
fn default_mode_is_voice_to_text() {
    let mode = Mode::default();
    assert_eq!(mode.key, "voice_to_text");
    assert_eq!(mode.name, "Voice to Text");
    assert_eq!(mode.description, "Simple voice transcription without AI processing");
    assert_eq!(mode.stt_provider, SttProvider::default());
    assert_eq!(mode.llm_provider, LlmProvider::default());
    assert_eq!(mode.output_format, OutputFormat::default());
    assert_eq!(mode.stt_model, default_stt_model());
    assert!(!mode.ai_processing);
    assert!(mode.builtin);
}

#[test]
fn provider_equality_compares_names() {
    assert_eq!(SttProvider::Custom("a".to_string()), SttProvider::Custom("a".to_string()));
    assert_ne!(SttProvider::Custom("a".to_string()), SttProvider::Custom("b".to_string()));
    assert_ne!(SttProvider::OpenAI, SttProvider::Deepgram);
    assert_eq!(LlmProvider::Custom("x".to_string()).clone(), LlmProvider::Custom("x".to_string()));
    assert_ne!(LlmProvider::OpenAI, LlmProvider::Anthropic);
}

#[test]
fn registry_keeps_one_mode_per_key() {
    let mut registry = ModeRegistry::new();
    assert_eq!(registry.len(), 0);
    assert!(registry.get("voice_to_text").is_none());
    registry.insert(Mode::default());
    let mut renamed = Mode::default();
    renamed.name = "Dictation".to_string();
    registry.insert(renamed);
    assert_eq!(registry.len(), 1);
    assert!(registry.contains_key("voice_to_text"));
    assert!(!registry.contains_key("voice"));
    assert_eq!(registry.get("voice_to_text").unwrap().name, "Dictation");
}

#[test]
fn custom_modes_override_builtin_modes() {
    let mut email = Mode::default();
    email.key = "email".to_string();
    email.name = "My Email".to_string();
    email.builtin = false;
    let mut extra = Mode::default();
    extra.key = "haiku".to_string();
    let registry = merge_modes(vec![email, extra]);
    assert_eq!(registry.len(), 7);
    let keys: Vec<&str> = registry.values().iter().map(|m| m.key.as_str()).collect();
    assert_eq!(keys, vec!["voice_to_text", "message", "email", "note", "meeting", "super", "haiku"]);
    assert_eq!(registry.get("email").unwrap().name, "My Email");
    assert!(!registry.get("email").unwrap().builtin);
    assert_eq!(registry.get("note").unwrap().name, "Note");
}

#[test]
fn files_of_modes_and_settings() {
    let config = project_config_dir().unwrap();
    assert_eq!(get_modes_dir().unwrap(), format!("{}/modes", config));
    assert_eq!(get_settings_path().unwrap(), format!("{}/settings.json", config));
    assert_eq!(mode_file_name("email"), "email.json");
}
