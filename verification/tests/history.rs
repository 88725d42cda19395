use whispertray::commands::{
    export_content, export_history_item, get_history, get_recording_status,
    reprocess_history_item, ExportFormat, HistoryQuery, HistoryRequest, Reprocessing,
};
use whispertray::credentials::{
    api_key_name, read_credential, read_deletion, CredentialReply, KEYRING_SERVICE,
};
use whispertray::error::{ErrorKind, SessionError};
use whispertray::history::{llm_provider_label, stt_provider_label, HistoryItem};
use whispertray::modes::{LlmProvider, Mode, SttProvider};
use whispertray::providers::llm::LlmBackend;
use whispertray::settings::Settings;
use whispertray::state::{AppState, Event};
use whispertray::status::RecordingStatus;

fn item() -> HistoryItem {
    HistoryItem::new(
        "id-9".to_string(),
        1_000_000_000_000,
        &Mode::default(),
        Some("/a/id-9.wav".to_string()),
        "raw text".to_string(),
        "final text".to_string(),
        75_042,
    )
}

fn fixing_mode() -> Mode {
    let mut mode = Mode::default();
    mode.key = "fix".to_string();
    mode.ai_processing = true;
    mode.llm_provider = LlmProvider::OpenAI;
    mode.llm_model = "gpt".to_string();
    mode.prompt_template = "{{#if context}}ctx{{/if}}Fix {{language}}: {{transcript}}".to_string();
    mode
}

#[test]
fn provider_labels_are_the_lower_case_names() {
    assert_eq!(stt_provider_label(&SttProvider::WhisperCpp), "whispercpp");
    assert_eq!(stt_provider_label(&SttProvider::WhisperServer), "whisperserver");
    assert_eq!(stt_provider_label(&SttProvider::OpenAI), "openai");
    assert_eq!(stt_provider_label(&SttProvider::Deepgram), "deepgram");
    assert_eq!(llm_provider_label(&LlmProvider::OpenAI), "openai");
    assert_eq!(llm_provider_label(&LlmProvider::Anthropic), "anthropic");
    assert_eq!(llm_provider_label(&LlmProvider::Ollama), "ollama");
}

#[test]
fn custom_provider_label_is_quoted_and_lowered() {
    assert_eq!(stt_provider_label(&SttProvider::Custom("My \"STT\"\n".to_string())), "custom(\"my \\\"stt\\\"\\n\")");
    assert_eq!(llm_provider_label(&LlmProvider::Custom("ÄB".to_string())), "custom(\"äb\")");
}

#[test]
fn record_names_the_language_model_only_for_modes_that_use_it() {
    let plain = item();
    assert_eq!(plain.mode_key, "voice_to_text");
    assert_eq!(plain.llm_provider, None);
    assert_eq!(plain.llm_model, None);
    assert_eq!(plain.error, None);
    let rewritten = HistoryItem::new("i".to_string(), 5, &fixing_mode(), None, "a".to_string(), "b".to_string(), 1);
    assert_eq!(rewritten.llm_provider.as_deref(), Some("openai"));
    assert_eq!(rewritten.llm_model.as_deref(), Some("gpt"));
    assert_eq!(rewritten.audio_path, None);
    assert_eq!(rewritten.clone().output_final, "b");
}

#[test]
fn export_as_text_and_markdown() {
    let record = item();
    assert_eq!(export_history_item(&record, ExportFormat::Txt).unwrap(), "final text");
    assert_eq!(
        export_history_item(&record, ExportFormat::Md).unwrap(),
        "# Transcription\n\n**Date:** 2001-09-09 01:46:40\n**Mode:** voice_to_text\n\n## Output\n\nfinal text"
    );
    assert_eq!(
        export_content(&record, ExportFormat::Md, "some day"),
        "# Transcription\n\n**Date:** some day\n**Mode:** voice_to_text\n\n## Output\n\nfinal text"
    );
}

#[test]
fn export_as_subtitles() {
    let record = item();
    assert_eq!(
        export_history_item(&record, ExportFormat::Srt).unwrap(),
        "1\n00:00:00,000 --> 00:00:75,042\nfinal text\n"
    );
    assert_eq!(
        export_history_item(&record, ExportFormat::Vtt).unwrap(),
        "WEBVTT\n\n00:00:00.000 --> 00:00:75.042\nfinal text\n"
    );
    let mut short = item();
    short.duration_ms = 2_005;
    assert_eq!(export_content(&short, ExportFormat::Srt, ""), "1\n00:00:00,000 --> 00:00:02,005\nfinal text\n");
}

#[test]
fn export_of_a_record_without_date_fails_in_markdown_only() {
    let mut record = item();
    record.created_at = i64::MAX;
    let error = export_history_item(&record, ExportFormat::Md).unwrap_err();
    assert_eq!(error.kind(), ErrorKind::PersistenceFailed);
    assert_eq!(error.message(), "Persistence error: History item has no valid date");
    assert_eq!(export_history_item(&record, ExportFormat::Txt).unwrap(), "final text");
}

#[test]
fn history_queries_have_defaults() {
    assert!(matches!(get_history(None), HistoryRequest::List { limit: 50, offset: 0 }));
    let listed = get_history(Some(HistoryQuery { limit: Some(5), offset: None, search: None }));
    assert!(matches!(listed, HistoryRequest::List { limit: 5, offset: 0 }));
    let paged = get_history(Some(HistoryQuery { limit: None, offset: Some(20), search: None }));
    assert!(matches!(paged, HistoryRequest::List { limit: 50, offset: 20 }));
    let searched = get_history(Some(HistoryQuery { limit: None, offset: Some(3), search: Some("cat".to_string()) }));
    match searched {
        HistoryRequest::Search { text, limit } => {
            assert_eq!(text, "cat");
            assert_eq!(limit, 50);
        }
        other => panic!("unexpected request: {:?}", other),
    }
}

#[test]
fn reprocessing_renders_the_prompt_without_context() {
    let record = item();
    match reprocess_history_item(&record, &fixing_mode(), "en", Some("sk")).unwrap() {
        Reprocessing::Complete { backend, prompt } => {
            assert!(matches!(backend, LlmBackend::OpenAI { .. }));
            assert_eq!(prompt, "Fix en: raw text");
        }
        other => panic!("unexpected plan: {:?}", other),
    }
    let missing = reprocess_history_item(&record, &fixing_mode(), "en", None).unwrap_err();
    assert_eq!(missing.kind(), ErrorKind::MissingCredential);
    match reprocess_history_item(&record, &Mode::default(), "en", None).unwrap() {
        Reprocessing::Keep { output } => assert_eq!(output, "raw text"),
        other => panic!("unexpected plan: {:?}", other),
    }
}

#[test]
fn reprocessed_record_takes_the_new_mode() {
    let mut record = item();
    record.reprocess("fix".to_string(), &fixing_mode(), "better".to_string());
    assert_eq!(record.mode_key, "fix");
    assert_eq!(record.output_final, "better");
    assert_eq!(record.transcript_raw, "raw text");
    assert_eq!(record.llm_provider.as_deref(), Some("openai"));
    assert_eq!(record.llm_model.as_deref(), Some("gpt"));
    assert_eq!(record.stt_provider, "whispercpp");
    record.reprocess("voice_to_text".to_string(), &Mode::default(), "raw text".to_string());
    assert_eq!(record.llm_provider, None);
    assert_eq!(record.llm_model, None);
}

#[test]
fn status_response_follows_the_state() {
    let mut state = AppState::new(Settings::default());
    let loading = get_recording_status(&state);
    assert_eq!(loading.status, RecordingStatus::Loading);
    assert!(!loading.is_recording);
    state.advance(Event::CaptureStarted { context: None }, 1);
    let recording = get_recording_status(&state);
    assert_eq!(recording.status, RecordingStatus::Recording);
    assert!(recording.is_recording);
}

#[test]
fn key_names_are_lower_case() {
    assert_eq!(KEYRING_SERVICE, "whispertray");
    assert_eq!(api_key_name("OpenAI"), "openai_api_key");
    assert_eq!(api_key_name("Deepgram"), "deepgram_api_key");
    assert_eq!(api_key_name("ÄNTHROPIC"), "änthropic_api_key");
}

#[test]
fn answers_of_the_credential_store_are_read() {
    assert_eq!(read_credential(CredentialReply::Found("k".to_string()), true).unwrap().as_deref(), Some("k"));
    assert_eq!(read_credential(CredentialReply::NoEntry, false).unwrap(), None);
    let unreachable = read_credential(CredentialReply::Unavailable("no bus".to_string()), true).unwrap_err();
    assert_eq!(unreachable.kind(), ErrorKind::Keyring);
    assert_eq!(unreachable.message(), "Keyring error: Failed to access keyring: no bus");
    let stt = read_credential(CredentialReply::Failed("locked".to_string()), true).unwrap_err();
    assert_eq!(stt.message(), "Keyring error: Failed to get STT API key: locked");
    let llm = read_credential(CredentialReply::Failed("locked".to_string()), false).unwrap_err();
    assert_eq!(llm.message(), "Keyring error: Failed to get API key: locked");
    assert!(read_deletion(CredentialReply::NoEntry).is_ok());
    assert!(read_deletion(CredentialReply::Found(String::new())).is_ok());
    let deletion = read_deletion(CredentialReply::Failed("locked".to_string())).unwrap_err();
    assert_eq!(deletion.message(), "Keyring error: Failed to delete API key: locked");
    let access = read_deletion(CredentialReply::Unavailable("no bus".to_string())).unwrap_err();
    assert_eq!(access.message(), "Keyring error: Failed to access keyring: no bus");
}

#[test]
fn every_error_has_its_message() {
    let cases = vec![
        (SessionError::RecordingInProgress, ErrorKind::RecordingInProgress, "Recording already in progress"),
        (SessionError::NoRecordingInProgress, ErrorKind::NoRecordingInProgress, "No recording in progress"),
        (SessionError::NotCapturing, ErrorKind::NotCapturing, "No capture is active"),
        (SessionError::DeviceError("d".to_string()), ErrorKind::DeviceError, "Audio device error: d"),
        (SessionError::ModeNotFound("d".to_string()), ErrorKind::ModeNotFound, "Mode not found: d"),
        (SessionError::ModelUnavailable("d".to_string()), ErrorKind::ModelUnavailable, "Model unavailable: d"),
        (SessionError::MissingCredential("d".to_string()), ErrorKind::MissingCredential, "Missing credential: d"),
        (SessionError::UnsupportedProvider("d".to_string()), ErrorKind::UnsupportedProvider, "Unsupported provider: d"),
        (SessionError::TranscriptionFailed("d".to_string()), ErrorKind::TranscriptionFailed, "Transcription error: d"),
        (SessionError::CompletionFailed("d".to_string()), ErrorKind::CompletionFailed, "Completion error: d"),
        (SessionError::PersistenceFailed("d".to_string()), ErrorKind::PersistenceFailed, "Persistence error: d"),
        (SessionError::DeliveryFailed("d".to_string()), ErrorKind::DeliveryFailed, "Delivery error: d"),
        (SessionError::Keyring("d".to_string()), ErrorKind::Keyring, "Keyring error: d"),
        (SessionError::Config("d".to_string()), ErrorKind::Config, "Configuration error: d"),
        (SessionError::Io("d".to_string()), ErrorKind::Io, "IO error: d"),
    ];
    for (error, kind, message) in cases {
        assert_eq!(error.kind(), kind);
        assert_eq!(error.message(), message);
        assert_eq!(error.clone().message(), message);
    }
}

#[test]
fn default_settings() {
    let settings = Settings::default();
    assert_eq!(settings.default_stt_provider, "whispercpp");
    assert_eq!(settings.default_stt_model, "base.en");
    assert_eq!(settings.default_llm_provider, "ollama");
    assert_eq!(settings.default_llm_model, "llama3.2");
    assert_eq!(settings.active_mode_key, "voice_to_text");
    assert_eq!(settings.input_device, "");
    assert!(settings.auto_paste);
    assert!(!settings.context_awareness);
    assert_eq!(settings.language, "en");
    assert_eq!(settings.whisper_server_url, None);
}
