use whispertray::credentials::CredentialReply;
use whispertray::error::{ErrorKind, SessionError};
use whispertray::modes::{LlmProvider, Mode, SttProvider};
use whispertray::providers::llm::LlmBackend;
use whispertray::providers::stt::{InferenceReply, TranscriptionReply};
use whispertray::registry::merge_modes;
use whispertray::settings::Settings;
use whispertray::state::{Action, AppState, Event};
use whispertray::status::RecordingStatus;

fn ready_state(custom: Vec<Mode>, active: &str) -> AppState {
    let mut settings = Settings::default();
    settings.active_mode_key = active.to_string();
    let mut state = AppState::new(settings);
    state.load_modes(merge_modes(custom));
    state
}

fn rewriting_mode(key: &str, provider: LlmProvider) -> Mode {
    let mut mode = Mode::default();
    mode.key = key.to_string();
    mode.ai_processing = true;
    mode.llm_provider = provider;
    mode.llm_model = "m1".to_string();
    mode.prompt_template = "{{#if context}}[{{context}}]{{/if}} Fix ({{language}}): {{transcript}}".to_string();
    mode.builtin = false;
    mode
}

fn kind_of(action: &Action) -> Option<ErrorKind> {
    match action {
        Action::Reject { error } => Some(error.kind()),
        Action::Fail { error } => Some(error.kind()),
        _ => None,
    }
}

fn record_until_transcribing(state: &mut AppState) {
    assert!(matches!(state.advance(Event::StartRequested, 1), Action::BeginCapture { .. }));
    assert!(matches!(state.advance(Event::CaptureStarted { context: Some("clip".to_string()) }, 2), Action::Idle));
    assert_eq!(state.status(), RecordingStatus::Recording);
    assert!(matches!(state.advance(Event::StopRequested, 3), Action::EndCapture));
    let stopped = Event::CaptureStopped { samples: 32_000, session_id: "id-1".to_string(), env_server_url: None };
    match state.advance(stopped, 4) {
        Action::SaveAudio { file_name } => assert_eq!(file_name, "id-1.wav"),
        other => panic!("unexpected action: {:?}", other),
    }
    assert_eq!(state.status(), RecordingStatus::Processing);
    match state.advance(Event::AudioSaved { path: "/audio/id-1.wav".to_string() }, 5) {
        Action::EnsureModel { model, file_name, url } => {
            assert_eq!(model, "base.en");
            assert_eq!(file_name, "ggml-base.en.bin");
            assert_eq!(url, "https://huggingface.co/ggerganov/whisper.cpp/resolve/main/ggml-base.en.bin");
        }
        other => panic!("unexpected action: {:?}", other),
    }
    match state.advance(Event::ModelReady { path: "/models/ggml-base.en.bin".to_string() }, 6) {
        Action::TranscribeLocal { provider, language } => {
            assert_eq!(provider.model_path(), "/models/ggml-base.en.bin");
            assert_eq!(language, "en");
        }
        other => panic!("unexpected action: {:?}", other),
    }
    assert_eq!(state.status(), RecordingStatus::Processing);
}

fn segments(texts: &[&str]) -> Event {
    Event::Inference(InferenceReply::Segments(texts.iter().map(|t| t.to_string()).collect()))
}

#[test]
fn new_state_is_loading_and_modes_make_it_ready() {
    let mut state = AppState::new(Settings::default());
    assert_eq!(state.status(), RecordingStatus::Loading);
    assert!(!state.is_recording());
    assert_eq!(state.active_mode_key(), "voice_to_text");
    assert!(state.get_active_mode().is_none());
    state.load_modes(merge_modes(Vec::new()));
    assert_eq!(state.status(), RecordingStatus::Ready);
    assert_eq!(state.modes().len(), 6);
    assert_eq!(state.get_active_mode().unwrap().key, "voice_to_text");
}

#[test]
fn unknown_active_mode_falls_back_when_modes_load() {
    let state = ready_state(Vec::new(), "gone");
    assert_eq!(state.active_mode_key(), "voice_to_text");
    let kept = ready_state(Vec::new(), "email");
    assert_eq!(kept.active_mode_key(), "email");
}

#[test]
fn set_active_mode_checks_the_registry() {
    let mut state = ready_state(Vec::new(), "voice_to_text");
    assert!(state.set_active_mode("note").is_ok());
    assert_eq!(state.active_mode_key(), "note");
    assert_eq!(state.settings().active_mode_key, "note");
    let error = state.set_active_mode("nope").unwrap_err();
    assert_eq!(error.kind(), ErrorKind::ModeNotFound);
    assert_eq!(error.message(), "Mode not found: nope");
    assert_eq!(state.active_mode_key(), "note");
}

#[test]
fn stop_without_recording_is_refused_and_changes_nothing() {
    let mut loading = AppState::new(Settings::default());
    assert_eq!(kind_of(&loading.advance(Event::StopRequested, 1)), Some(ErrorKind::NoRecordingInProgress));
    assert_eq!(loading.status(), RecordingStatus::Loading);

    let mut ready = ready_state(Vec::new(), "voice_to_text");
    assert_eq!(kind_of(&ready.stop_recording()), Some(ErrorKind::NoRecordingInProgress));
    assert_eq!(kind_of(&ready.advance(Event::StopRequested, 1)), Some(ErrorKind::NoRecordingInProgress));
    let stray = Event::CaptureStopped { samples: 10, session_id: "x".to_string(), env_server_url: None };
    assert_eq!(kind_of(&ready.advance(stray, 1)), Some(ErrorKind::NoRecordingInProgress));
    assert_eq!(ready.status(), RecordingStatus::Ready);

    let mut failed = ready_state(Vec::new(), "voice_to_text");
    let device = Event::CaptureFailed { error: SessionError::DeviceError("no mic".to_string()) };
    assert_eq!(kind_of(&failed.advance(device, 1)), Some(ErrorKind::DeviceError));
    assert_eq!(failed.status(), RecordingStatus::Error);
    assert_eq!(kind_of(&failed.advance(Event::StopRequested, 2)), Some(ErrorKind::NoRecordingInProgress));
    assert_eq!(failed.status(), RecordingStatus::Error);
}

#[test]
fn start_while_recording_or_processing_is_refused() {
    let mut state = ready_state(Vec::new(), "voice_to_text");
    state.advance(Event::CaptureStarted { context: None }, 1);
    assert!(state.is_recording());
    assert_eq!(kind_of(&state.start_recording()), Some(ErrorKind::RecordingInProgress));
    assert_eq!(kind_of(&state.advance(Event::StartRequested, 2)), Some(ErrorKind::RecordingInProgress));
    assert_eq!(kind_of(&state.advance(Event::CaptureStarted { context: None }, 2)), Some(ErrorKind::RecordingInProgress));
    assert_eq!(state.status(), RecordingStatus::Recording);
    let stopped = Event::CaptureStopped { samples: 1, session_id: "s".to_string(), env_server_url: None };
    assert!(matches!(state.advance(stopped, 3), Action::SaveAudio { .. }));
    assert_eq!(state.status(), RecordingStatus::Processing);
    assert_eq!(kind_of(&state.advance(Event::StartRequested, 4)), Some(ErrorKind::RecordingInProgress));
    assert_eq!(kind_of(&state.advance(Event::StopRequested, 4)), Some(ErrorKind::NoRecordingInProgress));
    assert_eq!(state.status(), RecordingStatus::Processing);
}

#[test]
fn interleaved_starts_and_stops_keep_one_session() {
    let mut state = ready_state(Vec::new(), "voice_to_text");
    let mut recording = false;
    let script = [true, true, false, false, true, false, true, true, true, false, false];
    for (i, start) in script.iter().enumerate() {
        let now = i as i64;
        if *start {
            let granted = matches!(state.advance(Event::StartRequested, now), Action::BeginCapture { .. });
            assert_eq!(granted, !recording);
            if granted {
                state.advance(Event::CaptureStarted { context: None }, now);
                recording = true;
            }
        } else {
            let granted = matches!(state.advance(Event::StopRequested, now), Action::EndCapture);
            assert_eq!(granted, recording);
            if granted {
                state.advance(Event::Failed { error: SessionError::NotCapturing }, now);
                assert_eq!(state.status(), RecordingStatus::Error);
                recording = false;
            }
        }
        assert_eq!(state.is_recording(), recording);
    }
}

#[test]
fn plain_mode_returns_the_filtered_transcript() {
    let mut state = ready_state(Vec::new(), "voice_to_text");
    record_until_transcribing(&mut state);
    match state.advance(segments(&[" Hello", "[BLANK_AUDIO]", " world "]), 1_000_000_000_000) {
        Action::Finish { record, output, auto_paste } => {
            assert_eq!(output, "Hello world");
            assert!(auto_paste);
            assert_eq!(record.id, "id-1");
            assert_eq!(record.created_at, 1_000_000_000_000);
            assert_eq!(record.mode_key, "voice_to_text");
            assert_eq!(record.audio_path.as_deref(), Some("/audio/id-1.wav"));
            assert_eq!(record.transcript_raw, "Hello world");
            assert_eq!(record.output_final, "Hello world");
            assert_eq!(record.stt_provider, "whispercpp");
            assert_eq!(record.stt_model, "base.en");
            assert_eq!(record.llm_provider, None);
            assert_eq!(record.llm_model, None);
            assert_eq!(record.duration_ms, 2000);
            assert_eq!(record.error, None);
        }
        other => panic!("unexpected action: {:?}", other),
    }
    assert_eq!(state.status(), RecordingStatus::Ready);
    assert!(matches!(state.advance(Event::StartRequested, 9), Action::BeginCapture { .. }));
}

#[test]
fn failing_language_model_falls_back_to_the_transcript() {
    let mut state = ready_state(vec![rewriting_mode("fix", LlmProvider::Ollama)], "fix");
    let mut settings = state.settings().clone();
    settings.context_awareness = true;
    settings.auto_paste = false;
    state.update_settings(settings);
    record_until_transcribing(&mut state);
    match state.advance(segments(&["um hello"]), 7) {
        Action::Complete { backend, prompt } => {
            assert!(matches!(backend, LlmBackend::Ollama { .. }));
            assert_eq!(prompt, "[clip] Fix (en): um hello");
        }
        other => panic!("unexpected action: {:?}", other),
    }
    assert_eq!(state.status(), RecordingStatus::Processing);
    let failure = Event::Failed { error: SessionError::CompletionFailed("connection refused".to_string()) };
    match state.advance(failure, 8) {
        Action::Finish { record, output, auto_paste } => {
            assert_eq!(output, "um hello");
            assert!(!auto_paste);
            assert_eq!(record.transcript_raw, "um hello");
            assert_eq!(record.output_final, "um hello");
            assert_eq!(record.llm_provider.as_deref(), Some("ollama"));
            assert_eq!(record.llm_model.as_deref(), Some("m1"));
        }
        other => panic!("unexpected action: {:?}", other),
    }
    assert_eq!(state.status(), RecordingStatus::Ready);
}

#[test]
fn language_model_answer_is_the_output() {
    let mut state = ready_state(vec![rewriting_mode("fix", LlmProvider::Ollama)], "fix");
    record_until_transcribing(&mut state);
    match state.advance(segments(&["um hello"]), 7) {
        Action::Complete { prompt, .. } => assert_eq!(prompt, "Fix (en): um hello"),
        other => panic!("unexpected action: {:?}", other),
    }
    match state.advance(Event::Completed { text: "Hello.".to_string() }, 8) {
        Action::Finish { record, output, .. } => {
            assert_eq!(output, "Hello.");
            assert_eq!(record.transcript_raw, "um hello");
            assert_eq!(record.output_final, "Hello.");
        }
        other => panic!("unexpected action: {:?}", other),
    }
    assert_eq!(state.status(), RecordingStatus::Ready);
}

#[test]
fn empty_answer_of_the_language_model_falls_back() {
    let mut state = ready_state(vec![rewriting_mode("fix", LlmProvider::Ollama)], "fix");
    record_until_transcribing(&mut state);
    state.advance(segments(&["spoken"]), 7);
    match state.advance(Event::Completed { text: String::new() }, 8) {
        Action::Finish { output, .. } => assert_eq!(output, "spoken"),
        other => panic!("unexpected action: {:?}", other),
    }
}

#[test]
fn cloud_language_model_asks_for_its_key() {
    let mut state = ready_state(vec![rewriting_mode("fix", LlmProvider::Anthropic)], "fix");
    record_until_transcribing(&mut state);
    match state.advance(segments(&["text"]), 7) {
        Action::FetchCredential { key_name } => assert_eq!(key_name, "anthropic_api_key"),
        other => panic!("unexpected action: {:?}", other),
    }
    match state.advance(Event::Credential(CredentialReply::Found("ak".to_string())), 8) {
        Action::Complete { backend, .. } => match backend {
            LlmBackend::Anthropic { api_key, model } => {
                assert_eq!(api_key, "ak");
                assert_eq!(model, "m1");
            }
            other => panic!("unexpected backend: {:?}", other),
        },
        other => panic!("unexpected action: {:?}", other),
    }
}

#[test]
fn missing_language_model_key_falls_back() {
    for reply in [CredentialReply::NoEntry, CredentialReply::Failed("locked".to_string())] {
        let mut state = ready_state(vec![rewriting_mode("fix", LlmProvider::OpenAI)], "fix");
        record_until_transcribing(&mut state);
        state.advance(segments(&["text"]), 7);
        match state.advance(Event::Credential(reply), 8) {
            Action::Finish { output, .. } => assert_eq!(output, "text"),
            other => panic!("unexpected action: {:?}", other),
        }
        assert_eq!(state.status(), RecordingStatus::Ready);
    }
}

#[test]
fn unknown_language_model_falls_back() {
    let mut state = ready_state(vec![rewriting_mode("fix", LlmProvider::Custom("mine".to_string()))], "fix");
    record_until_transcribing(&mut state);
    match state.advance(segments(&["text"]), 7) {
        Action::Finish { record, output, .. } => {
            assert_eq!(output, "text");
            assert_eq!(record.llm_provider.as_deref(), Some("custom(\"mine\")"));
        }
        other => panic!("unexpected action: {:?}", other),
    }
}

#[test]
fn silence_fails_the_session() {
    let mut state = ready_state(Vec::new(), "voice_to_text");
    record_until_transcribing(&mut state);
    let action = state.advance(segments(&["[BLANK_AUDIO]", " (silence) "]), 7);
    assert_eq!(kind_of(&action), Some(ErrorKind::TranscriptionFailed));
    match action {
        Action::Fail { error } => assert_eq!(error.message(), "Transcription error: No speech was recognized"),
        other => panic!("unexpected action: {:?}", other),
    }
    assert_eq!(state.status(), RecordingStatus::Error);
}

#[test]
fn failed_recognition_fails_the_session_and_the_next_start_works() {
    let mut state = ready_state(Vec::new(), "voice_to_text");
    record_until_transcribing(&mut state);
    let action = state.advance(Event::Inference(InferenceReply::RunFailed("oom".to_string())), 7);
    match action {
        Action::Fail { error } => {
            assert_eq!(error.kind(), ErrorKind::TranscriptionFailed);
            assert_eq!(error.message(), "Transcription error: Transcription failed: oom");
        }
        other => panic!("unexpected action: {:?}", other),
    }
    assert_eq!(state.status(), RecordingStatus::Error);
    assert!(matches!(state.advance(Event::StartRequested, 8), Action::BeginCapture { .. }));
    assert!(matches!(state.advance(Event::CaptureStarted { context: None }, 9), Action::Idle));
    assert_eq!(state.status(), RecordingStatus::Recording);
}

#[test]
fn missing_mode_fails_the_session() {
    let mut state = AppState::new(Settings::default());
    state.advance(Event::CaptureStarted { context: None }, 1);
    let stopped = Event::CaptureStopped { samples: 1, session_id: "s".to_string(), env_server_url: None };
    match state.advance(stopped, 2) {
        Action::Fail { error } => {
            assert_eq!(error.kind(), ErrorKind::ModeNotFound);
            assert_eq!(error.message(), "Mode not found: voice_to_text");
        }
        other => panic!("unexpected action: {:?}", other),
    }
    assert_eq!(state.status(), RecordingStatus::Error);
}

#[test]
fn cloud_recognition_needs_its_key() {
    let mut mode = Mode::default();
    mode.key = "cloud".to_string();
    mode.stt_provider = SttProvider::OpenAI;
    mode.stt_model = "whisper-1".to_string();
    let mut state = ready_state(vec![mode], "cloud");
    state.advance(Event::CaptureStarted { context: None }, 1);
    let stopped = Event::CaptureStopped { samples: 1, session_id: "s".to_string(), env_server_url: None };
    state.advance(stopped, 2);
    match state.advance(Event::AudioSaved { path: "a.wav".to_string() }, 3) {
        Action::FetchCredential { key_name } => assert_eq!(key_name, "openai_api_key"),
        other => panic!("unexpected action: {:?}", other),
    }
    let action = state.advance(Event::Credential(CredentialReply::NoEntry), 4);
    assert_eq!(kind_of(&action), Some(ErrorKind::MissingCredential));
    assert!(matches!(action, Action::Fail { .. }));
    assert_eq!(state.status(), RecordingStatus::Error);
}

#[test]
fn cloud_recognition_sends_the_request_and_reads_the_answer() {
    let mut mode = Mode::default();
    mode.key = "cloud".to_string();
    mode.stt_provider = SttProvider::OpenAI;
    mode.stt_model = "whisper-1".to_string();
    let mut state = ready_state(vec![mode], "cloud");
    state.advance(Event::CaptureStarted { context: None }, 1);
    let stopped = Event::CaptureStopped { samples: 8000, session_id: "s".to_string(), env_server_url: None };
    state.advance(stopped, 2);
    state.advance(Event::AudioSaved { path: "a.wav".to_string() }, 3);
    match state.advance(Event::Credential(CredentialReply::Found("sk".to_string())), 4) {
        Action::TranscribeRemote { request } => {
            assert_eq!(request.url, "https://api.openai.com/v1/audio/transcriptions");
            assert_eq!(request.authorization.as_deref(), Some("Bearer sk"));
            assert_eq!(request.language.as_deref(), Some("en"));
            assert_eq!(request.model, "whisper-1");
        }
        other => panic!("unexpected action: {:?}", other),
    }
    // an answer of the local model does not fit a session that asked a server
    assert_eq!(kind_of(&state.advance(segments(&["x"]), 5)), Some(ErrorKind::NoRecordingInProgress));
    assert_eq!(state.status(), RecordingStatus::Processing);
    match state.advance(Event::Transcription(TranscriptionReply::Text(" Bonjour. ".to_string())), 6) {
        Action::Finish { record, output, .. } => {
            assert_eq!(output, "Bonjour.");
            assert_eq!(record.stt_provider, "openai");
            assert_eq!(record.duration_ms, 500);
        }
        other => panic!("unexpected action: {:?}", other),
    }
}

#[test]
fn self_hosted_recognition_uses_the_address_of_the_environment() {
    let mut mode = Mode::default();
    mode.key = "server".to_string();
    mode.stt_provider = SttProvider::WhisperServer;
    let mut state = ready_state(vec![mode], "server");
    state.advance(Event::CaptureStarted { context: None }, 1);
    let stopped = Event::CaptureStopped {
        samples: 1,
        session_id: "s".to_string(),
        env_server_url: Some("http://env:7".to_string()),
    };
    state.advance(stopped, 2);
    match state.advance(Event::AudioSaved { path: "a.wav".to_string() }, 3) {
        Action::TranscribeRemote { request } => {
            assert_eq!(request.url, "http://env:7/v1/audio/transcriptions");
            assert_eq!(request.authorization, None);
        }
        other => panic!("unexpected action: {:?}", other),
    }
    let rejected = TranscriptionReply::Rejected { status: "503".to_string(), body: "busy".to_string() };
    match state.advance(Event::Transcription(rejected), 4) {
        Action::Fail { error } => assert_eq!(
            error.message(),
            "Transcription error: [Self-hosted Whisper] API error (503): busy"
        ),
        other => panic!("unexpected action: {:?}", other),
    }
    assert_eq!(state.status(), RecordingStatus::Error);
}

#[test]
fn unsupported_recognition_fails_before_any_request() {
    let mut mode = Mode::default();
    mode.key = "dg".to_string();
    mode.stt_provider = SttProvider::Deepgram;
    let mut state = ready_state(vec![mode], "dg");
    state.advance(Event::CaptureStarted { context: None }, 1);
    state.advance(Event::CaptureStopped { samples: 1, session_id: "s".to_string(), env_server_url: None }, 2);
    assert!(matches!(state.advance(Event::AudioSaved { path: "a.wav".to_string() }, 3), Action::FetchCredential { .. }));
    let action = state.advance(Event::Credential(CredentialReply::Found("k".to_string())), 4);
    assert_eq!(kind_of(&action), Some(ErrorKind::UnsupportedProvider));
    assert_eq!(state.status(), RecordingStatus::Error);
}

#[test]
fn context_is_kept_only_when_asked_for() {
    let mut state = ready_state(vec![rewriting_mode("fix", LlmProvider::Ollama)], "fix");
    match state.start_recording() {
        Action::BeginCapture { device, snapshot_context } => {
            assert_eq!(device, "");
            assert!(!snapshot_context);
        }
        other => panic!("unexpected action: {:?}", other),
    }
    state.set_input_device("USB Mic".to_string());
    let mut settings = state.settings().clone();
    settings.context_awareness = true;
    state.update_settings(settings);
    match state.start_recording() {
        Action::BeginCapture { device, snapshot_context } => {
            assert_eq!(device, "USB Mic");
            assert!(snapshot_context);
        }
        other => panic!("unexpected action: {:?}", other),
    }
}

#[test]
fn cancel_drops_the_recording() {
    let mut state = ready_state(Vec::new(), "voice_to_text");
    assert!(matches!(state.cancel_recording(), Action::Idle));
    state.advance(Event::CaptureStarted { context: None }, 1);
    assert!(matches!(state.cancel_recording(), Action::DiscardCapture));
    assert_eq!(state.status(), RecordingStatus::Ready);
    assert!(!state.is_recording());
    assert_eq!(kind_of(&state.advance(Event::StopRequested, 2)), Some(ErrorKind::NoRecordingInProgress));
}

#[test]
fn failure_to_store_the_audio_fails_the_session() {
    let mut state = ready_state(Vec::new(), "voice_to_text");
    state.advance(Event::CaptureStarted { context: None }, 1);
    state.advance(Event::CaptureStopped { samples: 1, session_id: "s".to_string(), env_server_url: None }, 2);
    let action = state.advance(Event::Failed { error: SessionError::Io("disk full".to_string()) }, 3);
    assert_eq!(kind_of(&action), Some(ErrorKind::Io));
    assert!(matches!(action, Action::Fail { .. }));
    assert_eq!(state.status(), RecordingStatus::Error);
}

#[test]
fn missing_model_fails_the_session() {
    let mut state = ready_state(Vec::new(), "voice_to_text");
    state.advance(Event::CaptureStarted { context: None }, 1);
    state.advance(Event::CaptureStopped { samples: 1, session_id: "s".to_string(), env_server_url: None }, 2);
    state.advance(Event::AudioSaved { path: "a.wav".to_string() }, 3);
    let failure = Event::Failed { error: SessionError::ModelUnavailable("HTTP 404".to_string()) };
    let action = state.advance(failure, 4);
    assert_eq!(kind_of(&action), Some(ErrorKind::ModelUnavailable));
    assert_eq!(state.status(), RecordingStatus::Error);
}

#[test]
fn events_of_the_moment_get_the_time_and_a_fresh_identifier() {
    let mut state = ready_state(Vec::new(), "voice_to_text");
    let before = std::time::SystemTime::now()
        .duration_since(std::time::UNIX_EPOCH)
        .unwrap()
        .as_millis() as i64;
    assert!(matches!(state.handle(Event::StartRequested), Action::BeginCapture { .. }));
    assert!(matches!(state.handle(Event::CaptureStarted { context: None }), Action::Idle));
    assert!(matches!(state.handle(Event::StopRequested), Action::EndCapture));
    let first = match state.capture_stopped_now(16_000, None) {
        Action::SaveAudio { file_name } => file_name,
        other => panic!("unexpected action: {:?}", other),
    };
    assert_eq!(first.len(), 40);
    assert!(first.ends_with(".wav"));
    assert_eq!(first.matches('-').count(), 4);
    state.handle(Event::AudioSaved { path: "a.wav".to_string() });
    state.handle(Event::ModelReady { path: "m.bin".to_string() });
    match state.handle(segments(&["now"])) {
        Action::Finish { record, output, .. } => {
            assert_eq!(output, "now");
            assert_eq!(format!("{}.wav", record.id), first);
            assert_eq!(record.duration_ms, 1000);
            assert!(record.created_at >= before);
            assert!(record.created_at < before + 60_000);
        }
        other => panic!("unexpected action: {:?}", other),
    }
    state.handle(Event::CaptureStarted { context: None });
    match state.capture_stopped_now(1, None) {
        Action::SaveAudio { file_name } => assert_ne!(file_name, first),
        other => panic!("unexpected action: {:?}", other),
    }
    let mut idle = ready_state(Vec::new(), "voice_to_text");
    assert_eq!(kind_of(&idle.capture_stopped_now(1, None)), Some(ErrorKind::NoRecordingInProgress));
}
