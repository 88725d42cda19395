//! The recording session controller: one state, and for each event the next
//! state and what is to be done next. Whoever runs the controller does what
//! it asks for and hands back what came of it.

use crate::audio::{calculate_duration_ms, duration_of, SAMPLE_RATE};
use crate::credentials::{credential_of, read_credential, CredentialReply};
use crate::error::{error_of, ErrorKind, SessionError, SessionErrorView};
use crate::history::{record_of, HistoryItem, HistoryItemView};
use crate::modes::{render_prompt, rendered, Mode, ModeView};
use crate::providers::llm::{
    create_llm_provider, llm_backend_for, llm_key_name, llm_key_name_of, LlmBackend,
    LlmBackendView,
};
use crate::providers::stt::{
    backend_for, create_stt_provider, model_download_url, model_file, model_file_name, model_url,
    stt_key_name, stt_key_name_of, InferenceReply, OpenAiCompatibleSttProvider, RemoteSttView,
    SttBackend, SttBackendView, TranscriptionReply, TranscriptionRequest,
    TranscriptionRequestView, WhisperCppProvider,
};
use crate::registry::{distinct_keys, lookup, ModeRegistry};
use crate::settings::{Settings, SettingsView};
use crate::status::RecordingStatus;
use crate::text::option_text;
use vstd::prelude::*;

verus! {

/// Where the pipeline of a session stands: what it waits for.
#[derive(Debug, Clone, Copy, PartialEq, Eq, Structural)]
pub enum Stage {
    /// The audio is being stored.
    SavingAudio,
    /// The key of the speech-to-text provider is being fetched.
    FetchingSttKey,
    /// The local model is being looked for, or fetched.
    EnsuringModel,
    /// The audio is being recognised.
    Transcribing,
    /// The key of the language-model provider is being fetched.
    FetchingLlmKey,
    /// The language model is rewriting the transcript.
    Completing,
}

/// A session whose capture has ended.
#[derive(Debug)]
pub struct Pipeline {
    stage: Stage,
    id: String,
    mode: Mode,
    context: Option<String>,
    duration_ms: u64,
    env_server_url: Option<String>,
    audio_path: Option<String>,
    remote: Option<OpenAiCompatibleSttProvider>,
    transcript: String,
}

/// [`Pipeline`] with its strings as text.
pub struct PipelineView {
    /// What the pipeline waits for.
    pub stage: Stage,
    /// Identifier of the session.
    pub id: Seq<char>,
    /// The mode that was active when capture ended.
    pub mode: ModeView,
    /// The context that was taken when capture began.
    pub context: Option<Seq<char>>,
    /// Length of the audio in milliseconds.
    pub duration_ms: u64,
    /// Address of a self-hosted server that the environment names.
    pub env_server_url: Option<Seq<char>>,
    /// Where the audio is kept, once it is stored.
    pub audio_path: Option<Seq<char>>,
    /// The server that recognises the audio, if one does.
    pub remote: Option<RemoteSttView>,
    /// The transcript, once the audio is recognised.
    pub transcript: Seq<char>,
}

impl View for Pipeline {
    type V = PipelineView;

    closed spec fn view(&self) -> PipelineView {
        PipelineView {
            stage: self.stage,
            id: self.id@,
            mode: self.mode@,
            context: option_text(self.context),
            duration_ms: self.duration_ms,
            env_server_url: option_text(self.env_server_url),
            audio_path: option_text(self.audio_path),
            remote: match self.remote {
                Some(provider) => Some(provider@),
                None => None,
            },
            transcript: self.transcript@,
        }
    }
}

/// The one session that may be active.
#[derive(Debug)]
pub enum Session {
    /// Audio is being captured.
    Capturing { context: Option<String> },
    /// The captured audio is being processed.
    Processing(Pipeline),
}

/// [`Session`] with its strings as text.
pub enum SessionView {
    Capturing { context: Option<Seq<char>> },
    Processing(PipelineView),
}

impl View for Session {
    type V = SessionView;

    open spec fn view(&self) -> SessionView {
        match self {
            Session::Capturing { context } => SessionView::Capturing {
                context: option_text(*context),
            },
            Session::Processing(pipeline) => SessionView::Processing(pipeline@),
        }
    }
}

/// What happened outside the controller.
#[derive(Debug)]
pub enum Event {
    /// A start was asked for.
    StartRequested,
    /// Capture began; `context` is the snapshot that was taken, if any.
    CaptureStarted { context: Option<String> },
    /// Capture could not begin.
    CaptureFailed { error: SessionError },
    /// A stop was asked for.
    StopRequested,
    /// Capture ended with `samples` samples. `session_id` is a fresh
    /// identifier, `env_server_url` the address of a self-hosted server that
    /// the environment names.
    CaptureStopped { samples: usize, session_id: String, env_server_url: Option<String> },
    /// The audio was stored at `path`.
    AudioSaved { path: String },
    /// The credential store answered.
    Credential(CredentialReply),
    /// The local model is on disk at `path`.
    ModelReady { path: String },
    /// The local recognition answered.
    Inference(InferenceReply),
    /// The server answered.
    Transcription(TranscriptionReply),
    /// The language model answered with `text`.
    Completed { text: String },
    /// What was asked for last failed.
    Failed { error: SessionError },
    /// The recording is to be dropped.
    CancelRequested,
}

/// What is to be done next.
#[derive(Debug)]
pub enum Action {
    /// Nothing.
    Idle,
    /// Open the input device `device`, the default one if the name is empty,
    /// and take a snapshot of the context first if `snapshot_context` is set.
    BeginCapture { device: String, snapshot_context: bool },
    /// End capture and count the samples.
    EndCapture,
    /// End capture and drop the samples.
    DiscardCapture,
    /// Store the audio in a file of this name.
    SaveAudio { file_name: String },
    /// Fetch the key that is stored under this name.
    FetchCredential { key_name: String },
    /// Make sure that the local model is on disk: it has this file name and
    /// is fetched from this address where it is missing.
    EnsureModel { model: String, file_name: String, url: String },
    /// Recognise the audio with the local model in this language.
    TranscribeLocal { provider: WhisperCppProvider, language: String },
    /// Send the audio to the server with this request.
    TranscribeRemote { request: TranscriptionRequest },
    /// Ask the language model to answer this prompt.
    Complete { backend: LlmBackend, prompt: String },
    /// The session ended well: store the record and deliver the output.
    Finish { record: HistoryItem, output: String, auto_paste: bool },
    /// The event does not fit the state, which is unchanged.
    Reject { error: SessionError },
    /// The session failed and is over.
    Fail { error: SessionError },
}

/// [`Action`] with its strings as text.
pub enum ActionView {
    Idle,
    BeginCapture { device: Seq<char>, snapshot_context: bool },
    EndCapture,
    DiscardCapture,
    SaveAudio { file_name: Seq<char> },
    FetchCredential { key_name: Seq<char> },
    EnsureModel { model: Seq<char>, file_name: Seq<char>, url: Seq<char> },
    TranscribeLocal { model_path: Seq<char>, language: Seq<char> },
    TranscribeRemote { request: TranscriptionRequestView },
    Complete { backend: LlmBackendView, prompt: Seq<char> },
    Finish { record: HistoryItemView, output: Seq<char>, auto_paste: bool },
    Reject { error: SessionErrorView },
    Fail { error: SessionErrorView },
}

impl View for Action {
    type V = ActionView;

    open spec fn view(&self) -> ActionView {
        match self {
            Action::Idle => ActionView::Idle,
            Action::BeginCapture { device, snapshot_context } => ActionView::BeginCapture {
                device: device@,
                snapshot_context: *snapshot_context,
            },
            Action::EndCapture => ActionView::EndCapture,
            Action::DiscardCapture => ActionView::DiscardCapture,
            Action::SaveAudio { file_name } => ActionView::SaveAudio { file_name: file_name@ },
            Action::FetchCredential { key_name } => ActionView::FetchCredential {
                key_name: key_name@,
            },
            Action::EnsureModel { model, file_name, url } => ActionView::EnsureModel {
                model: model@,
                file_name: file_name@,
                url: url@,
            },
            Action::TranscribeLocal { provider, language } => ActionView::TranscribeLocal {
                model_path: provider.path(),
                language: language@,
            },
            Action::TranscribeRemote { request } => ActionView::TranscribeRemote {
                request: request@,
            },
            Action::Complete { backend, prompt } => ActionView::Complete {
                backend: backend@,
                prompt: prompt@,
            },
            Action::Finish { record, output, auto_paste } => ActionView::Finish {
                record: record@,
                output: output@,
                auto_paste: *auto_paste,
            },
            Action::Reject { error } => ActionView::Reject { error: error@ },
            Action::Fail { error } => ActionView::Fail { error: error@ },
        }
    }
}

/// The state of the controller, with its strings as text.
pub struct AppStateView {
    /// The status that every observer sees.
    pub status: RecordingStatus,
    /// The registry of modes.
    pub modes: Seq<ModeView>,
    /// Key of the active mode.
    pub active_mode_key: Seq<char>,
    /// The settings.
    pub settings: SettingsView,
    /// The active session, if there is one.
    pub session: Option<SessionView>,
}

/// File name of the audio of a session.
pub open spec fn audio_file(session_id: Seq<char>) -> Seq<char> {
    session_id + ".wav"@
}

/// The error of a recognition that heard no speech.
pub open spec fn no_speech() -> SessionErrorView {
    error_of(ErrorKind::TranscriptionFailed, "No speech was recognized"@)
}

/// The error of a kind that has no detail.
pub open spec fn plain_error(kind: ErrorKind) -> SessionErrorView {
    error_of(kind, Seq::empty())
}

impl AppStateView {
    /// A session is active: audio is captured or processed.
    pub open spec fn is_active(self) -> bool {
        self.status == RecordingStatus::Recording || self.status == RecordingStatus::Processing
    }

    /// The registry has one mode per key, the status is `Recording` exactly
    /// while the one session captures and `Processing` exactly while it is
    /// processed, a session that post-processes has a transcript, and only a
    /// session whose audio is being recognised may have a server.
    pub open spec fn well_formed(self) -> bool {
        &&& distinct_keys(self.modes)
        &&& match self.session {
            None => !self.is_active(),
            Some(SessionView::Capturing { .. }) => self.status == RecordingStatus::Recording,
            Some(SessionView::Processing(pipeline)) => {
                &&& self.status == RecordingStatus::Processing
                &&& (pipeline.stage == Stage::FetchingLlmKey || pipeline.stage
                    == Stage::Completing) ==> pipeline.transcript.len() > 0
                &&& pipeline.stage == Stage::Transcribing || pipeline.remote is None
            },
        }
    }

    /// The state without a session, in the status `status`.
    pub open spec fn idle(self, status: RecordingStatus) -> AppStateView {
        AppStateView { status, session: None, ..self }
    }

    /// The state with the pipeline `pipeline`.
    pub open spec fn processing(self, pipeline: PipelineView) -> AppStateView {
        AppStateView {
            status: RecordingStatus::Processing,
            session: Some(SessionView::Processing(pipeline)),
            ..self
        }
    }

    /// The event does not fit: nothing changes.
    pub open spec fn rejected(self, kind: ErrorKind) -> (AppStateView, ActionView) {
        (self, ActionView::Reject { error: plain_error(kind) })
    }

    /// The session fails: it is dropped and the status is `Error`.
    pub open spec fn failed(self, error: SessionErrorView) -> (AppStateView, ActionView) {
        (self.idle(RecordingStatus::Error), ActionView::Fail { error })
    }

    /// The session ends well with `output`: it is dropped, the status is
    /// `Ready`, and its record is handed out with the output.
    pub open spec fn finished(self, pipeline: PipelineView, output: Seq<char>, now: i64) -> (
        AppStateView,
        ActionView,
    ) {
        (
            self.idle(RecordingStatus::Ready),
            ActionView::Finish {
                record: record_of(
                    pipeline.id,
                    now,
                    pipeline.mode,
                    pipeline.audio_path,
                    pipeline.transcript,
                    output,
                    pipeline.duration_ms,
                ),
                output,
                auto_paste: self.settings.auto_paste,
            },
        )
    }

    /// The speech-to-text provider of the mode is selected with the key
    /// `key`: the session fails if there is none, else the local model is
    /// asked for or the request goes to the server.
    pub open spec fn select_stt(self, pipeline: PipelineView, key: Option<Seq<char>>) -> (
        AppStateView,
        ActionView,
    ) {
        match backend_for(
            pipeline.mode.stt_provider,
            pipeline.mode.stt_model,
            key,
            self.settings.whisper_server_url,
            pipeline.env_server_url,
        ) {
            Err(error) => self.failed(error),
            Ok(SttBackendView::Local { model }) => (
                self.processing(PipelineView { stage: Stage::EnsuringModel, ..pipeline }),
                ActionView::EnsureModel { model, file_name: model_file(model), url: model_url(model) },
            ),
            Ok(SttBackendView::Remote(provider)) => (
                self.processing(
                    PipelineView { stage: Stage::Transcribing, remote: Some(provider), ..pipeline },
                ),
                ActionView::TranscribeRemote {
                    request: provider.request_of(Some(self.settings.language)),
                },
            ),
        }
    }

    /// Capture ended with `samples` samples: the active mode becomes the mode
    /// of the session, which is processed from now on, and its audio is to be
    /// stored. Without an active mode the session fails.
    pub open spec fn capture_ended(
        self,
        context: Option<Seq<char>>,
        samples: usize,
        session_id: Seq<char>,
        env_server_url: Option<Seq<char>>,
    ) -> (AppStateView, ActionView) {
        match lookup(self.modes, self.active_mode_key) {
            Some(mode) => (
                self.processing(
                    PipelineView {
                        stage: Stage::SavingAudio,
                        id: session_id,
                        mode,
                        context,
                        duration_ms: duration_of(samples as nat, SAMPLE_RATE as nat) as u64,
                        env_server_url,
                        audio_path: None,
                        remote: None,
                        transcript: Seq::empty(),
                    },
                ),
                ActionView::SaveAudio { file_name: audio_file(session_id) },
            ),
            None => self.failed(error_of(ErrorKind::ModeNotFound, self.active_mode_key)),
        }
    }

    /// The audio is stored: the key of the speech-to-text provider is asked
    /// for if it has one, else the provider is selected.
    pub open spec fn audio_saved(self, pipeline: PipelineView, path: Seq<char>) -> (
        AppStateView,
        ActionView,
    ) {
        let stored = PipelineView { audio_path: Some(path), ..pipeline };
        match stt_key_name_of(pipeline.mode.stt_provider) {
            Some(key_name) => (
                self.processing(PipelineView { stage: Stage::FetchingSttKey, ..stored }),
                ActionView::FetchCredential { key_name },
            ),
            None => self.select_stt(stored, None),
        }
    }

    /// The language-model provider of the mode is selected with the key
    /// `key`: the prompt goes to it, or, if there is none, the transcript is
    /// the output.
    pub open spec fn select_llm(self, pipeline: PipelineView, key: Option<Seq<char>>, now: i64) -> (
        AppStateView,
        ActionView,
    ) {
        match llm_backend_for(pipeline.mode.llm_provider, pipeline.mode.llm_model, key) {
            Ok(backend) => (
                self.processing(PipelineView { stage: Stage::Completing, ..pipeline }),
                ActionView::Complete {
                    backend,
                    prompt: rendered(
                        pipeline.mode.prompt_template,
                        pipeline.transcript,
                        pipeline.context,
                        self.settings.language,
                    ),
                },
            ),
            Err(_) => self.finished(pipeline, pipeline.transcript, now),
        }
    }

    /// The audio is recognised as `text`. Without speech the session fails.
    /// A mode that post-processes and has a prompt goes on to the language
    /// model; any other mode ends with the transcript as its output.
    pub open spec fn transcribed(self, pipeline: PipelineView, text: Seq<char>, now: i64) -> (
        AppStateView,
        ActionView,
    ) {
        let heard = PipelineView { transcript: text, remote: None, ..pipeline };
        if text.len() == 0 {
            self.failed(no_speech())
        } else if pipeline.mode.ai_processing && pipeline.mode.prompt_template.len() > 0 {
            match llm_key_name_of(pipeline.mode.llm_provider) {
                Some(key_name) => (
                    self.processing(PipelineView { stage: Stage::FetchingLlmKey, ..heard }),
                    ActionView::FetchCredential { key_name },
                ),
                None => self.select_llm(heard, None, now),
            }
        } else {
            self.finished(heard, text, now)
        }
    }

    /// The answer to a request to start: it is refused while a session is
    /// active, else capture is to begin on the configured device.
    pub open spec fn start_request(self) -> ActionView {
        if self.is_active() {
            ActionView::Reject { error: plain_error(ErrorKind::RecordingInProgress) }
        } else {
            ActionView::BeginCapture {
                device: self.settings.input_device,
                snapshot_context: self.settings.context_awareness,
            }
        }
    }

    /// The answer to a request to stop: capture is to end if audio is being
    /// captured, else the request is refused.
    pub open spec fn stop_request(self) -> ActionView {
        match self.session {
            Some(SessionView::Capturing { .. }) => ActionView::EndCapture,
            _ => ActionView::Reject { error: plain_error(ErrorKind::NoRecordingInProgress) },
        }
    }

    /// The recording is dropped: no session is left, the status is `Ready`,
    /// and a capture that was going on is to be discarded.
    pub open spec fn cancelled(self) -> (AppStateView, ActionView) {
        (
            self.idle(RecordingStatus::Ready),
            match self.session {
                Some(SessionView::Capturing { .. }) => ActionView::DiscardCapture,
                _ => ActionView::Idle,
            },
        )
    }

    /// The next state and what is to be done, for an event that happened at
    /// the time `now`.
    pub open spec fn step(self, event: Event, now: i64) -> (AppStateView, ActionView) {
        match event {
            Event::StartRequested => (self, self.start_request()),
            Event::CaptureStarted { context } => if self.is_active() {
                self.rejected(ErrorKind::RecordingInProgress)
            } else {
                (
                    AppStateView {
                        status: RecordingStatus::Recording,
                        session: Some(
                            SessionView::Capturing {
                                context: if self.settings.context_awareness {
                                    option_text(context)
                                } else {
                                    None
                                },
                            },
                        ),
                        ..self
                    },
                    ActionView::Idle,
                )
            },
            Event::CaptureFailed { error } => if self.is_active() {
                self.rejected(ErrorKind::RecordingInProgress)
            } else {
                self.failed(error@)
            },
            Event::StopRequested => (self, self.stop_request()),
            Event::CaptureStopped { samples, session_id, env_server_url } => match self.session {
                Some(SessionView::Capturing { context }) => self.capture_ended(
                    context,
                    samples,
                    session_id@,
                    option_text(env_server_url),
                ),
                _ => self.rejected(ErrorKind::NoRecordingInProgress),
            },
            Event::AudioSaved { path } => match self.session {
                Some(SessionView::Processing(pipeline)) if pipeline.stage == Stage::SavingAudio
                    => self.audio_saved(pipeline, path@),
                _ => self.rejected(ErrorKind::NoRecordingInProgress),
            },
            Event::Credential(reply) => match self.session {
                Some(SessionView::Processing(pipeline)) if pipeline.stage
                    == Stage::FetchingSttKey => match credential_of(reply, true) {
                    Ok(key) => self.select_stt(pipeline, key),
                    Err(error) => self.failed(error),
                },
                Some(SessionView::Processing(pipeline)) if pipeline.stage
                    == Stage::FetchingLlmKey => match credential_of(reply, false) {
                    Ok(key) => self.select_llm(pipeline, key, now),
                    Err(_) => self.finished(pipeline, pipeline.transcript, now),
                },
                _ => self.rejected(ErrorKind::NoRecordingInProgress),
            },
            Event::ModelReady { path } => match self.session {
                Some(SessionView::Processing(pipeline)) if pipeline.stage == Stage::EnsuringModel
                    => (
                    self.processing(PipelineView { stage: Stage::Transcribing, ..pipeline }),
                    ActionView::TranscribeLocal {
                        model_path: path@,
                        language: WhisperCppProvider::language_of(Some(self.settings.language)),
                    },
                ),
                _ => self.rejected(ErrorKind::NoRecordingInProgress),
            },
            Event::Inference(reply) => match self.session {
                Some(SessionView::Processing(pipeline)) if pipeline.stage == Stage::Transcribing
                    && pipeline.remote is None => match WhisperCppProvider::reading(reply) {
                    Ok(text) => self.transcribed(pipeline, text, now),
                    Err(error) => self.failed(error),
                },
                _ => self.rejected(ErrorKind::NoRecordingInProgress),
            },
            Event::Transcription(reply) => match self.session {
                Some(SessionView::Processing(pipeline)) if pipeline.stage == Stage::Transcribing
                    && pipeline.remote is Some => match pipeline.remote->0.reading(reply) {
                    Ok(text) => self.transcribed(pipeline, text, now),
                    Err(error) => self.failed(error),
                },
                _ => self.rejected(ErrorKind::NoRecordingInProgress),
            },
            Event::Completed { text } => match self.session {
                Some(SessionView::Processing(pipeline)) if pipeline.stage == Stage::Completing
                    => self.finished(
                    pipeline,
                    if text@.len() > 0 {
                        text@
                    } else {
                        pipeline.transcript
                    },
                    now,
                ),
                _ => self.rejected(ErrorKind::NoRecordingInProgress),
            },
            Event::Failed { error } => match self.session {
                Some(SessionView::Capturing { .. }) => self.failed(error@),
                Some(SessionView::Processing(pipeline)) => if pipeline.stage
                    == Stage::FetchingLlmKey || pipeline.stage == Stage::Completing {
                    self.finished(pipeline, pipeline.transcript, now)
                } else {
                    self.failed(error@)
                },
                None => self.rejected(ErrorKind::NoRecordingInProgress),
            },
            Event::CancelRequested => self.cancelled(),
        }
    }
}

/// Calls `uuid::Uuid::new_v4`, which makes an identifier of random bytes of
/// the operating system and does not return where the system gives none, and
/// writes the identifier as text. Nothing is stated of a random result.
#[verifier::external_body]
fn fresh_session_id() -> (id: String) {
    uuid::Uuid::new_v4().to_string()
}

/// Calls `chrono::Utc::now`, which reads the clock of the system and does
/// not return where the clock stands before 1970, and gives the moment in
/// milliseconds since the Unix epoch. Nothing is stated of the time.
#[verifier::external_body]
fn current_time_millis() -> (now: i64) {
    chrono::Utc::now().timestamp_millis()
}

/// The controller of the recording session.
#[derive(Debug)]
pub struct AppState {
    status: RecordingStatus,
    modes: ModeRegistry,
    active_mode_key: String,
    settings: Settings,
    session: Option<Session>,
}

impl View for AppState {
    type V = AppStateView;

    closed spec fn view(&self) -> AppStateView {
        AppStateView {
            status: self.status,
            modes: self.modes@,
            active_mode_key: self.active_mode_key@,
            settings: self.settings@,
            session: match self.session {
                Some(session) => Some(session@),
                None => None,
            },
        }
    }
}

/// The state before the modes are loaded.
pub open spec fn initial_state(settings: SettingsView) -> AppStateView {
    AppStateView {
        status: RecordingStatus::Loading,
        modes: Seq::empty(),
        active_mode_key: settings.active_mode_key,
        settings,
        session: None,
    }
}

/// The state after the modes were loaded: the active mode falls back to
/// "voice_to_text" if the registry does not have it, and a state that waited
/// for the modes is ready.
pub open spec fn with_registry(state: AppStateView, modes: Seq<ModeView>) -> AppStateView {
    AppStateView {
        status: if state.is_active() {
            state.status
        } else {
            RecordingStatus::Ready
        },
        modes,
        active_mode_key: if lookup(modes, state.active_mode_key) is Some {
            state.active_mode_key
        } else {
            "voice_to_text"@
        },
        ..state
    }
}

/// The state after the mode with the key `key` was made the active one.
pub open spec fn with_active_mode(state: AppStateView, key: Seq<char>) -> AppStateView {
    AppStateView {
        active_mode_key: key,
        settings: SettingsView { active_mode_key: key, ..state.settings },
        ..state
    }
}

impl AppState {
    /// The controller before the modes are loaded.
    pub fn new(settings: Settings) -> (state: Self)
        ensures
            state@ == initial_state(settings@),
            state@.well_formed(),
    {
        AppState {
            status: RecordingStatus::Loading,
            modes: ModeRegistry::new(),
            active_mode_key: settings.active_mode_key.clone(),
            settings,
            session: None,
        }
    }

    /// The status that every observer sees.
    pub fn status(&self) -> (status: RecordingStatus)
        ensures
            status == self@.status,
    {
        self.status
    }

    /// Whether audio is being captured.
    pub fn is_recording(&self) -> (recording: bool)
        ensures
            recording == (self@.status == RecordingStatus::Recording),
    {
        self.status == RecordingStatus::Recording
    }

    /// The settings.
    pub fn settings(&self) -> (settings: &Settings)
        ensures
            settings@ == self@.settings,
    {
        &self.settings
    }

    /// The registry of modes.
    pub fn modes(&self) -> (modes: &ModeRegistry)
        ensures
            modes@ == self@.modes,
    {
        &self.modes
    }

    /// Key of the active mode.
    pub fn active_mode_key(&self) -> (key: &str)
        ensures
            key@ == self@.active_mode_key,
    {
        self.active_mode_key.as_str()
    }

    /// Replaces the settings. The active mode stays.
    pub fn update_settings(&mut self, settings: Settings)
        ensures
            final(self)@ == (AppStateView { settings: settings@, ..old(self)@ }),
    {
        self.settings = settings;
    }

    /// Selects the input device; the empty name selects the default device.
    pub fn set_input_device(&mut self, device_name: String)
        ensures
            final(self)@ == (AppStateView {
                settings: SettingsView { input_device: device_name@, ..old(self)@.settings },
                ..old(self)@
            }),
    {
        self.settings.input_device = device_name;
    }

    /// Takes the loaded modes.
    pub fn load_modes(&mut self, modes: ModeRegistry)
        requires
            modes.well_formed(),
            old(self)@.well_formed(),
        ensures
            final(self)@ == with_registry(old(self)@, modes@),
            final(self)@.well_formed(),
    {
        if !modes.contains_key(self.active_mode_key.as_str()) {
            self.active_mode_key = String::from_str("voice_to_text");
        }
        self.modes = modes;
        if !(self.status == RecordingStatus::Recording || self.status
            == RecordingStatus::Processing) {
            self.status = RecordingStatus::Ready;
        }
    }

    /// The active mode, if the registry has it.
    pub fn get_active_mode(&self) -> (mode: Option<&Mode>)
        ensures
            match mode {
                Some(m) => lookup(self@.modes, self@.active_mode_key) == Some(m@),
                None => lookup(self@.modes, self@.active_mode_key) is None,
            },
    {
        self.modes.get(self.active_mode_key.as_str())
    }

    /// Makes the mode with the key `key` the active one, in the state and in
    /// the settings. A key that the registry does not have changes nothing.
    pub fn set_active_mode(&mut self, key: &str) -> (done: Result<(), SessionError>)
        ensures
            match done {
                Ok(_) => lookup(old(self)@.modes, key@) is Some && final(self)@
                    == with_active_mode(old(self)@, key@),
                Err(e) => lookup(old(self)@.modes, key@) is None && final(self)@ == old(self)@
                    && e@ == error_of(ErrorKind::ModeNotFound, key@),
            },
    {
        if !self.modes.contains_key(key) {
            return Err(SessionError::ModeNotFound(String::from_str(key)));
        }
        self.active_mode_key = String::from_str(key);
        self.settings.active_mode_key = String::from_str(key);
        Ok(())
    }

    fn is_active(&self) -> (active: bool)
        ensures
            active == self@.is_active(),
    {
        self.status == RecordingStatus::Recording || self.status == RecordingStatus::Processing
    }

    fn fail(&mut self, error: SessionError) -> (action: Action)
        ensures
            (final(self)@, action@) == old(self)@.failed(error@),
    {
        self.session = None;
        self.status = RecordingStatus::Error;
        Action::Fail { error }
    }

    fn proceed(&mut self, pipeline: Pipeline)
        ensures
            final(self)@ == old(self)@.processing(pipeline@),
    {
        self.session = Some(Session::Processing(pipeline));
        self.status = RecordingStatus::Processing;
    }

    fn finish(&mut self, pipeline: Pipeline, output: String, now: i64) -> (action: Action)
        ensures
            (final(self)@, action@) == old(self)@.finished(pipeline@, output@, now),
    {
        let record = HistoryItem::new(
            pipeline.id,
            now,
            &pipeline.mode,
            pipeline.audio_path,
            pipeline.transcript,
            output.clone(),
            pipeline.duration_ms,
        );
        self.session = None;
        self.status = RecordingStatus::Ready;
        Action::Finish { record, output, auto_paste: self.settings.auto_paste }
    }

    fn fall_back(&mut self, pipeline: Pipeline, now: i64) -> (action: Action)
        ensures
            (final(self)@, action@) == old(self)@.finished(pipeline@, pipeline@.transcript, now),
    {
        let output = pipeline.transcript.clone();
        self.finish(pipeline, output, now)
    }

    fn select_stt(&mut self, pipeline: Pipeline, key: Option<String>) -> (action: Action)
        ensures
            (final(self)@, action@) == old(self)@.select_stt(pipeline@, option_text(key)),
    {
        let mut pipeline = pipeline;
        let server_url = crate::history::clone_option(&self.settings.whisper_server_url);
        let env_url = crate::history::clone_option(&pipeline.env_server_url);
        match create_stt_provider(
            &pipeline.mode.stt_provider,
            pipeline.mode.stt_model.as_str(),
            key,
            server_url,
            env_url,
        ) {
            Err(error) => self.fail(error),
            Ok(SttBackend::Local { model }) => {
                let file_name = model_file_name(model.as_str());
                let url = model_download_url(model.as_str());
                pipeline.stage = Stage::EnsuringModel;
                self.proceed(pipeline);
                Action::EnsureModel { model, file_name, url }
            },
            Ok(SttBackend::Remote(provider)) => {
                let request = provider.request(Some(self.settings.language.as_str()));
                pipeline.stage = Stage::Transcribing;
                pipeline.remote = Some(provider);
                self.proceed(pipeline);
                Action::TranscribeRemote { request }
            },
        }
    }

    fn audio_saved(&mut self, pipeline: Pipeline, path: String) -> (action: Action)
        ensures
            (final(self)@, action@) == old(self)@.audio_saved(pipeline@, path@),
    {
        let mut pipeline = pipeline;
        pipeline.audio_path = Some(path);
        match stt_key_name(&pipeline.mode.stt_provider) {
            Some(key_name) => {
                pipeline.stage = Stage::FetchingSttKey;
                self.proceed(pipeline);
                Action::FetchCredential { key_name: String::from_str(key_name) }
            },
            None => self.select_stt(pipeline, None),
        }
    }

    fn select_llm(&mut self, pipeline: Pipeline, key: Option<String>, now: i64) -> (action: Action)
        ensures
            (final(self)@, action@) == old(self)@.select_llm(pipeline@, option_text(key), now),
    {
        let mut pipeline = pipeline;
        let chosen = match &key {
            Some(k) => create_llm_provider(
                &pipeline.mode.llm_provider,
                pipeline.mode.llm_model.as_str(),
                Some(k.as_str()),
            ),
            None => create_llm_provider(
                &pipeline.mode.llm_provider,
                pipeline.mode.llm_model.as_str(),
                None,
            ),
        };
        match chosen {
            Ok(backend) => {
                let prompt = match &pipeline.context {
                    Some(context) => render_prompt(
                        pipeline.mode.prompt_template.as_str(),
                        pipeline.transcript.as_str(),
                        Some(context.as_str()),
                        self.settings.language.as_str(),
                    ),
                    None => render_prompt(
                        pipeline.mode.prompt_template.as_str(),
                        pipeline.transcript.as_str(),
                        None,
                        self.settings.language.as_str(),
                    ),
                };
                pipeline.stage = Stage::Completing;
                self.proceed(pipeline);
                Action::Complete { backend, prompt }
            },
            Err(_) => self.fall_back(pipeline, now),
        }
    }

    fn transcribed(&mut self, pipeline: Pipeline, text: String, now: i64) -> (action: Action)
        ensures
            (final(self)@, action@) == old(self)@.transcribed(pipeline@, text@, now),
    {
        let mut pipeline = pipeline;
        if text.as_str().unicode_len() == 0 {
            return self.fail(
                SessionError::TranscriptionFailed(String::from_str("No speech was recognized")),
            );
        }
        pipeline.remote = None;
        if pipeline.mode.ai_processing && pipeline.mode.prompt_template.as_str().unicode_len()
            > 0 {
            pipeline.transcript = text;
            match llm_key_name(&pipeline.mode.llm_provider) {
                Some(key_name) => {
                    pipeline.stage = Stage::FetchingLlmKey;
                    self.proceed(pipeline);
                    Action::FetchCredential { key_name: String::from_str(key_name) }
                },
                None => self.select_llm(pipeline, None, now),
            }
        } else {
            pipeline.transcript = text.clone();
            self.finish(pipeline, text, now)
        }
    }

    fn capture_stopped(
        &mut self,
        context: Option<String>,
        samples: usize,
        session_id: String,
        env_server_url: Option<String>,
    ) -> (action: Action)
        ensures
            (final(self)@, action@) == old(self)@.capture_ended(
                option_text(context),
                samples,
                session_id@,
                option_text(env_server_url),
            ),
    {
        let mode = match self.modes.get(self.active_mode_key.as_str()) {
            Some(mode) => mode.clone(),
            None => {
                let key = self.active_mode_key.clone();
                return self.fail(SessionError::ModeNotFound(key));
            },
        };
        let file_name = session_id.clone().concat(".wav");
        let pipeline = Pipeline {
            stage: Stage::SavingAudio,
            id: session_id,
            mode,
            context,
            duration_ms: calculate_duration_ms(samples),
            env_server_url,
            audio_path: None,
            remote: None,
            transcript: String::new(),
        };
        self.proceed(pipeline);
        Action::SaveAudio { file_name }
    }

    fn reject_start(&self) -> (action: Action)
        ensures
            action@ == (ActionView::Reject { error: plain_error(ErrorKind::RecordingInProgress) }),
    {
        Action::Reject { error: SessionError::RecordingInProgress }
    }

    fn reject_stop(&self) -> (action: Action)
        ensures
            action@ == (ActionView::Reject {
                error: plain_error(ErrorKind::NoRecordingInProgress),
            }),
    {
        Action::Reject { error: SessionError::NoRecordingInProgress }
    }

    /// Asks for a recording to start. Nothing changes yet: the answer says
    /// whether capture is to begin.
    pub fn start_recording(&self) -> (action: Action)
        ensures
            action@ == self@.start_request(),
    {
        if self.is_active() {
            self.reject_start()
        } else {
            Action::BeginCapture {
                device: self.settings.input_device.clone(),
                snapshot_context: self.settings.context_awareness,
            }
        }
    }

    /// Asks for the recording to stop. Nothing changes yet: the answer says
    /// whether capture is to end.
    pub fn stop_recording(&self) -> (action: Action)
        ensures
            action@ == self@.stop_request(),
    {
        match &self.session {
            Some(Session::Capturing { .. }) => Action::EndCapture,
            _ => self.reject_stop(),
        }
    }

    /// Drops the recording.
    pub fn cancel_recording(&mut self) -> (action: Action)
        ensures
            (final(self)@, action@) == old(self)@.cancelled(),
    {
        let action = match &self.session {
            Some(Session::Capturing { .. }) => Action::DiscardCapture,
            _ => Action::Idle,
        };
        self.session = None;
        self.status = RecordingStatus::Ready;
        action
    }

    /// Takes an event that happens now, by the clock of the system, and says
    /// what is to be done next.
    pub fn handle(&mut self, event: Event) -> (action: Action)
        requires
            old(self)@.well_formed(),
        ensures
            exists|now: i64| (final(self)@, action@) == #[trigger] old(self)@.step(event, now),
            final(self)@.well_formed(),
    {
        let now = current_time_millis();
        self.advance(event, now)
    }

    /// Reports that capture ended with `samples` samples, where the
    /// environment names the address `env_server_url` of a self-hosted
    /// server. The session gets a fresh identifier.
    pub fn capture_stopped_now(&mut self, samples: usize, env_server_url: Option<String>) -> (action:
        Action)
        requires
            old(self)@.well_formed(),
        ensures
            exists|session_id: String, now: i64|
                (final(self)@, action@) == #[trigger] old(self)@.step(
                    Event::CaptureStopped { samples, session_id, env_server_url },
                    now,
                ),
            final(self)@.well_formed(),
    {
        let session_id = fresh_session_id();
        let now = current_time_millis();
        self.advance(Event::CaptureStopped { samples, session_id, env_server_url }, now)
    }

    /// Takes an event that happened at the time `now`, in milliseconds since
    /// the Unix epoch, and says what is to be done next.
    pub fn advance(&mut self, event: Event, now: i64) -> (action: Action)
        requires
            old(self)@.well_formed(),
        ensures
            (final(self)@, action@) == old(self)@.step(event, now),
            final(self)@.well_formed(),
    {
        proof {
            lemma_step_well_formed(self@, event, now);
        }
        match event {
            Event::StartRequested => self.start_recording(),
            Event::CaptureStarted { context } => {
                if self.is_active() {
                    self.reject_start()
                } else {
                    self.session = Some(
                        Session::Capturing {
                            context: if self.settings.context_awareness {
                                context
                            } else {
                                None
                            },
                        },
                    );
                    self.status = RecordingStatus::Recording;
                    Action::Idle
                }
            },
            Event::CaptureFailed { error } => {
                if self.is_active() {
                    self.reject_start()
                } else {
                    self.fail(error)
                }
            },
            Event::StopRequested => self.stop_recording(),
            Event::CaptureStopped { samples, session_id, env_server_url } => {
                match self.session.take() {
                    Some(Session::Capturing { context }) => self.capture_stopped(
                        context,
                        samples,
                        session_id,
                        env_server_url,
                    ),
                    other => {
                        self.session = other;
                        self.reject_stop()
                    },
                }
            },
            Event::AudioSaved { path } => {
                match self.session.take() {
                    Some(Session::Processing(pipeline)) => {
                        if pipeline.stage == Stage::SavingAudio {
                            self.audio_saved(pipeline, path)
                        } else {
                            self.session = Some(Session::Processing(pipeline));
                            self.reject_stop()
                        }
                    },
                    other => {
                        self.session = other;
                        self.reject_stop()
                    },
                }
            },
            Event::Credential(reply) => {
                match self.session.take() {
                    Some(Session::Processing(pipeline)) => {
                        if pipeline.stage == Stage::FetchingSttKey {
                            match read_credential(reply, true) {
                                Ok(key) => self.select_stt(pipeline, key),
                                Err(error) => self.fail(error),
                            }
                        } else if pipeline.stage == Stage::FetchingLlmKey {
                            match read_credential(reply, false) {
                                Ok(key) => self.select_llm(pipeline, key, now),
                                Err(_) => self.fall_back(pipeline, now),
                            }
                        } else {
                            self.session = Some(Session::Processing(pipeline));
                            self.reject_stop()
                        }
                    },
                    other => {
                        self.session = other;
                        self.reject_stop()
                    },
                }
            },
            Event::ModelReady { path } => {
                match self.session.take() {
                    Some(Session::Processing(pipeline)) => {
                        if pipeline.stage == Stage::EnsuringModel {
                            let mut pipeline = pipeline;
                            pipeline.stage = Stage::Transcribing;
                            self.proceed(pipeline);
                            Action::TranscribeLocal {
                                provider: WhisperCppProvider::new(path),
                                language: WhisperCppProvider::language(
                                    Some(self.settings.language.as_str()),
                                ),
                            }
                        } else {
                            self.session = Some(Session::Processing(pipeline));
                            self.reject_stop()
                        }
                    },
                    other => {
                        self.session = other;
                        self.reject_stop()
                    },
                }
            },
            Event::Inference(reply) => {
                match self.session.take() {
                    Some(Session::Processing(pipeline)) => {
                        if pipeline.stage == Stage::Transcribing && pipeline.remote.is_none() {
                            match WhisperCppProvider::read_reply(reply) {
                                Ok(text) => self.transcribed(pipeline, text, now),
                                Err(error) => self.fail(error),
                            }
                        } else {
                            self.session = Some(Session::Processing(pipeline));
                            self.reject_stop()
                        }
                    },
                    other => {
                        self.session = other;
                        self.reject_stop()
                    },
                }
            },
            Event::Transcription(reply) => {
                match self.session.take() {
                    Some(Session::Processing(pipeline)) => {
                        let read = match &pipeline.remote {
                            Some(provider) if pipeline.stage == Stage::Transcribing => Some(
                                provider.read_reply(reply),
                            ),
                            _ => None,
                        };
                        match read {
                            Some(Ok(text)) => self.transcribed(pipeline, text, now),
                            Some(Err(error)) => self.fail(error),
                            None => {
                                self.session = Some(Session::Processing(pipeline));
                                self.reject_stop()
                            },
                        }
                    },
                    other => {
                        self.session = other;
                        self.reject_stop()
                    },
                }
            },
            Event::Completed { text } => {
                match self.session.take() {
                    Some(Session::Processing(pipeline)) => {
                        if pipeline.stage == Stage::Completing {
                            if text.as_str().unicode_len() > 0 {
                                self.finish(pipeline, text, now)
                            } else {
                                self.fall_back(pipeline, now)
                            }
                        } else {
                            self.session = Some(Session::Processing(pipeline));
                            self.reject_stop()
                        }
                    },
                    other => {
                        self.session = other;
                        self.reject_stop()
                    },
                }
            },
            Event::Failed { error } => {
                match self.session.take() {
                    Some(Session::Capturing { .. }) => self.fail(error),
                    Some(Session::Processing(pipeline)) => {
                        if pipeline.stage == Stage::FetchingLlmKey || pipeline.stage
                            == Stage::Completing {
                            self.fall_back(pipeline, now)
                        } else {
                            self.fail(error)
                        }
                    },
                    None => self.reject_stop(),
                }
            },
            Event::CancelRequested => self.cancel_recording(),
        }
    }
}

/// The state after a sequence of events, each with the time at which it
/// happened.
pub open spec fn run(state: AppStateView, events: Seq<(Event, i64)>) -> AppStateView
    decreases events.len(),
{
    if events.len() == 0 {
        state
    } else {
        run(state, events.drop_last()).step(events.last().0, events.last().1).0
    }
}

/// The text that an answer of the recognition gives for the session of the
/// state, if the answer fits the state and is no failure: the transcript of
/// the segments of the local model, or of the text of the server.
pub open spec fn recognised(state: AppStateView, event: Event) -> Option<Seq<char>> {
    match (state.session, event) {
        (Some(SessionView::Processing(pipeline)), Event::Inference(reply)) => if pipeline.stage
            == Stage::Transcribing && pipeline.remote is None {
            match WhisperCppProvider::reading(reply) {
                Ok(text) => Some(text),
                Err(_) => None,
            }
        } else {
            None
        },
        (Some(SessionView::Processing(pipeline)), Event::Transcription(reply)) => if pipeline.stage
            == Stage::Transcribing && pipeline.remote is Some {
            match pipeline.remote->0.reading(reply) {
                Ok(text) => Some(text),
                Err(_) => None,
            }
        } else {
            None
        },
        _ => None,
    }
}

/// Every step keeps the state well formed: the status is `Recording` or
/// `Processing` exactly while the state holds its one session.
pub proof fn lemma_step_well_formed(state: AppStateView, event: Event, now: i64)
    requires
        state.well_formed(),
    ensures
        state.step(event, now).0.well_formed(),
{
}

/// Whatever events come, in whatever order, the state stays well formed: the
/// status is `Recording` or `Processing` exactly while the state holds a
/// session, and it never holds more than the one.
pub proof fn lemma_run_well_formed(state: AppStateView, events: Seq<(Event, i64)>)
    requires
        state.well_formed(),
    ensures
        run(state, events).well_formed(),
        run(state, events).is_active() <==> run(state, events).session is Some,
    decreases events.len(),
{
    if events.len() > 0 {
        lemma_run_well_formed(state, events.drop_last());
        lemma_step_well_formed(
            run(state, events.drop_last()),
            events.last().0,
            events.last().1,
        );
    }
}

/// A stop while the status is `Ready`, `Loading` or `Error` is refused with
/// `NoRecordingInProgress` and changes nothing. So is a stop while the
/// session is processed.
pub proof fn lemma_stop_needs_recording(state: AppStateView, now: i64)
    requires
        state.well_formed(),
        state.status != RecordingStatus::Recording,
    ensures
        state.step(Event::StopRequested, now) == state.rejected(ErrorKind::NoRecordingInProgress),
{
}

/// A start while the status is `Recording` or `Processing` is refused with
/// `RecordingInProgress` and changes nothing, both when it is asked for and
/// when a capture is reported that was begun all the same.
pub proof fn lemma_start_needs_idle(state: AppStateView, context: Option<String>, now: i64)
    requires
        state.status == RecordingStatus::Recording || state.status == RecordingStatus::Processing,
    ensures
        state.step(Event::StartRequested, now) == state.rejected(ErrorKind::RecordingInProgress),
        state.step(Event::CaptureStarted { context }, now) == state.rejected(
            ErrorKind::RecordingInProgress,
        ),
{
}

/// A start in any other status, `Error` included, is granted, and the
/// capture that it begins makes the status `Recording`.
pub proof fn lemma_start_is_granted(state: AppStateView, context: Option<String>, now: i64)
    requires
        state.status != RecordingStatus::Recording,
        state.status != RecordingStatus::Processing,
    ensures
        state.step(Event::StartRequested, now).1 is BeginCapture,
        state.step(Event::CaptureStarted { context }, now).0.status == RecordingStatus::Recording,
        state.step(Event::CaptureStarted { context }, now).1 == ActionView::Idle,
{
}

/// With a mode that does not post-process, the session ends with exactly the
/// recognised transcript as its output, if any speech was recognised.
pub proof fn lemma_plain_mode_gives_transcript(
    state: AppStateView,
    pipeline: PipelineView,
    event: Event,
    text: Seq<char>,
    now: i64,
)
    requires
        state.session == Some(SessionView::Processing(pipeline)),
        !pipeline.mode.ai_processing,
        recognised(state, event) == Some(text),
        text.len() > 0,
    ensures
        state.step(event, now).0 == state.idle(RecordingStatus::Ready),
        state.step(event, now).1 matches ActionView::Finish { record, output, .. } && output
            == text && record.transcript_raw == text && record.output_final == text,
{
}

/// Where the language model fails, or its key cannot be fetched, the session
/// still ends well, with the transcript as its output.
pub proof fn lemma_failed_completion_falls_back(
    state: AppStateView,
    pipeline: PipelineView,
    error: SessionError,
    now: i64,
)
    requires
        state.session == Some(SessionView::Processing(pipeline)),
        pipeline.stage == Stage::Completing || pipeline.stage == Stage::FetchingLlmKey,
    ensures
        state.step(Event::Failed { error }, now).0 == state.idle(RecordingStatus::Ready),
        state.step(Event::Failed { error }, now).1 matches ActionView::Finish { record, output, .. }
            && output == pipeline.transcript && record.transcript_raw == pipeline.transcript
            && record.output_final == pipeline.transcript,
{
}

/// A step that ends the session leaves no session behind: after `Finish` the
/// status is `Ready` and the output is not empty, after `Fail` the status is
/// `Error`.
pub proof fn lemma_session_ends(state: AppStateView, event: Event, now: i64)
    requires
        state.well_formed(),
    ensures
        state.step(event, now).1 matches ActionView::Finish { record, output, .. } ==> {
            &&& state.step(event, now).0.status == RecordingStatus::Ready
            &&& state.step(event, now).0.session is None
            &&& output.len() > 0
            &&& record.output_final == output
        },
        state.step(event, now).1 is Fail ==> {
            &&& state.step(event, now).0.status == RecordingStatus::Error
            &&& state.step(event, now).0.session is None
        },
        state.step(event, now).1 is Reject ==> state.step(event, now).0 == state,
{
}

} // verus!
