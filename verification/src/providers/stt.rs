//! Speech-to-text providers: which one a mode selects, what is asked of it,
//! and how its answer is read.

use crate::artifact::{assemble_transcript, texts_of, transcript_of};
use crate::error::{error_of, ErrorKind, SessionError, SessionErrorView};
use crate::modes::{option_str_text, SttProvider, SttProviderView};
use crate::paths::{join_path, joined_path, missing_directory_error, project_data_dir};
use crate::text::option_text;
use vstd::prelude::*;

verus! {

/// File name of a local model.
pub open spec fn model_file(model_name: Seq<char>) -> Seq<char> {
    "ggml-"@ + model_name + ".bin"@
}

/// Where a local model that is not on disk is fetched from.
pub open spec fn model_url(model_name: Seq<char>) -> Seq<char> {
    "https://huggingface.co/ggerganov/whisper.cpp/resolve/main/"@ + model_file(model_name)
}

/// Path of a local model in the data directory `data_dir`.
pub open spec fn model_path_in(data_dir: Seq<char>, model_name: Seq<char>) -> Seq<char> {
    joined_path(joined_path(data_dir, "models"@), model_file(model_name))
}

/// File name of a local model.
pub fn model_file_name(model_name: &str) -> (name: String)
    ensures
        name@ == model_file(model_name@),
{
    String::from_str("ggml-").concat(model_name).concat(".bin")
}

/// Where a local model that is not on disk is fetched from.
pub fn model_download_url(model_name: &str) -> (url: String)
    ensures
        url@ == model_url(model_name@),
{
    let file = model_file_name(model_name);
    String::from_str("https://huggingface.co/ggerganov/whisper.cpp/resolve/main/").concat(
        file.as_str(),
    )
}

/// The error of a model download that the server answered with `status`.
pub fn model_download_failed(status: &str) -> (e: SessionError)
    ensures
        e@ == error_of(ErrorKind::ModelUnavailable, "Failed to download model: HTTP "@ + status@),
{
    SessionError::ModelUnavailable(
        String::from_str("Failed to download model: HTTP ").concat(status),
    )
}

/// The directory of the local models.
pub fn get_models_dir() -> (dir: Result<String, SessionError>)
    ensures
        match dir {
            Ok(path) => exists|data_dir: Seq<char>| path@ == joined_path(data_dir, "models"@),
            Err(e) => e@ == missing_directory_error("data"@),
        },
{
    match project_data_dir() {
        Ok(data_dir) => {
            let path = join_path(data_dir.as_str(), "models");
            assert(path@ == joined_path(data_dir@, "models"@));
            Ok(path)
        },
        Err(e) => Err(e),
    }
}

/// The path of a local model.
pub fn get_model_path(model_name: &str) -> (found: Result<String, SessionError>)
    ensures
        match found {
            Ok(path) => exists|data_dir: Seq<char>| path@ == model_path_in(data_dir, model_name@),
            Err(e) => e@ == missing_directory_error("data"@),
        },
{
    match project_data_dir() {
        Ok(data_dir) => {
            let dir = join_path(data_dir.as_str(), "models");
            let path = join_path(dir.as_str(), model_file_name(model_name).as_str());
            assert(path@ == model_path_in(data_dir@, model_name@));
            Ok(path)
        },
        Err(e) => Err(e),
    }
}

/// Local recognition with a model file.
#[derive(Debug)]
pub struct WhisperCppProvider {
    model_path: String,
}

/// What the local recognition gave.
#[derive(Debug)]
pub enum InferenceReply {
    /// The model could not be loaded.
    ContextFailed(String),
    /// No state could be made for the model.
    StateFailed(String),
    /// The recognition failed.
    RunFailed(String),
    /// The segments could not be counted.
    SegmentsFailed(String),
    /// The task that ran the recognition did not end.
    TaskFailed(String),
    /// The recognised segments, in order.
    Segments(Vec<String>),
}

impl WhisperCppProvider {
    /// Path of the model file.
    pub closed spec fn path(&self) -> Seq<char> {
        self.model_path@
    }

    /// The language that is recognised where none is given.
    pub open spec fn language_of(language: Option<Seq<char>>) -> Seq<char> {
        match language {
            Some(l) => l,
            None => "en"@,
        }
    }

    /// What a reply of the recognition means: the transcript of the
    /// segments, or the failure with its place.
    pub open spec fn reading(reply: InferenceReply) -> Result<Seq<char>, SessionErrorView> {
        match reply {
            InferenceReply::ContextFailed(d) => Err(
                error_of(ErrorKind::TranscriptionFailed, "Failed to create context: "@ + d@),
            ),
            InferenceReply::StateFailed(d) => Err(
                error_of(ErrorKind::TranscriptionFailed, "Failed to create state: "@ + d@),
            ),
            InferenceReply::RunFailed(d) => Err(
                error_of(ErrorKind::TranscriptionFailed, "Transcription failed: "@ + d@),
            ),
            InferenceReply::SegmentsFailed(d) => Err(
                error_of(ErrorKind::TranscriptionFailed, "Failed to get segments: "@ + d@),
            ),
            InferenceReply::TaskFailed(d) => Err(
                error_of(ErrorKind::TranscriptionFailed, "Task failed: "@ + d@),
            ),
            InferenceReply::Segments(segments) => Ok(transcript_of(texts_of(segments@))),
        }
    }

    /// A provider for the model at `model_path`.
    pub fn new(model_path: String) -> (provider: Self)
        ensures
            provider.path() == model_path@,
    {
        Self { model_path }
    }

    /// Path of the model file.
    pub fn model_path(&self) -> (path: &str)
        ensures
            path@ == self.path(),
    {
        self.model_path.as_str()
    }

    /// Name of the provider.
    pub fn name(&self) -> (name: &'static str)
        ensures
            name@ == "whisper.cpp"@,
    {
        "whisper.cpp"
    }

    /// The language to recognise: the one given, or English.
    pub fn language(language: Option<&str>) -> (chosen: String)
        ensures
            chosen@ == Self::language_of(option_str_text(language)),
    {
        match language {
            Some(l) => String::from_str(l),
            None => String::from_str("en"),
        }
    }

    /// Reads a reply of the recognition: the transcript of its segments, or
    /// the failure.
    pub fn read_reply(reply: InferenceReply) -> (text: Result<String, SessionError>)
        ensures
            match text {
                Ok(t) => Self::reading(reply) == Ok::<Seq<char>, SessionErrorView>(t@),
                Err(e) => Self::reading(reply) == Err::<Seq<char>, SessionErrorView>(e@),
            },
    {
        match reply {
            InferenceReply::ContextFailed(d) => Err(
                SessionError::TranscriptionFailed(
                    String::from_str("Failed to create context: ").concat(d.as_str()),
                ),
            ),
            InferenceReply::StateFailed(d) => Err(
                SessionError::TranscriptionFailed(
                    String::from_str("Failed to create state: ").concat(d.as_str()),
                ),
            ),
            InferenceReply::RunFailed(d) => Err(
                SessionError::TranscriptionFailed(
                    String::from_str("Transcription failed: ").concat(d.as_str()),
                ),
            ),
            InferenceReply::SegmentsFailed(d) => Err(
                SessionError::TranscriptionFailed(
                    String::from_str("Failed to get segments: ").concat(d.as_str()),
                ),
            ),
            InferenceReply::TaskFailed(d) => Err(
                SessionError::TranscriptionFailed(
                    String::from_str("Task failed: ").concat(d.as_str()),
                ),
            ),
            InferenceReply::Segments(segments) => Ok(assemble_transcript(&segments)),
        }
    }
}

/// Recognition by a server with the `/v1/audio/transcriptions` interface,
/// self-hosted or in the cloud.
#[derive(Debug)]
pub struct OpenAiCompatibleSttProvider {
    base_url: String,
    api_key: Option<String>,
    model: String,
    name: String,
}

/// [`OpenAiCompatibleSttProvider`] with its strings as text.
pub struct RemoteSttView {
    pub base_url: Seq<char>,
    pub api_key: Option<Seq<char>>,
    pub model: Seq<char>,
    pub name: Seq<char>,
}

/// What is sent to the server: one multipart form with the audio as a file
/// part and the fields below.
#[derive(Debug)]
pub struct TranscriptionRequest {
    /// Address of the endpoint.
    pub url: String,
    /// File name of the audio part.
    pub file_name: String,
    /// Media type of the audio part.
    pub mime_type: String,
    /// The form field `model`.
    pub model: String,
    /// The form field `language`, if a language is given.
    pub language: Option<String>,
    /// The header `Authorization`, if the provider has a key.
    pub authorization: Option<String>,
    /// Seconds after which the request is given up.
    pub timeout_secs: u64,
}

/// [`TranscriptionRequest`] with its strings as text.
pub struct TranscriptionRequestView {
    pub url: Seq<char>,
    pub file_name: Seq<char>,
    pub mime_type: Seq<char>,
    pub model: Seq<char>,
    pub language: Option<Seq<char>>,
    pub authorization: Option<Seq<char>>,
    pub timeout_secs: u64,
}

impl View for TranscriptionRequest {
    type V = TranscriptionRequestView;

    open spec fn view(&self) -> TranscriptionRequestView {
        TranscriptionRequestView {
            url: self.url@,
            file_name: self.file_name@,
            mime_type: self.mime_type@,
            model: self.model@,
            language: option_text(self.language),
            authorization: option_text(self.authorization),
            timeout_secs: self.timeout_secs,
        }
    }
}

/// What came back from the server.
#[derive(Debug)]
pub enum TranscriptionReply {
    /// The request could not be sent or no answer came.
    RequestFailed(String),
    /// The server answered with a status that is no success.
    Rejected { status: String, body: String },
    /// The answer is no transcription.
    Unreadable(String),
    /// The recognised text.
    Text(String),
}

impl View for OpenAiCompatibleSttProvider {
    type V = RemoteSttView;

    closed spec fn view(&self) -> RemoteSttView {
        RemoteSttView {
            base_url: self.base_url@,
            api_key: option_text(self.api_key),
            model: self.model@,
            name: self.name@,
        }
    }
}

impl RemoteSttView {
    /// Address of the transcription endpoint.
    pub open spec fn endpoint(self) -> Seq<char> {
        self.base_url + "/v1/audio/transcriptions"@
    }

    /// The header that carries the key.
    pub open spec fn authorization(self) -> Option<Seq<char>> {
        match self.api_key {
            Some(key) => Some("Bearer "@ + key),
            None => None,
        }
    }

    /// The request that asks the server for a transcription: the audio goes
    /// as the file `audio.wav`, and the request is given up after two minutes.
    pub open spec fn request_of(self, language: Option<Seq<char>>) -> TranscriptionRequestView {
        TranscriptionRequestView {
            url: self.endpoint(),
            file_name: "audio.wav"@,
            mime_type: "audio/wav"@,
            model: self.model,
            language,
            authorization: self.authorization(),
            timeout_secs: 120,
        }
    }

    /// What a reply of the server means: the transcript of the text, taken
    /// as one segment, or the failure, which starts with the provider's name
    /// in brackets.
    pub open spec fn reading(self, reply: TranscriptionReply) -> Result<
        Seq<char>,
        SessionErrorView,
    > {
        let tag = "["@ + self.name + "] "@;
        match reply {
            TranscriptionReply::RequestFailed(d) => Err(
                error_of(ErrorKind::TranscriptionFailed, tag + "Request failed: "@ + d@),
            ),
            TranscriptionReply::Rejected { status, body } => Err(
                error_of(
                    ErrorKind::TranscriptionFailed,
                    tag + "API error ("@ + status@ + "): "@ + body@,
                ),
            ),
            TranscriptionReply::Unreadable(d) => Err(
                error_of(ErrorKind::TranscriptionFailed, tag + "Failed to parse response: "@ + d@),
            ),
            TranscriptionReply::Text(t) => Ok(transcript_of(seq![t@])),
        }
    }
}

impl OpenAiCompatibleSttProvider {
    /// A provider for the server at `base_url`.
    pub fn new(base_url: String, api_key: Option<String>, model: String, name: String) -> (provider:
        Self)
        ensures
            provider@ == (RemoteSttView {
                base_url: base_url@,
                api_key: option_text(api_key),
                model: model@,
                name: name@,
            }),
    {
        Self { base_url, api_key, model, name }
    }

    /// A provider for a self-hosted server, which asks for no key.
    pub fn self_hosted(base_url: String, model: String) -> (provider: Self)
        ensures
            provider@ == (RemoteSttView {
                base_url: base_url@,
                api_key: None,
                model: model@,
                name: "Self-hosted Whisper"@,
            }),
    {
        Self::new(base_url, None, model, String::from_str("Self-hosted Whisper"))
    }

    /// A provider for the cloud service.
    pub fn openai_cloud(api_key: String, model: String) -> (provider: Self)
        ensures
            provider@ == (RemoteSttView {
                base_url: "https://api.openai.com"@,
                api_key: Some(api_key@),
                model: model@,
                name: "OpenAI Cloud"@,
            }),
    {
        Self::new(
            String::from_str("https://api.openai.com"),
            Some(api_key),
            model,
            String::from_str("OpenAI Cloud"),
        )
    }

    /// Name of the provider.
    pub fn name(&self) -> (name: &str)
        ensures
            name@ == self@.name,
    {
        self.name.as_str()
    }

    /// The request that asks the server for a transcription.
    pub fn request(&self, language: Option<&str>) -> (request: TranscriptionRequest)
        ensures
            request@ == self@.request_of(option_str_text(language)),
    {
        TranscriptionRequest {
            url: self.base_url.clone().concat("/v1/audio/transcriptions"),
            file_name: String::from_str("audio.wav"),
            mime_type: String::from_str("audio/wav"),
            model: self.model.clone(),
            language: match language {
                Some(l) => Some(String::from_str(l)),
                None => None,
            },
            authorization: match &self.api_key {
                Some(key) => Some(String::from_str("Bearer ").concat(key.as_str())),
                None => None,
            },
            timeout_secs: 120,
        }
    }

    /// Reads a reply of the server: the transcript of its text, or the
    /// failure.
    pub fn read_reply(&self, reply: TranscriptionReply) -> (text: Result<String, SessionError>)
        ensures
            match text {
                Ok(t) => self@.reading(reply) == Ok::<Seq<char>, SessionErrorView>(t@),
                Err(e) => self@.reading(reply) == Err::<Seq<char>, SessionErrorView>(e@),
            },
    {
        let tag = String::from_str("[").concat(self.name.as_str()).concat("] ");
        match reply {
            TranscriptionReply::RequestFailed(d) => Err(
                SessionError::TranscriptionFailed(tag.concat("Request failed: ").concat(d.as_str())),
            ),
            TranscriptionReply::Rejected { status, body } => Err(
                SessionError::TranscriptionFailed(
                    tag.concat("API error (").concat(status.as_str()).concat("): ").concat(
                        body.as_str(),
                    ),
                ),
            ),
            TranscriptionReply::Unreadable(d) => Err(
                SessionError::TranscriptionFailed(
                    tag.concat("Failed to parse response: ").concat(d.as_str()),
                ),
            ),
            TranscriptionReply::Text(t) => {
                let mut segments: Vec<String> = Vec::new();
                segments.push(t);
                assert(texts_of(segments@) =~= seq![t@]);
                Ok(assemble_transcript(&segments))
            },
        }
    }
}

/// The provider that a mode selects.
#[derive(Debug)]
pub enum SttBackend {
    /// Local recognition with the named model, which has to be on disk
    /// before it is used.
    Local { model: String },
    /// Recognition by a server.
    Remote(OpenAiCompatibleSttProvider),
}

/// [`SttBackend`] with its strings as text.
pub enum SttBackendView {
    Local { model: Seq<char> },
    Remote(RemoteSttView),
}

impl View for SttBackend {
    type V = SttBackendView;

    open spec fn view(&self) -> SttBackendView {
        match self {
            SttBackend::Local { model } => SttBackendView::Local { model: model@ },
            SttBackend::Remote(provider) => SttBackendView::Remote(provider@),
        }
    }
}

/// Address of a self-hosted server: the configured one, else the one that
/// the environment names, else the local default.
pub open spec fn server_address(configured: Option<Seq<char>>, from_env: Option<Seq<char>>) -> Seq<
    char,
> {
    match (configured, from_env) {
        (Some(url), _) => url,
        (None, Some(url)) => url,
        (None, None) => "http://localhost:8000"@,
    }
}

/// The backend of a provider selector. The local model and the self-hosted
/// server ask for no key; the cloud service does not work without one; a
/// selector that is known but not supported, or not known, gives no backend.
pub open spec fn backend_for(
    provider: SttProviderView,
    model: Seq<char>,
    api_key: Option<Seq<char>>,
    server_url: Option<Seq<char>>,
    env_url: Option<Seq<char>>,
) -> Result<SttBackendView, SessionErrorView> {
    match provider {
        SttProviderView::WhisperCpp => Ok(SttBackendView::Local { model }),
        SttProviderView::WhisperServer => Ok(
            SttBackendView::Remote(
                RemoteSttView {
                    base_url: server_address(server_url, env_url),
                    api_key: None,
                    model,
                    name: "Self-hosted Whisper"@,
                },
            ),
        ),
        SttProviderView::OpenAI => match api_key {
            Some(key) => Ok(
                SttBackendView::Remote(
                    RemoteSttView {
                        base_url: "https://api.openai.com"@,
                        api_key: Some(key),
                        model,
                        name: "OpenAI Cloud"@,
                    },
                ),
            ),
            None => Err(
                error_of(
                    ErrorKind::MissingCredential,
                    "OpenAI STT requires an API key. Add it in Settings."@,
                ),
            ),
        },
        SttProviderView::Deepgram => Err(error_of(ErrorKind::UnsupportedProvider, "deepgram"@)),
        SttProviderView::Custom(name) => Err(error_of(ErrorKind::UnsupportedProvider, name)),
    }
}

/// Name under which the key of a provider is stored, for the providers that
/// need one.
pub open spec fn stt_key_name_of(provider: SttProviderView) -> Option<Seq<char>> {
    match provider {
        SttProviderView::OpenAI => Some("openai_api_key"@),
        SttProviderView::Deepgram => Some("deepgram_api_key"@),
        _ => None,
    }
}

/// Name under which the key of a provider is stored, for the providers that
/// need one.
pub fn stt_key_name(provider: &SttProvider) -> (name: Option<&'static str>)
    ensures
        option_str_text(name) == stt_key_name_of(provider@),
{
    match provider {
        SttProvider::OpenAI => Some("openai_api_key"),
        SttProvider::Deepgram => Some("deepgram_api_key"),
        _ => None,
    }
}

/// Selects the backend of a provider selector, before any device or network
/// is touched.
pub fn create_stt_provider(
    provider_type: &SttProvider,
    model: &str,
    api_key: Option<String>,
    server_url: Option<String>,
    env_url: Option<String>,
) -> (backend: Result<SttBackend, SessionError>)
    ensures
        match backend {
            Ok(b) => backend_for(
                provider_type@,
                model@,
                option_text(api_key),
                option_text(server_url),
                option_text(env_url),
            ) == Ok::<SttBackendView, SessionErrorView>(b@),
            Err(e) => backend_for(
                provider_type@,
                model@,
                option_text(api_key),
                option_text(server_url),
                option_text(env_url),
            ) == Err::<SttBackendView, SessionErrorView>(e@),
        },
{
    match provider_type {
        SttProvider::WhisperCpp => Ok(SttBackend::Local { model: String::from_str(model) }),
        SttProvider::WhisperServer => {
            let base_url = match server_url {
                Some(url) => url,
                None => match env_url {
                    Some(url) => url,
                    None => String::from_str("http://localhost:8000"),
                },
            };
            Ok(
                SttBackend::Remote(
                    OpenAiCompatibleSttProvider::self_hosted(base_url, String::from_str(model)),
                ),
            )
        },
        SttProvider::OpenAI => match api_key {
            Some(key) => Ok(
                SttBackend::Remote(
                    OpenAiCompatibleSttProvider::openai_cloud(key, String::from_str(model)),
                ),
            ),
            None => Err(
                SessionError::MissingCredential(
                    String::from_str("OpenAI STT requires an API key. Add it in Settings."),
                ),
            ),
        },
        SttProvider::Deepgram => Err(
            SessionError::UnsupportedProvider(String::from_str("deepgram")),
        ),
        SttProvider::Custom(name) => Err(SessionError::UnsupportedProvider(name.clone())),
    }
}

} // verus!
