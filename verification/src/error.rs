//! The errors of a recording session.

use vstd::prelude::*;

verus! {

/// What can go wrong in a recording session.
#[derive(Debug)]
pub enum SessionError {
    /// A start was asked for while a session was active.
    RecordingInProgress,
    /// A stop was asked for while nothing was recording.
    NoRecordingInProgress,
    /// Capture was asked to end while none was active.
    NotCapturing,
    /// The input device could not be opened or read.
    DeviceError(String),
    /// The requested mode is not in the registry.
    ModeNotFound(String),
    /// A local model could not be found or fetched.
    ModelUnavailable(String),
    /// The provider needs a credential that is not stored.
    MissingCredential(String),
    /// The provider is not known or not supported.
    UnsupportedProvider(String),
    /// Speech recognition failed.
    TranscriptionFailed(String),
    /// The language model call failed.
    CompletionFailed(String),
    /// The history record could not be stored.
    PersistenceFailed(String),
    /// The text could not be delivered.
    DeliveryFailed(String),
    /// The credential store could not be used.
    Keyring(String),
    /// The configuration could not be found or read.
    Config(String),
    /// A file could not be read or written.
    Io(String),
}

/// The kind of a [`SessionError`], without its detail.
#[derive(Debug, Clone, Copy, PartialEq, Eq, Structural)]
pub enum ErrorKind {
    RecordingInProgress,
    NoRecordingInProgress,
    NotCapturing,
    DeviceError,
    ModeNotFound,
    ModelUnavailable,
    MissingCredential,
    UnsupportedProvider,
    TranscriptionFailed,
    CompletionFailed,
    PersistenceFailed,
    DeliveryFailed,
    Keyring,
    Config,
    Io,
}

/// [`SessionError`] with its detail as text.
pub struct SessionErrorView {
    pub kind: ErrorKind,
    pub detail: Seq<char>,
}

impl View for SessionError {
    type V = SessionErrorView;

    open spec fn view(&self) -> SessionErrorView {
        SessionErrorView { kind: self.kind_of(), detail: self.detail() }
    }
}

/// The view of an error of the kind `kind` with the detail `detail`.
pub open spec fn error_of(kind: ErrorKind, detail: Seq<char>) -> SessionErrorView {
    SessionErrorView { kind, detail }
}

impl SessionError {
    /// The kind of the error.
    pub open spec fn kind_of(self) -> ErrorKind {
        match self {
            SessionError::RecordingInProgress => ErrorKind::RecordingInProgress,
            SessionError::NoRecordingInProgress => ErrorKind::NoRecordingInProgress,
            SessionError::NotCapturing => ErrorKind::NotCapturing,
            SessionError::DeviceError(_) => ErrorKind::DeviceError,
            SessionError::ModeNotFound(_) => ErrorKind::ModeNotFound,
            SessionError::ModelUnavailable(_) => ErrorKind::ModelUnavailable,
            SessionError::MissingCredential(_) => ErrorKind::MissingCredential,
            SessionError::UnsupportedProvider(_) => ErrorKind::UnsupportedProvider,
            SessionError::TranscriptionFailed(_) => ErrorKind::TranscriptionFailed,
            SessionError::CompletionFailed(_) => ErrorKind::CompletionFailed,
            SessionError::PersistenceFailed(_) => ErrorKind::PersistenceFailed,
            SessionError::DeliveryFailed(_) => ErrorKind::DeliveryFailed,
            SessionError::Keyring(_) => ErrorKind::Keyring,
            SessionError::Config(_) => ErrorKind::Config,
            SessionError::Io(_) => ErrorKind::Io,
        }
    }

    /// The fixed part of an error's message.
    pub open spec fn headline(self) -> Seq<char> {
        match self {
            SessionError::RecordingInProgress => "Recording already in progress"@,
            SessionError::NoRecordingInProgress => "No recording in progress"@,
            SessionError::NotCapturing => "No capture is active"@,
            SessionError::DeviceError(_) => "Audio device error: "@,
            SessionError::ModeNotFound(_) => "Mode not found: "@,
            SessionError::ModelUnavailable(_) => "Model unavailable: "@,
            SessionError::MissingCredential(_) => "Missing credential: "@,
            SessionError::UnsupportedProvider(_) => "Unsupported provider: "@,
            SessionError::TranscriptionFailed(_) => "Transcription error: "@,
            SessionError::CompletionFailed(_) => "Completion error: "@,
            SessionError::PersistenceFailed(_) => "Persistence error: "@,
            SessionError::DeliveryFailed(_) => "Delivery error: "@,
            SessionError::Keyring(_) => "Keyring error: "@,
            SessionError::Config(_) => "Configuration error: "@,
            SessionError::Io(_) => "IO error: "@,
        }
    }

    /// The variable part of an error's message; empty where there is none.
    pub open spec fn detail(self) -> Seq<char> {
        match self {
            SessionError::RecordingInProgress => Seq::empty(),
            SessionError::NoRecordingInProgress => Seq::empty(),
            SessionError::NotCapturing => Seq::empty(),
            SessionError::DeviceError(d) => d@,
            SessionError::ModeNotFound(d) => d@,
            SessionError::ModelUnavailable(d) => d@,
            SessionError::MissingCredential(d) => d@,
            SessionError::UnsupportedProvider(d) => d@,
            SessionError::TranscriptionFailed(d) => d@,
            SessionError::CompletionFailed(d) => d@,
            SessionError::PersistenceFailed(d) => d@,
            SessionError::DeliveryFailed(d) => d@,
            SessionError::Keyring(d) => d@,
            SessionError::Config(d) => d@,
            SessionError::Io(d) => d@,
        }
    }

    /// The kind of the error.
    pub fn kind(&self) -> (kind: ErrorKind)
        ensures
            kind == self.kind_of(),
    {
        match self {
            SessionError::RecordingInProgress => ErrorKind::RecordingInProgress,
            SessionError::NoRecordingInProgress => ErrorKind::NoRecordingInProgress,
            SessionError::NotCapturing => ErrorKind::NotCapturing,
            SessionError::DeviceError(_) => ErrorKind::DeviceError,
            SessionError::ModeNotFound(_) => ErrorKind::ModeNotFound,
            SessionError::ModelUnavailable(_) => ErrorKind::ModelUnavailable,
            SessionError::MissingCredential(_) => ErrorKind::MissingCredential,
            SessionError::UnsupportedProvider(_) => ErrorKind::UnsupportedProvider,
            SessionError::TranscriptionFailed(_) => ErrorKind::TranscriptionFailed,
            SessionError::CompletionFailed(_) => ErrorKind::CompletionFailed,
            SessionError::PersistenceFailed(_) => ErrorKind::PersistenceFailed,
            SessionError::DeliveryFailed(_) => ErrorKind::DeliveryFailed,
            SessionError::Keyring(_) => ErrorKind::Keyring,
            SessionError::Config(_) => ErrorKind::Config,
            SessionError::Io(_) => ErrorKind::Io,
        }
    }

    /// The message of the error: its headline followed by its detail.
    pub fn message(&self) -> (text: String)
        ensures
            text@ == self.headline() + self.detail(),
    {
        match self {
            SessionError::RecordingInProgress => String::from_str("Recording already in progress"),
            SessionError::NoRecordingInProgress => String::from_str("No recording in progress"),
            SessionError::NotCapturing => String::from_str("No capture is active"),
            SessionError::DeviceError(d) => String::from_str("Audio device error: ").concat(
                d.as_str(),
            ),
            SessionError::ModeNotFound(d) => String::from_str("Mode not found: ").concat(
                d.as_str(),
            ),
            SessionError::ModelUnavailable(d) => String::from_str("Model unavailable: ").concat(
                d.as_str(),
            ),
            SessionError::MissingCredential(d) => String::from_str("Missing credential: ").concat(
                d.as_str(),
            ),
            SessionError::UnsupportedProvider(d) => String::from_str(
                "Unsupported provider: ",
            ).concat(d.as_str()),
            SessionError::TranscriptionFailed(d) => String::from_str(
                "Transcription error: ",
            ).concat(d.as_str()),
            SessionError::CompletionFailed(d) => String::from_str("Completion error: ").concat(
                d.as_str(),
            ),
            SessionError::PersistenceFailed(d) => String::from_str("Persistence error: ").concat(
                d.as_str(),
            ),
            SessionError::DeliveryFailed(d) => String::from_str("Delivery error: ").concat(
                d.as_str(),
            ),
            SessionError::Keyring(d) => String::from_str("Keyring error: ").concat(d.as_str()),
            SessionError::Config(d) => String::from_str("Configuration error: ").concat(
                d.as_str(),
            ),
            SessionError::Io(d) => String::from_str("IO error: ").concat(d.as_str()),
        }
    }
}

impl Clone for SessionError {
    fn clone(&self) -> (r: Self)
        ensures
            r == *self,
    {
        match self {
            SessionError::RecordingInProgress => SessionError::RecordingInProgress,
            SessionError::NoRecordingInProgress => SessionError::NoRecordingInProgress,
            SessionError::NotCapturing => SessionError::NotCapturing,
            SessionError::DeviceError(d) => SessionError::DeviceError(d.clone()),
            SessionError::ModeNotFound(d) => SessionError::ModeNotFound(d.clone()),
            SessionError::ModelUnavailable(d) => SessionError::ModelUnavailable(d.clone()),
            SessionError::MissingCredential(d) => SessionError::MissingCredential(d.clone()),
            SessionError::UnsupportedProvider(d) => SessionError::UnsupportedProvider(d.clone()),
            SessionError::TranscriptionFailed(d) => SessionError::TranscriptionFailed(d.clone()),
            SessionError::CompletionFailed(d) => SessionError::CompletionFailed(d.clone()),
            SessionError::PersistenceFailed(d) => SessionError::PersistenceFailed(d.clone()),
            SessionError::DeliveryFailed(d) => SessionError::DeliveryFailed(d.clone()),
            SessionError::Keyring(d) => SessionError::Keyring(d.clone()),
            SessionError::Config(d) => SessionError::Config(d.clone()),
            SessionError::Io(d) => SessionError::Io(d.clone()),
        }
    }
}

} // verus!
