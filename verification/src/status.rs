//! Recording status shown to every observer of the session.

use vstd::prelude::*;

verus! {

/// Status of the recording session. Exactly one value is current at a time.
#[derive(Debug, Clone, Copy, PartialEq, Eq, Structural)]
pub enum RecordingStatus {
    /// Configuration is still loading.
    Loading,
    /// Capture is active.
    Recording,
    /// Transcription or post-processing is in flight.
    Processing,
    /// Idle, accepts a start.
    Ready,
    /// The last session failed.
    Error,
}

impl RecordingStatus {
    /// Name of the tray icon for a status, as a sequence of characters.
    pub open spec fn icon_name_of(self) -> Seq<char> {
        match self {
            RecordingStatus::Loading => "tray-yellow"@,
            RecordingStatus::Recording => "tray-red"@,
            RecordingStatus::Processing => "tray-blue"@,
            RecordingStatus::Ready => "tray-green"@,
            RecordingStatus::Error => "tray-red"@,
        }
    }

    /// The tooltip of the tray icon for a status, as a sequence of characters.
    pub open spec fn tooltip_of(self) -> Seq<char> {
        match self {
            RecordingStatus::Loading => "WhisperTray - Loading model..."@,
            RecordingStatus::Recording => "WhisperTray - Recording..."@,
            RecordingStatus::Processing => "WhisperTray - Processing..."@,
            RecordingStatus::Ready => "WhisperTray - Ready (click to record)"@,
            RecordingStatus::Error => "WhisperTray - Error"@,
        }
    }

    /// The tooltip of the tray icon for this status.
    pub fn tooltip(&self) -> (text: &'static str)
        ensures
            text@ == self.tooltip_of(),
    {
        match self {
            RecordingStatus::Loading => "WhisperTray - Loading model...",
            RecordingStatus::Recording => "WhisperTray - Recording...",
            RecordingStatus::Processing => "WhisperTray - Processing...",
            RecordingStatus::Ready => "WhisperTray - Ready (click to record)",
            RecordingStatus::Error => "WhisperTray - Error",
        }
    }

    /// The tray icon that stands for this status.
    pub fn icon_name(&self) -> (name: &'static str)
        ensures
            name@ == self.icon_name_of(),
    {
        match self {
            RecordingStatus::Loading => "tray-yellow",
            RecordingStatus::Recording => "tray-red",
            RecordingStatus::Processing => "tray-blue",
            RecordingStatus::Ready => "tray-green",
            RecordingStatus::Error => "tray-red",
        }
    }
}

} // verus!
