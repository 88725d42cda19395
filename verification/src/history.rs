//! The record that a session leaves behind.

use crate::modes::{LlmProvider, LlmProviderView, Mode, ModeView, SttProvider, SttProviderView};
use crate::text::option_text;
use vstd::prelude::*;

verus! {

/// The lower-case form of a text, as `str::to_lowercase` gives it.
pub uninterp spec fn lowercase_text(text: Seq<char>) -> Seq<char>;

/// The quoted and escaped form of a text, as the `Debug` format gives it.
pub uninterp spec fn debug_text(text: Seq<char>) -> Seq<char>;

/// Calls `str::to_lowercase`, which gives the lower-case equivalent of the
/// text by the Unicode case mapping. The result is named.
#[verifier::external_body]
pub(crate) fn lowercase(text: &str) -> (lower: String)
    ensures
        lower@ == lowercase_text(text@),
{
    text.to_lowercase()
}

/// Formats a text with `{:?}`, which puts it in double quotes and escapes
/// what cannot stand between them. The result is named.
#[verifier::external_body]
fn debug_quoted(text: &str) -> (quoted: String)
    ensures
        quoted@ == debug_text(text@),
{
    format!("{:?}", text)
}

/// Name of a speech-to-text provider in a record: the name of the selector
/// in lower case, and for a provider named by the user the lower-case form of
/// `Custom("name")`.
pub open spec fn stt_label(provider: SttProviderView) -> Seq<char> {
    match provider {
        SttProviderView::WhisperCpp => "whispercpp"@,
        SttProviderView::WhisperServer => "whisperserver"@,
        SttProviderView::OpenAI => "openai"@,
        SttProviderView::Deepgram => "deepgram"@,
        SttProviderView::Custom(name) => custom_label(name),
    }
}

/// Name of a language-model provider in a record.
pub open spec fn llm_label(provider: LlmProviderView) -> Seq<char> {
    match provider {
        LlmProviderView::OpenAI => "openai"@,
        LlmProviderView::Anthropic => "anthropic"@,
        LlmProviderView::Ollama => "ollama"@,
        LlmProviderView::Custom(name) => custom_label(name),
    }
}

/// Name of a provider named by the user in a record.
pub open spec fn custom_label(name: Seq<char>) -> Seq<char> {
    lowercase_text("Custom("@ + debug_text(name) + ")"@)
}

fn custom_provider_label(name: &str) -> (label: String)
    ensures
        label@ == custom_label(name@),
{
    let quoted = debug_quoted(name);
    let written = String::from_str("Custom(").concat(quoted.as_str()).concat(")");
    lowercase(written.as_str())
}

/// Name of a speech-to-text provider in a record.
pub fn stt_provider_label(provider: &SttProvider) -> (label: String)
    ensures
        label@ == stt_label(provider@),
{
    match provider {
        SttProvider::WhisperCpp => String::from_str("whispercpp"),
        SttProvider::WhisperServer => String::from_str("whisperserver"),
        SttProvider::OpenAI => String::from_str("openai"),
        SttProvider::Deepgram => String::from_str("deepgram"),
        SttProvider::Custom(name) => custom_provider_label(name.as_str()),
    }
}

/// Name of a language-model provider in a record.
pub fn llm_provider_label(provider: &LlmProvider) -> (label: String)
    ensures
        label@ == llm_label(provider@),
{
    match provider {
        LlmProvider::OpenAI => String::from_str("openai"),
        LlmProvider::Anthropic => String::from_str("anthropic"),
        LlmProvider::Ollama => String::from_str("ollama"),
        LlmProvider::Custom(name) => custom_provider_label(name.as_str()),
    }
}

/// The record of one session.
#[derive(Debug)]
pub struct HistoryItem {
    /// Identifier of the session.
    pub id: String,
    /// When the record was made, in milliseconds since the Unix epoch.
    pub created_at: i64,
    /// Key of the mode that was used.
    pub mode_key: String,
    /// Where the audio is kept.
    pub audio_path: Option<String>,
    /// The transcript as recognised and filtered.
    pub transcript_raw: String,
    /// The final output.
    pub output_final: String,
    /// Name of the speech-to-text provider.
    pub stt_provider: String,
    /// Speech-to-text model.
    pub stt_model: String,
    /// Name of the language-model provider, if the mode post-processes.
    pub llm_provider: Option<String>,
    /// Language model, if the mode post-processes.
    pub llm_model: Option<String>,
    /// Length of the audio in milliseconds.
    pub duration_ms: u64,
    /// What went wrong, if anything.
    pub error: Option<String>,
}

/// [`HistoryItem`] with its strings as text.
pub struct HistoryItemView {
    pub id: Seq<char>,
    pub created_at: i64,
    pub mode_key: Seq<char>,
    pub audio_path: Option<Seq<char>>,
    pub transcript_raw: Seq<char>,
    pub output_final: Seq<char>,
    pub stt_provider: Seq<char>,
    pub stt_model: Seq<char>,
    pub llm_provider: Option<Seq<char>>,
    pub llm_model: Option<Seq<char>>,
    pub duration_ms: u64,
    pub error: Option<Seq<char>>,
}

impl View for HistoryItem {
    type V = HistoryItemView;

    open spec fn view(&self) -> HistoryItemView {
        HistoryItemView {
            id: self.id@,
            created_at: self.created_at,
            mode_key: self.mode_key@,
            audio_path: option_text(self.audio_path),
            transcript_raw: self.transcript_raw@,
            output_final: self.output_final@,
            stt_provider: self.stt_provider@,
            stt_model: self.stt_model@,
            llm_provider: option_text(self.llm_provider),
            llm_model: option_text(self.llm_model),
            duration_ms: self.duration_ms,
            error: option_text(self.error),
        }
    }
}

impl Clone for HistoryItem {
    fn clone(&self) -> (r: Self)
        ensures
            r@ == self@,
    {
        HistoryItem {
            id: self.id.clone(),
            created_at: self.created_at,
            mode_key: self.mode_key.clone(),
            audio_path: clone_option(&self.audio_path),
            transcript_raw: self.transcript_raw.clone(),
            output_final: self.output_final.clone(),
            stt_provider: self.stt_provider.clone(),
            stt_model: self.stt_model.clone(),
            llm_provider: clone_option(&self.llm_provider),
            llm_model: clone_option(&self.llm_model),
            duration_ms: self.duration_ms,
            error: clone_option(&self.error),
        }
    }
}

/// A copy of an optional string.
pub fn clone_option(text: &Option<String>) -> (copy: Option<String>)
    ensures
        copy == *text,
{
    match text {
        Some(t) => Some(t.clone()),
        None => None,
    }
}

/// The record of a session that used `mode`: the language model is named
/// only where the mode post-processes.
pub open spec fn record_of(
    id: Seq<char>,
    created_at: i64,
    mode: ModeView,
    audio_path: Option<Seq<char>>,
    transcript: Seq<char>,
    output: Seq<char>,
    duration_ms: u64,
) -> HistoryItemView {
    HistoryItemView {
        id,
        created_at,
        mode_key: mode.key,
        audio_path,
        transcript_raw: transcript,
        output_final: output,
        stt_provider: stt_label(mode.stt_provider),
        stt_model: mode.stt_model,
        llm_provider: if mode.ai_processing {
            Some(llm_label(mode.llm_provider))
        } else {
            None
        },
        llm_model: if mode.ai_processing {
            Some(mode.llm_model)
        } else {
            None
        },
        duration_ms,
        error: None,
    }
}

/// A record after its transcript was processed again with `mode`, whose key
/// is `mode_key`, to `output`.
pub open spec fn reprocessed(
    item: HistoryItemView,
    mode_key: Seq<char>,
    mode: ModeView,
    output: Seq<char>,
) -> HistoryItemView {
    HistoryItemView {
        mode_key,
        output_final: output,
        llm_provider: if mode.ai_processing {
            Some(llm_label(mode.llm_provider))
        } else {
            None
        },
        llm_model: if mode.ai_processing {
            Some(mode.llm_model)
        } else {
            None
        },
        ..item
    }
}

impl HistoryItem {
    /// The record of a session.
    pub fn new(
        id: String,
        created_at: i64,
        mode: &Mode,
        audio_path: Option<String>,
        transcript: String,
        output: String,
        duration_ms: u64,
    ) -> (item: Self)
        ensures
            item@ == record_of(
                id@,
                created_at,
                mode@,
                option_text(audio_path),
                transcript@,
                output@,
                duration_ms,
            ),
    {
        HistoryItem {
            id,
            created_at,
            mode_key: mode.key.clone(),
            audio_path,
            transcript_raw: transcript,
            output_final: output,
            stt_provider: stt_provider_label(&mode.stt_provider),
            stt_model: mode.stt_model.clone(),
            llm_provider: if mode.ai_processing {
                Some(llm_provider_label(&mode.llm_provider))
            } else {
                None
            },
            llm_model: if mode.ai_processing {
                Some(mode.llm_model.clone())
            } else {
                None
            },
            duration_ms,
            error: None,
        }
    }

    /// Changes the record after its transcript was processed again.
    pub fn reprocess(&mut self, mode_key: String, mode: &Mode, output: String)
        ensures
            final(self)@ == reprocessed(old(self)@, mode_key@, mode@, output@),
    {
        self.mode_key = mode_key;
        self.output_final = output;
        self.llm_provider = if mode.ai_processing {
            Some(llm_provider_label(&mode.llm_provider))
        } else {
            None
        };
        self.llm_model = if mode.ai_processing {
            Some(mode.llm_model.clone())
        } else {
            None
        };
    }
}

} // verus!
