//! What the commands of the application decide: the answers that are made of
//! the state and of history records.

use crate::error::{error_of, ErrorKind, SessionError, SessionErrorView};
use crate::history::{HistoryItem, HistoryItemView};
use crate::modes::{option_str_text, render_prompt, rendered, Mode, ModeView};
use crate::providers::llm::{create_llm_provider, llm_backend_for, LlmBackend, LlmBackendView};
use crate::state::AppState;
use crate::status::RecordingStatus;
use crate::text::{decimal_padded, option_text, zero_padded};
use vstd::prelude::*;

verus! {

/// The status of the recording, as a command reports it.
#[derive(Debug)]
pub struct RecordingStatusResponse {
    pub status: RecordingStatus,
    pub is_recording: bool,
}

/// The status of the recording.
pub fn get_recording_status(state: &AppState) -> (response: RecordingStatusResponse)
    ensures
        response.status == state@.status,
        response.is_recording == (state@.status == RecordingStatus::Recording),
{
    RecordingStatusResponse { status: state.status(), is_recording: state.is_recording() }
}

/// Which records of the history are asked for.
#[derive(Debug)]
pub struct HistoryQuery {
    /// How many records at most; 50 where nothing is said.
    pub limit: Option<usize>,
    /// How many records to skip; none where nothing is said.
    pub offset: Option<usize>,
    /// The text that the records have to hold.
    pub search: Option<String>,
}

/// What is asked of the store of records.
#[derive(Debug)]
pub enum HistoryRequest {
    /// The newest records that hold `text`, at most `limit` of them.
    Search { text: String, limit: usize },
    /// The newest records after the first `offset`, at most `limit` of them.
    List { limit: usize, offset: usize },
}

/// [`HistoryRequest`] with its strings as text.
pub enum HistoryRequestView {
    Search { text: Seq<char>, limit: usize },
    List { limit: usize, offset: usize },
}

impl View for HistoryRequest {
    type V = HistoryRequestView;

    open spec fn view(&self) -> HistoryRequestView {
        match self {
            HistoryRequest::Search { text, limit } => HistoryRequestView::Search {
                text: text@,
                limit: *limit,
            },
            HistoryRequest::List { limit, offset } => HistoryRequestView::List {
                limit: *limit,
                offset: *offset,
            },
        }
    }
}

/// `n`, or `default` where nothing is said.
pub open spec fn or_default(n: Option<usize>, default: usize) -> usize {
    match n {
        Some(n) => n,
        None => default,
    }
}

/// What a query asks of the store: a search where it names a text, a list
/// else. No query asks for the 50 newest records.
pub open spec fn history_request(query: Option<HistoryQuery>) -> HistoryRequestView {
    match query {
        Some(q) => match q.search {
            Some(text) => HistoryRequestView::Search { text: text@, limit: or_default(q.limit, 50) },
            None => HistoryRequestView::List {
                limit: or_default(q.limit, 50),
                offset: or_default(q.offset, 0),
            },
        },
        None => HistoryRequestView::List { limit: 50, offset: 0 },
    }
}

/// What a query asks of the store of records.
pub fn get_history(query: Option<HistoryQuery>) -> (request: HistoryRequest)
    ensures
        request@ == history_request(query),
{
    match query {
        Some(q) => {
            let limit = match q.limit {
                Some(n) => n,
                None => 50,
            };
            match q.search {
                Some(text) => HistoryRequest::Search { text, limit },
                None => HistoryRequest::List {
                    limit,
                    offset: match q.offset {
                        Some(n) => n,
                        None => 0,
                    },
                },
            }
        },
        None => HistoryRequest::List { limit: 50, offset: 0 },
    }
}

/// The formats in which a record is exported.
#[derive(Debug, Clone, Copy, PartialEq, Eq, Structural)]
pub enum ExportFormat {
    /// The output as it is.
    Txt,
    /// The output under a heading with the date and the mode.
    Md,
    /// One subtitle that lasts as long as the audio.
    Srt,
    /// One cue that lasts as long as the audio.
    Vtt,
}

/// The date and time of a moment in UTC, written as `2001-09-09 01:46:40`, or
/// nothing for a moment too far from the epoch. The moment is given in
/// milliseconds since the Unix epoch.
pub uninterp spec fn utc_date_text(millis: i64) -> Option<Seq<char>>;

/// Calls `chrono::DateTime::from_timestamp_millis`, which gives the moment in
/// UTC or nothing where the number is out of range, and formats the moment
/// with `chrono::DateTime::format` and the pattern `%Y-%m-%d %H:%M:%S`. The
/// result is named.
#[verifier::external_body]
fn format_utc(millis: i64) -> (text: Option<String>)
    ensures
        option_text(text) == utc_date_text(millis),
{
    match chrono::DateTime::from_timestamp_millis(millis) {
        Some(moment) => Some(moment.format("%Y-%m-%d %H:%M:%S").to_string()),
        None => None,
    }
}

/// End of the one subtitle of a record: the whole seconds of the duration in
/// at least two digits, `mark`, and the milliseconds left in three.
pub open spec fn end_time(duration_ms: u64, mark: Seq<char>) -> Seq<char> {
    zero_padded((duration_ms / 1000) as nat, 2) + mark + zero_padded((duration_ms % 1000) as nat, 3)
}

/// A record in an export format; `date` is the text of its date.
pub open spec fn exported(item: HistoryItemView, format: ExportFormat, date: Seq<char>) -> Seq<
    char,
> {
    match format {
        ExportFormat::Txt => item.output_final,
        ExportFormat::Md => "# Transcription\n\n**Date:** "@ + date + "\n**Mode:** "@
            + item.mode_key + "\n\n## Output\n\n"@ + item.output_final,
        ExportFormat::Srt => "1\n00:00:00,000 --> 00:00:"@ + end_time(item.duration_ms, ","@)
            + "\n"@ + item.output_final + "\n"@,
        ExportFormat::Vtt => "WEBVTT\n\n00:00:00.000 --> 00:00:"@ + end_time(
            item.duration_ms,
            "."@,
        ) + "\n"@ + item.output_final + "\n"@,
    }
}

/// The error of a record whose date cannot be written.
pub open spec fn undated() -> SessionErrorView {
    error_of(ErrorKind::PersistenceFailed, "History item has no valid date"@)
}

fn end_of(duration_ms: u64, mark: &str) -> (text: String)
    ensures
        text@ == end_time(duration_ms, mark@),
{
    decimal_padded(duration_ms / 1000, 2).concat(mark).concat(
        decimal_padded(duration_ms % 1000, 3).as_str(),
    )
}

/// A record in an export format; `date` is the text of its date.
pub fn export_content(item: &HistoryItem, format: ExportFormat, date: &str) -> (content: String)
    ensures
        content@ == exported(item@, format, date@),
{
    match format {
        ExportFormat::Txt => item.output_final.clone(),
        ExportFormat::Md => String::from_str("# Transcription\n\n**Date:** ").concat(date).concat(
            "\n**Mode:** ",
        ).concat(item.mode_key.as_str()).concat("\n\n## Output\n\n").concat(
            item.output_final.as_str(),
        ),
        ExportFormat::Srt => String::from_str("1\n00:00:00,000 --> 00:00:").concat(
            end_of(item.duration_ms, ",").as_str(),
        ).concat("\n").concat(item.output_final.as_str()).concat("\n"),
        ExportFormat::Vtt => String::from_str("WEBVTT\n\n00:00:00.000 --> 00:00:").concat(
            end_of(item.duration_ms, ".").as_str(),
        ).concat("\n").concat(item.output_final.as_str()).concat("\n"),
    }
}

/// A record in an export format. The only format that needs the date is
/// `Md`; there the export fails for a record whose date cannot be written.
pub fn export_history_item(item: &HistoryItem, format: ExportFormat) -> (content: Result<
    String,
    SessionError,
>)
    ensures
        match content {
            Ok(c) => if format == ExportFormat::Md {
                utc_date_text(item@.created_at) matches Some(date) && c@ == exported(
                    item@,
                    format,
                    date,
                )
            } else {
                c@ == exported(item@, format, Seq::empty())
            },
            Err(e) => format == ExportFormat::Md && utc_date_text(item@.created_at) is None && e@
                == undated(),
        },
{
    match format {
        ExportFormat::Md => match format_utc(item.created_at) {
            Some(date) => Ok(export_content(item, format, date.as_str())),
            None => Err(
                SessionError::PersistenceFailed(String::from_str("History item has no valid date")),
            ),
        },
        _ => {
            let content = export_content(item, format, "");
            assert(exported(item@, format, ""@) == exported(item@, format, Seq::empty()));
            Ok(content)
        },
    }
}

/// How the transcript of a record is processed again.
#[derive(Debug)]
pub enum Reprocessing {
    /// The language model is to answer the prompt; its answer is the output.
    Complete { backend: LlmBackend, prompt: String },
    /// The transcript is the output.
    Keep { output: String },
}

/// [`Reprocessing`] with its strings as text.
pub enum ReprocessingView {
    Complete { backend: LlmBackendView, prompt: Seq<char> },
    Keep { output: Seq<char> },
}

impl View for Reprocessing {
    type V = ReprocessingView;

    open spec fn view(&self) -> ReprocessingView {
        match self {
            Reprocessing::Complete { backend, prompt } => ReprocessingView::Complete {
                backend: backend@,
                prompt: prompt@,
            },
            Reprocessing::Keep { output } => ReprocessingView::Keep { output: output@ },
        }
    }
}

/// How a transcript is processed again with `mode`: a mode that
/// post-processes and has a prompt sends the prompt, made without a context,
/// to its language model, and fails where the model cannot be selected; any
/// other mode keeps the transcript.
pub open spec fn reprocessing(
    transcript: Seq<char>,
    mode: ModeView,
    language: Seq<char>,
    api_key: Option<Seq<char>>,
) -> Result<ReprocessingView, SessionErrorView> {
    if mode.ai_processing && mode.prompt_template.len() > 0 {
        match llm_backend_for(mode.llm_provider, mode.llm_model, api_key) {
            Ok(backend) => Ok(
                ReprocessingView::Complete {
                    backend,
                    prompt: rendered(mode.prompt_template, transcript, None, language),
                },
            ),
            Err(error) => Err(error),
        }
    } else {
        Ok(ReprocessingView::Keep { output: transcript })
    }
}

/// Says how the transcript of a record is processed again with `mode`.
pub fn reprocess_history_item(
    item: &HistoryItem,
    mode: &Mode,
    language: &str,
    api_key: Option<&str>,
) -> (plan: Result<Reprocessing, SessionError>)
    ensures
        match plan {
            Ok(p) => reprocessing(
                item@.transcript_raw,
                mode@,
                language@,
                option_str_text(api_key),
            ) == Ok::<ReprocessingView, SessionErrorView>(p@),
            Err(e) => reprocessing(
                item@.transcript_raw,
                mode@,
                language@,
                option_str_text(api_key),
            ) == Err::<ReprocessingView, SessionErrorView>(e@),
        },
{
    if mode.ai_processing && mode.prompt_template.as_str().unicode_len() > 0 {
        match create_llm_provider(&mode.llm_provider, mode.llm_model.as_str(), api_key) {
            Ok(backend) => Ok(
                Reprocessing::Complete {
                    backend,
                    prompt: render_prompt(
                        mode.prompt_template.as_str(),
                        item.transcript_raw.as_str(),
                        None,
                        language,
                    ),
                },
            ),
            Err(error) => Err(error),
        }
    } else {
        Ok(Reprocessing::Keep { output: item.transcript_raw.clone() })
    }
}

} // verus!
