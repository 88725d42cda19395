//! Dictation modes: how a recording is transcribed and post-processed, the
//! built-in modes, and the expansion of a mode's prompt template.

use crate::error::SessionError;
use crate::paths::{join_path, joined_path, missing_directory_error, project_config_dir};
use crate::text::{find_from, replace, replaced, trim, trimmed};
use vstd::prelude::*;

verus! {

/// Speech-to-text provider of a mode.
#[derive(Debug)]
pub enum SttProvider {
    /// Local model.
    WhisperCpp,
    /// Self-hosted server with a compatible interface.
    WhisperServer,
    /// Cloud service.
    OpenAI,
    /// Cloud service that is known but not supported.
    Deepgram,
    /// A provider named by the user.
    Custom(String),
}

/// [`SttProvider`] with its name as text.
pub enum SttProviderView {
    WhisperCpp,
    WhisperServer,
    OpenAI,
    Deepgram,
    Custom(Seq<char>),
}

impl View for SttProvider {
    type V = SttProviderView;

    open spec fn view(&self) -> SttProviderView {
        match self {
            SttProvider::WhisperCpp => SttProviderView::WhisperCpp,
            SttProvider::WhisperServer => SttProviderView::WhisperServer,
            SttProvider::OpenAI => SttProviderView::OpenAI,
            SttProvider::Deepgram => SttProviderView::Deepgram,
            SttProvider::Custom(name) => SttProviderView::Custom(name@),
        }
    }
}

impl Clone for SttProvider {
    fn clone(&self) -> (r: Self)
        ensures
            r == *self,
    {
        match self {
            SttProvider::WhisperCpp => SttProvider::WhisperCpp,
            SttProvider::WhisperServer => SttProvider::WhisperServer,
            SttProvider::OpenAI => SttProvider::OpenAI,
            SttProvider::Deepgram => SttProvider::Deepgram,
            SttProvider::Custom(name) => SttProvider::Custom(name.clone()),
        }
    }
}

impl PartialEq for SttProvider {
    fn eq(&self, other: &Self) -> (r: bool) {
        match (self, other) {
            (SttProvider::WhisperCpp, SttProvider::WhisperCpp) => true,
            (SttProvider::WhisperServer, SttProvider::WhisperServer) => true,
            (SttProvider::OpenAI, SttProvider::OpenAI) => true,
            (SttProvider::Deepgram, SttProvider::Deepgram) => true,
            (SttProvider::Custom(a), SttProvider::Custom(b)) => *a == *b,
            _ => false,
        }
    }
}

impl vstd::std_specs::cmp::PartialEqSpecImpl for SttProvider {
    open spec fn obeys_eq_spec() -> bool {
        true
    }

    open spec fn eq_spec(&self, other: &Self) -> bool {
        self@ == other@
    }
}

impl Default for SttProvider {
    fn default() -> (r: Self)
        ensures
            r == SttProvider::WhisperCpp,
    {
        SttProvider::WhisperCpp
    }
}

/// Language-model provider of a mode.
#[derive(Debug)]
pub enum LlmProvider {
    /// Cloud service.
    OpenAI,
    /// Cloud service.
    Anthropic,
    /// Local daemon.
    Ollama,
    /// A provider named by the user.
    Custom(String),
}

/// [`LlmProvider`] with its name as text.
pub enum LlmProviderView {
    OpenAI,
    Anthropic,
    Ollama,
    Custom(Seq<char>),
}

impl View for LlmProvider {
    type V = LlmProviderView;

    open spec fn view(&self) -> LlmProviderView {
        match self {
            LlmProvider::OpenAI => LlmProviderView::OpenAI,
            LlmProvider::Anthropic => LlmProviderView::Anthropic,
            LlmProvider::Ollama => LlmProviderView::Ollama,
            LlmProvider::Custom(name) => LlmProviderView::Custom(name@),
        }
    }
}

impl Clone for LlmProvider {
    fn clone(&self) -> (r: Self)
        ensures
            r == *self,
    {
        match self {
            LlmProvider::OpenAI => LlmProvider::OpenAI,
            LlmProvider::Anthropic => LlmProvider::Anthropic,
            LlmProvider::Ollama => LlmProvider::Ollama,
            LlmProvider::Custom(name) => LlmProvider::Custom(name.clone()),
        }
    }
}

impl PartialEq for LlmProvider {
    fn eq(&self, other: &Self) -> (r: bool) {
        match (self, other) {
            (LlmProvider::OpenAI, LlmProvider::OpenAI) => true,
            (LlmProvider::Anthropic, LlmProvider::Anthropic) => true,
            (LlmProvider::Ollama, LlmProvider::Ollama) => true,
            (LlmProvider::Custom(a), LlmProvider::Custom(b)) => *a == *b,
            _ => false,
        }
    }
}

impl vstd::std_specs::cmp::PartialEqSpecImpl for LlmProvider {
    open spec fn obeys_eq_spec() -> bool {
        true
    }

    open spec fn eq_spec(&self, other: &Self) -> bool {
        self@ == other@
    }
}

impl Default for LlmProvider {
    fn default() -> (r: Self)
        ensures
            r == LlmProvider::Ollama,
    {
        LlmProvider::Ollama
    }
}

/// Format tag of a mode's output.
#[derive(Debug, Clone, Copy, PartialEq, Eq, Structural)]
pub enum OutputFormat {
    Plain,
    Markdown,
}

impl Default for OutputFormat {
    fn default() -> (r: Self)
        ensures
            r == OutputFormat::Plain,
    {
        OutputFormat::Plain
    }
}

/// A dictation mode.
#[derive(Debug)]
pub struct Mode {
    /// Unique key of the mode.
    pub key: String,
    /// Display name.
    pub name: String,
    /// What the mode does.
    pub description: String,
    /// Speech-to-text provider.
    pub stt_provider: SttProvider,
    /// Speech-to-text model, such as "base.en".
    pub stt_model: String,
    /// Whether the transcript is post-processed by a language model.
    pub ai_processing: bool,
    /// Language-model provider, used if `ai_processing` is set.
    pub llm_provider: LlmProvider,
    /// Language model.
    pub llm_model: String,
    /// Prompt template with the placeholders `{{transcript}}`,
    /// `{{language}}` and `{{context}}`.
    pub prompt_template: String,
    /// Format tag of the output.
    pub output_format: OutputFormat,
    /// Whether the mode is built in.
    pub builtin: bool,
}

/// [`Mode`] with its strings as text.
pub struct ModeView {
    pub key: Seq<char>,
    pub name: Seq<char>,
    pub description: Seq<char>,
    pub stt_provider: SttProviderView,
    pub stt_model: Seq<char>,
    pub ai_processing: bool,
    pub llm_provider: LlmProviderView,
    pub llm_model: Seq<char>,
    pub prompt_template: Seq<char>,
    pub output_format: OutputFormat,
    pub builtin: bool,
}

impl View for Mode {
    type V = ModeView;

    open spec fn view(&self) -> ModeView {
        ModeView {
            key: self.key@,
            name: self.name@,
            description: self.description@,
            stt_provider: self.stt_provider@,
            stt_model: self.stt_model@,
            ai_processing: self.ai_processing,
            llm_provider: self.llm_provider@,
            llm_model: self.llm_model@,
            prompt_template: self.prompt_template@,
            output_format: self.output_format,
            builtin: self.builtin,
        }
    }
}

impl Clone for Mode {
    fn clone(&self) -> (r: Self)
        ensures
            r == *self,
    {
        Mode {
            key: self.key.clone(),
            name: self.name.clone(),
            description: self.description.clone(),
            stt_provider: self.stt_provider.clone(),
            stt_model: self.stt_model.clone(),
            ai_processing: self.ai_processing,
            llm_provider: self.llm_provider.clone(),
            llm_model: self.llm_model.clone(),
            prompt_template: self.prompt_template.clone(),
            output_format: self.output_format,
            builtin: self.builtin,
        }
    }
}

/// Prompt of the built-in mode "message".
pub const MESSAGE_TEMPLATE: &'static str =
    "You are a helpful assistant that cleans up voice transcriptions into short, casual messages suitable for chat or SMS.

Instructions:
- Fix any transcription errors or unclear words
- Remove filler words (um, uh, like, you know)
- Keep the casual, conversational tone
- Keep it concise
- Do not add any preamble or explanation, just output the cleaned message

{{#if context}}
Context (for reference only):
{{context}}
{{/if}}

Transcript to clean up:
{{transcript}}

Cleaned message:";

/// Prompt of the built-in mode "email".
pub const EMAIL_TEMPLATE: &'static str =
    "You are a helpful assistant that converts voice transcriptions into professional emails.

Instructions:
- Create a clear, professional email from the spoken content
- Include a concise subject line
- Structure the body with proper greeting, content, and sign-off
- Fix any transcription errors
- Maintain a professional but friendly tone
- Format as:
  Subject: [subject]

  [body]

{{#if context}}
Context (for reference only):
{{context}}
{{/if}}

Transcript:
{{transcript}}

Email:";

/// Prompt of the built-in mode "note".
pub const NOTE_TEMPLATE: &'static str =
    "You are a helpful assistant that converts voice transcriptions into organized notes.

Instructions:
- Extract key points from the transcription
- Organize into clear bullet points
- Group related items together
- Fix any transcription errors
- Be concise but capture all important information

{{#if context}}
Context (for reference only):
{{context}}
{{/if}}

Transcript:
{{transcript}}

Notes:";

/// Prompt of the built-in mode "meeting".
pub const MEETING_TEMPLATE: &'static str =
    "You are a helpful assistant that creates meeting summaries from transcriptions.

Instructions:
- Create a structured meeting summary
- Include:
  - Brief overview (2-3 sentences)
  - Key discussion points
  - Decisions made
  - Action items (with owners if mentioned)
- Fix any transcription errors
- Be concise but comprehensive

{{#if context}}
Context (for reference only):
{{context}}
{{/if}}

Transcript:
{{transcript}}

Meeting Summary:";

/// Prompt of the built-in mode "super".
pub const SUPER_TEMPLATE: &'static str =
    "You are a helpful assistant that intelligently processes voice transcriptions.

Instructions:
- Analyze the content and determine the best output format
- If it's a question, provide a helpful answer
- If it's a task or reminder, format it clearly
- If it's a message, clean it up appropriately
- If it's notes or ideas, organize them logically
- If it's code-related, format appropriately with any relevant syntax
- Fix any transcription errors
- Output only the processed result, no explanation

{{#if context}}
Context (for reference only):
{{context}}
{{/if}}

Transcript:
{{transcript}}

Output:";

/// A built-in mode: local recognition with the model "base.en" and, where
/// post-processing is on, the local language-model daemon.
pub open spec fn builtin_mode(
    key: Seq<char>,
    name: Seq<char>,
    description: Seq<char>,
    ai_processing: bool,
    llm_model: Seq<char>,
    prompt_template: Seq<char>,
    output_format: OutputFormat,
) -> ModeView {
    ModeView {
        key,
        name,
        description,
        stt_provider: SttProviderView::WhisperCpp,
        stt_model: "base.en"@,
        ai_processing,
        llm_provider: LlmProviderView::Ollama,
        llm_model,
        prompt_template,
        output_format,
        builtin: true,
    }
}

/// The mode that transcribes and does nothing more.
pub open spec fn default_mode() -> ModeView {
    builtin_mode(
        "voice_to_text"@,
        "Voice to Text"@,
        "Simple voice transcription without AI processing"@,
        false,
        ""@,
        ""@,
        OutputFormat::Plain,
    )
}

/// The built-in modes, in their order.
pub open spec fn builtin_modes() -> Seq<ModeView> {
    seq![
        default_mode(),
        builtin_mode(
            "message"@,
            "Message"@,
            "Short casual message, cleaned up for chat/SMS"@,
            true,
            "llama3.2"@,
            MESSAGE_TEMPLATE@,
            OutputFormat::Plain,
        ),
        builtin_mode(
            "email"@,
            "Email"@,
            "Format transcription as a professional email with subject and body"@,
            true,
            "llama3.2"@,
            EMAIL_TEMPLATE@,
            OutputFormat::Plain,
        ),
        builtin_mode(
            "note"@,
            "Note"@,
            "Convert transcription into organized bullet points"@,
            true,
            "llama3.2"@,
            NOTE_TEMPLATE@,
            OutputFormat::Markdown,
        ),
        builtin_mode(
            "meeting"@,
            "Meeting"@,
            "Create meeting summary with key points and action items"@,
            true,
            "llama3.2"@,
            MEETING_TEMPLATE@,
            OutputFormat::Markdown,
        ),
        builtin_mode(
            "super"@,
            "Super"@,
            "Adaptive mode that intelligently formats based on content"@,
            true,
            "llama3.2"@,
            SUPER_TEMPLATE@,
            OutputFormat::Plain,
        ),
    ]
}

/// The views of a sequence of modes.
pub open spec fn mode_views(modes: Seq<Mode>) -> Seq<ModeView> {
    Seq::new(modes.len(), |i: int| modes[i]@)
}

/// Name of the file that holds the mode with the key `key`.
pub open spec fn mode_file(key: Seq<char>) -> Seq<char> {
    key + ".json"@
}

/// Name of the file that holds the mode with the key `key`.
pub fn mode_file_name(key: &str) -> (name: String)
    ensures
        name@ == mode_file(key@),
{
    String::from_str(key).concat(".json")
}

/// The directory of the custom modes: `modes` in the directory of the
/// application's configuration.
pub fn get_modes_dir() -> (dir: Result<String, SessionError>)
    ensures
        match dir {
            Ok(path) => exists|config_dir: Seq<char>| path@ == joined_path(config_dir, "modes"@),
            Err(e) => e@ == missing_directory_error("config"@),
        },
{
    match project_config_dir() {
        Ok(config_dir) => {
            let path = join_path(config_dir.as_str(), "modes");
            assert(path@ == joined_path(config_dir@, "modes"@));
            Ok(path)
        },
        Err(e) => Err(e),
    }
}

/// The speech-to-text model of a mode that names none.
pub fn default_stt_model() -> (model: String)
    ensures
        model@ == "base.en"@,
{
    String::from_str("base.en")
}

fn builtin(
    key: &str,
    name: &str,
    description: &str,
    ai_processing: bool,
    llm_model: &str,
    prompt_template: &str,
    output_format: OutputFormat,
) -> (mode: Mode)
    ensures
        mode@ == builtin_mode(
            key@,
            name@,
            description@,
            ai_processing,
            llm_model@,
            prompt_template@,
            output_format,
        ),
{
    Mode {
        key: String::from_str(key),
        name: String::from_str(name),
        description: String::from_str(description),
        stt_provider: SttProvider::WhisperCpp,
        stt_model: default_stt_model(),
        ai_processing,
        llm_provider: LlmProvider::Ollama,
        llm_model: String::from_str(llm_model),
        prompt_template: String::from_str(prompt_template),
        output_format,
        builtin: true,
    }
}

impl Default for Mode {
    fn default() -> (mode: Self)
        ensures
            mode@ == default_mode(),
    {
        builtin(
            "voice_to_text",
            "Voice to Text",
            "Simple voice transcription without AI processing",
            false,
            "",
            "",
            OutputFormat::Plain,
        )
    }
}

/// The built-in modes.
pub fn create_builtin_modes() -> (modes: Vec<Mode>)
    ensures
        mode_views(modes@) == builtin_modes(),
{
    let mut modes: Vec<Mode> = Vec::new();
    modes.push(Mode::default());
    modes.push(
        builtin(
            "message",
            "Message",
            "Short casual message, cleaned up for chat/SMS",
            true,
            "llama3.2",
            MESSAGE_TEMPLATE,
            OutputFormat::Plain,
        ),
    );
    modes.push(
        builtin(
            "email",
            "Email",
            "Format transcription as a professional email with subject and body",
            true,
            "llama3.2",
            EMAIL_TEMPLATE,
            OutputFormat::Plain,
        ),
    );
    modes.push(
        builtin(
            "note",
            "Note",
            "Convert transcription into organized bullet points",
            true,
            "llama3.2",
            NOTE_TEMPLATE,
            OutputFormat::Markdown,
        ),
    );
    modes.push(
        builtin(
            "meeting",
            "Meeting",
            "Create meeting summary with key points and action items",
            true,
            "llama3.2",
            MEETING_TEMPLATE,
            OutputFormat::Markdown,
        ),
    );
    modes.push(
        builtin(
            "super",
            "Super",
            "Adaptive mode that intelligently formats based on content",
            true,
            "llama3.2",
            SUPER_TEMPLATE,
            OutputFormat::Plain,
        ),
    );
    assert(mode_views(modes@) =~= builtin_modes());
    modes
}

/// `s` without its blocks. A block starts at the first `open` marker and ends
/// with the first `close` marker behind it; the search goes on behind the
/// block. An `open` marker that no `close` marker follows starts no block.
/// The tests on lengths only make the recursion well founded: `find_from`
/// gives no index for which they fail.
pub open spec fn without_blocks(s: Seq<char>, open: Seq<char>, close: Seq<char>) -> Seq<char>
    decreases s.len(),
{
    let i = find_from(s, open, 0);
    let j = find_from(s, close, i + open.len());
    if close.len() == 0 || i < 0 || j < 0 || j + close.len() > s.len() {
        s
    } else {
        s.subrange(0, i) + without_blocks(s.subrange(j + close.len(), s.len() as int), open, close)
    }
}

/// The text of an optional string slice.
pub open spec fn option_str_text(o: Option<&str>) -> Option<Seq<char>> {
    match o {
        Some(s) => Some(s@),
        None => None,
    }
}

/// The prompt that a template expands to. The transcript and the language
/// are filled in first. With a context, the markers of the conditional block
/// are removed and the context is filled in; without one, every conditional
/// block is removed with what it holds. The result is trimmed.
pub open spec fn rendered(
    template: Seq<char>,
    transcript: Seq<char>,
    context: Option<Seq<char>>,
    language: Seq<char>,
) -> Seq<char> {
    let filled = replaced(
        replaced(template, "{{transcript}}"@, transcript),
        "{{language}}"@,
        language,
    );
    trimmed(
        match context {
            Some(ctx) => replaced(
                replaced(replaced(filled, "{{#if context}}"@, ""@), "{{/if}}"@, ""@),
                "{{context}}"@,
                ctx,
            ),
            None => without_blocks(filled, "{{#if context}}"@, "{{/if}}"@),
        },
    )
}

/// Calls `regex::Regex::replace_all` with an empty replacement, on the
/// pattern `\{\{#if context\}\}[\s\S]*?\{\{/if\}\}`: the literal opening
/// marker, as few characters of any kind as possible, line breaks included,
/// and the literal closing marker. The pattern is a constant that the syntax
/// of `regex` accepts, so `Regex::new` gives a regex. `replace_all` replaces
/// the matches that a search from left to right finds, each search starting
/// where the last match ended, and keeps the text between them: that is
/// `without_blocks` for the two markers.
#[verifier::external_body]
fn strip_context_blocks(text: &str) -> (out: String)
    ensures
        out@ == without_blocks(text@, "{{#if context}}"@, "{{/if}}"@),
{
    match regex::Regex::new(r"\{\{#if context\}\}[\s\S]*?\{\{/if\}\}") {
        Ok(re) => re.replace_all(text, "").into_owned(),
        Err(_) => text.to_string(),
    }
}

/// Expands a prompt template with the transcript, the language and, if there
/// is one, the context.
pub fn render_prompt(template: &str, transcript: &str, context: Option<&str>, language: &str) -> (prompt:
    String)
    ensures
        prompt@ == rendered(template@, transcript@, option_str_text(context), language@),
{
    let with_transcript = replace(template, "{{transcript}}", transcript);
    let filled = replace(with_transcript.as_str(), "{{language}}", language);
    let expanded = match context {
        Some(ctx) => {
            let opened = replace(filled.as_str(), "{{#if context}}", "");
            let closed = replace(opened.as_str(), "{{/if}}", "");
            replace(closed.as_str(), "{{context}}", ctx)
        },
        None => strip_context_blocks(filled.as_str()),
    };
    trim(expanded.as_str())
}

} // verus!
