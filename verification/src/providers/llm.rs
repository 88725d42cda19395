//! Language-model providers: which one a mode selects.

use crate::error::{error_of, ErrorKind, SessionError, SessionErrorView};
use crate::modes::{option_str_text, LlmProvider, LlmProviderView};
use vstd::prelude::*;

verus! {

/// The provider that a mode selects for post-processing.
#[derive(Debug)]
pub enum LlmBackend {
    /// The local daemon, which asks for no key.
    Ollama { model: String },
    /// Cloud service.
    OpenAI { api_key: String, model: String },
    /// Cloud service.
    Anthropic { api_key: String, model: String },
}

/// [`LlmBackend`] with its strings as text.
pub enum LlmBackendView {
    Ollama { model: Seq<char> },
    OpenAI { api_key: Seq<char>, model: Seq<char> },
    Anthropic { api_key: Seq<char>, model: Seq<char> },
}

impl View for LlmBackend {
    type V = LlmBackendView;

    open spec fn view(&self) -> LlmBackendView {
        match self {
            LlmBackend::Ollama { model } => LlmBackendView::Ollama { model: model@ },
            LlmBackend::OpenAI { api_key, model } => LlmBackendView::OpenAI {
                api_key: api_key@,
                model: model@,
            },
            LlmBackend::Anthropic { api_key, model } => LlmBackendView::Anthropic {
                api_key: api_key@,
                model: model@,
            },
        }
    }
}

/// Name under which the key of a provider is stored, for the providers that
/// need one.
pub open spec fn llm_key_name_of(provider: LlmProviderView) -> Option<Seq<char>> {
    match provider {
        LlmProviderView::OpenAI => Some("openai_api_key"@),
        LlmProviderView::Anthropic => Some("anthropic_api_key"@),
        _ => None,
    }
}

/// The backend of a provider selector. The local daemon asks for no key; a
/// cloud service does not work without one; a provider named by the user is
/// not known.
pub open spec fn llm_backend_for(
    provider: LlmProviderView,
    model: Seq<char>,
    api_key: Option<Seq<char>>,
) -> Result<LlmBackendView, SessionErrorView> {
    match provider {
        LlmProviderView::Ollama => Ok(LlmBackendView::Ollama { model }),
        LlmProviderView::OpenAI => match api_key {
            Some(key) => Ok(LlmBackendView::OpenAI { api_key: key, model }),
            None => Err(
                error_of(
                    ErrorKind::MissingCredential,
                    "OpenAI requires an API key. Add it in Settings."@,
                ),
            ),
        },
        LlmProviderView::Anthropic => match api_key {
            Some(key) => Ok(LlmBackendView::Anthropic { api_key: key, model }),
            None => Err(
                error_of(
                    ErrorKind::MissingCredential,
                    "Anthropic requires an API key. Add it in Settings."@,
                ),
            ),
        },
        LlmProviderView::Custom(name) => Err(error_of(ErrorKind::UnsupportedProvider, name)),
    }
}

/// Name under which the key of a provider is stored, for the providers that
/// need one.
pub fn llm_key_name(provider: &LlmProvider) -> (name: Option<&'static str>)
    ensures
        option_str_text(name) == llm_key_name_of(provider@),
{
    match provider {
        LlmProvider::OpenAI => Some("openai_api_key"),
        LlmProvider::Anthropic => Some("anthropic_api_key"),
        _ => None,
    }
}

/// Selects the backend of a provider selector, before any network is touched.
pub fn create_llm_provider(provider_type: &LlmProvider, model: &str, api_key: Option<&str>) -> (backend:
    Result<LlmBackend, SessionError>)
    ensures
        match backend {
            Ok(b) => llm_backend_for(provider_type@, model@, option_str_text(api_key)) == Ok::<
                LlmBackendView,
                SessionErrorView,
            >(b@),
            Err(e) => llm_backend_for(provider_type@, model@, option_str_text(api_key)) == Err::<
                LlmBackendView,
                SessionErrorView,
            >(e@),
        },
{
    match provider_type {
        LlmProvider::Ollama => Ok(LlmBackend::Ollama { model: String::from_str(model) }),
        LlmProvider::OpenAI => match api_key {
            Some(key) => Ok(
                LlmBackend::OpenAI {
                    api_key: String::from_str(key),
                    model: String::from_str(model),
                },
            ),
            None => Err(
                SessionError::MissingCredential(
                    String::from_str("OpenAI requires an API key. Add it in Settings."),
                ),
            ),
        },
        LlmProvider::Anthropic => match api_key {
            Some(key) => Ok(
                LlmBackend::Anthropic {
                    api_key: String::from_str(key),
                    model: String::from_str(model),
                },
            ),
            None => Err(
                SessionError::MissingCredential(
                    String::from_str("Anthropic requires an API key. Add it in Settings."),
                ),
            ),
        },
        LlmProvider::Custom(name) => Err(SessionError::UnsupportedProvider(name.clone())),
    }
}

} // verus!
