//! Speech-to-text and language-model providers.

pub mod llm;
pub mod stt;
