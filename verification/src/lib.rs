//! Core of a tray dictation assistant: the recording session controller and
//! the pure text machinery around it.

pub mod artifact;
pub mod audio;
pub mod commands;
pub mod credentials;
pub mod error;
pub mod history;
pub mod modes;
pub mod paths;
pub mod providers;
pub mod registry;
pub mod settings;
pub mod state;
pub mod status;
pub mod text;
pub mod tray;
