//! Where the application keeps its files. Paths are texts whose parts are
//! joined with `/`.

use crate::error::{error_of, ErrorKind, SessionError, SessionErrorView};
use vstd::prelude::*;

verus! {

/// `directories::ProjectDirs`, the directories of a project as the system
/// lays them out. Nothing is known of what a value holds.
#[verifier::external_type_specification]
#[verifier::external_body]
pub struct ExProjectDirs(directories::ProjectDirs);

/// Calls `directories::ProjectDirs::from`, which gives the directories of a
/// project, or nothing where the system knows no home directory. What comes
/// back depends on the environment, so nothing is stated of it.
#[verifier::external_body]
fn project_dirs(qualifier: &str, organization: &str, application: &str) -> (dirs: Option<
    directories::ProjectDirs,
>) {
    directories::ProjectDirs::from(qualifier, organization, application)
}

/// Calls `directories::ProjectDirs::data_dir` and gives the path as text, or
/// nothing where the path is no text.
#[verifier::external_body]
fn data_dir_text(dirs: &directories::ProjectDirs) -> (dir: Option<String>) {
    match dirs.data_dir().to_str() {
        Some(text) => Some(text.to_owned()),
        None => None,
    }
}

/// Calls `directories::ProjectDirs::config_dir` and gives the path as text,
/// or nothing where the path is no text.
#[verifier::external_body]
fn config_dir_text(dirs: &directories::ProjectDirs) -> (dir: Option<String>) {
    match dirs.config_dir().to_str() {
        Some(text) => Some(text.to_owned()),
        None => None,
    }
}

/// The path of `name` in the directory `dir`.
pub open spec fn joined_path(dir: Seq<char>, name: Seq<char>) -> Seq<char> {
    dir + "/"@ + name
}

/// The error of a directory that the system does not give.
pub open spec fn missing_directory_error(what: Seq<char>) -> SessionErrorView {
    error_of(ErrorKind::Config, "Could not determine "@ + what + " directory"@)
}

/// The path of `name` in the directory `dir`.
pub fn join_path(dir: &str, name: &str) -> (path: String)
    ensures
        path@ == joined_path(dir@, name@),
{
    String::from_str(dir).concat("/").concat(name)
}

fn missing_directory(what: &str) -> (e: SessionError)
    ensures
        e@ == missing_directory_error(what@),
{
    SessionError::Config(
        String::from_str("Could not determine ").concat(what).concat(" directory"),
    )
}

/// The directory of the application's data. It is the system's to name; where
/// it names none, the error says so.
pub fn project_data_dir() -> (dir: Result<String, SessionError>)
    ensures
        dir matches Err(e) ==> e@ == missing_directory_error("data"@),
{
    match project_dirs("com", "whispertray", "WhisperTray") {
        Some(dirs) => {
            let found = data_dir_text(&dirs);
            found_directory(found, "data")
        },
        None => found_directory(None, "data"),
    }
}

/// The directory of the application's configuration. It is the system's to
/// name; where it names none, the error says so.
pub fn project_config_dir() -> (dir: Result<String, SessionError>)
    ensures
        dir matches Err(e) ==> e@ == missing_directory_error("config"@),
{
    match project_dirs("com", "whispertray", "WhisperTray") {
        Some(dirs) => {
            let found = config_dir_text(&dirs);
            found_directory(found, "config")
        },
        None => found_directory(None, "config"),
    }
}

/// What the answer of the system to the question for a directory means: the
/// directory that it names, or, where it names none, the error that says
/// which directory is missing.
pub fn found_directory(found: Option<String>, what: &str) -> (dir: Result<String, SessionError>)
    ensures
        match found {
            Some(path) => dir == Ok::<String, SessionError>(path),
            None => dir matches Err(e) && e@ == missing_directory_error(what@),
        },
{
    match found {
        Some(path) => Ok(path),
        None => Err(missing_directory(what)),
    }
}

} // verus!
