//! Credentials: under which name a key is stored, and what an answer of the
//! credential store means.

use crate::error::{error_of, ErrorKind, SessionError, SessionErrorView};
use crate::history::{lowercase, lowercase_text};
use crate::text::option_text;
use vstd::prelude::*;

verus! {

/// Name of the service under which the keys are stored.
pub const KEYRING_SERVICE: &'static str = "whispertray";

/// What the credential store answered when it was asked for a key.
#[derive(Debug)]
pub enum CredentialReply {
    /// The key.
    Found(String),
    /// No key is stored under the name.
    NoEntry,
    /// The store could not be reached.
    Unavailable(String),
    /// The store could not give the key.
    Failed(String),
}

/// What an answer of the credential store means. That no key is stored is no
/// error. `for_stt` tells whether the key is one of a speech-to-text
/// provider.
pub open spec fn credential_of(reply: CredentialReply, for_stt: bool) -> Result<
    Option<Seq<char>>,
    SessionErrorView,
> {
    match reply {
        CredentialReply::Found(key) => Ok(Some(key@)),
        CredentialReply::NoEntry => Ok(None),
        CredentialReply::Unavailable(detail) => Err(
            error_of(ErrorKind::Keyring, "Failed to access keyring: "@ + detail@),
        ),
        CredentialReply::Failed(detail) => Err(
            error_of(
                ErrorKind::Keyring,
                if for_stt {
                    "Failed to get STT API key: "@
                } else {
                    "Failed to get API key: "@
                } + detail@,
            ),
        ),
    }
}

/// What an answer of the credential store means when a key was to be
/// removed: that none was stored is no error.
pub open spec fn deletion_of(reply: CredentialReply) -> Result<(), SessionErrorView> {
    match reply {
        CredentialReply::Found(_) => Ok(()),
        CredentialReply::NoEntry => Ok(()),
        CredentialReply::Unavailable(detail) => Err(
            error_of(ErrorKind::Keyring, "Failed to access keyring: "@ + detail@),
        ),
        CredentialReply::Failed(detail) => Err(
            error_of(ErrorKind::Keyring, "Failed to delete API key: "@ + detail@),
        ),
    }
}

/// Name under which the key of the provider `provider` is stored.
pub open spec fn key_name_of(provider: Seq<char>) -> Seq<char> {
    lowercase_text(provider) + "_api_key"@
}

/// Name under which the key of the provider `provider` is stored.
pub fn api_key_name(provider: &str) -> (name: String)
    ensures
        name@ == key_name_of(provider@),
{
    lowercase(provider).concat("_api_key")
}

/// Reads an answer of the credential store to a request for a key.
pub fn read_credential(reply: CredentialReply, for_stt: bool) -> (key: Result<
    Option<String>,
    SessionError,
>)
    ensures
        match key {
            Ok(k) => credential_of(reply, for_stt) == Ok::<Option<Seq<char>>, SessionErrorView>(
                option_text(k),
            ),
            Err(e) => credential_of(reply, for_stt) == Err::<Option<Seq<char>>, SessionErrorView>(
                e@,
            ),
        },
{
    match reply {
        CredentialReply::Found(key) => Ok(Some(key)),
        CredentialReply::NoEntry => Ok(None),
        CredentialReply::Unavailable(detail) => Err(
            SessionError::Keyring(
                String::from_str("Failed to access keyring: ").concat(detail.as_str()),
            ),
        ),
        CredentialReply::Failed(detail) => {
            let headline = if for_stt {
                "Failed to get STT API key: "
            } else {
                "Failed to get API key: "
            };
            Err(SessionError::Keyring(String::from_str(headline).concat(detail.as_str())))
        },
    }
}

/// Reads an answer of the credential store to the removal of a key.
pub fn read_deletion(reply: CredentialReply) -> (done: Result<(), SessionError>)
    ensures
        match done {
            Ok(_) => deletion_of(reply) == Ok::<(), SessionErrorView>(()),
            Err(e) => deletion_of(reply) == Err::<(), SessionErrorView>(e@),
        },
{
    match reply {
        CredentialReply::Found(_) => Ok(()),
        CredentialReply::NoEntry => Ok(()),
        CredentialReply::Unavailable(detail) => Err(
            SessionError::Keyring(
                String::from_str("Failed to access keyring: ").concat(detail.as_str()),
            ),
        ),
        CredentialReply::Failed(detail) => Err(
            SessionError::Keyring(
                String::from_str("Failed to delete API key: ").concat(detail.as_str()),
            ),
        ),
    }
}

} // verus!
