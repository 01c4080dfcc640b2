//! The error type shared by every operation of a node.

use vstd::prelude::*;
use vstd::string::*;

verus! {

/// `ring::error::KeyRejected`, the reason why ring refused a private key.
#[verifier::external_type_specification]
#[verifier::external_body]
pub struct ExKeyRejected(ring::error::KeyRejected);

/// `ring::error::Unspecified`, ring's error without detail.
#[verifier::external_type_specification]
#[verifier::external_body]
pub struct ExUnspecified(ring::error::Unspecified);

/// `base64::DecodeError`, the reason why a text is not base64.
#[verifier::external_type_specification]
#[verifier::external_body]
pub struct ExDecodeError(base64::DecodeError);

/// What can go wrong in a node.
///
/// The variants that come from storage, files, the network and the logger hold
/// the message of the failure as text; the variants that come from signing and
/// decoding hold the error that the cryptographic or the base64 code returned.
#[derive(Debug)]
pub enum Error {
    Database(String),
    File(String),
    Generic(String),
    Reqwest(String),
    Config(String),
    Var(String),
    Logger(String),
    TokioJoinError(String),
    UnspecifiedRingError(ring::error::Unspecified),
    KeyRejectedError(ring::error::KeyRejected),
    FromUtf8(String),
    BaseDecode(base64::DecodeError),
    SerdeJson(String),
    /// The address that an update came from has no record in the registry.
    PeerNotFound(String),
}

/// The display text of a `ring::error::KeyRejected`, as its `Display` impl
/// writes it. Nothing is claimed of the text.
#[verifier::external_body]
fn key_rejected_text(err: &ring::error::KeyRejected) -> (text: String) {
    format!("{}", err)
}

/// The display text of a `ring::error::Unspecified`, as its `Display` impl
/// writes it. Nothing is claimed of the text.
#[verifier::external_body]
fn unspecified_text(err: &ring::error::Unspecified) -> (text: String) {
    format!("{}", err)
}

/// The display text of a `base64::DecodeError`, as its `Display` impl writes
/// it. Nothing is claimed of the text.
#[verifier::external_body]
fn decode_error_text(err: &base64::DecodeError) -> (text: String) {
    format!("{}", err)
}

impl Error {
    /// The words that open the message of each kind of error.
    pub open spec fn label(&self) -> Seq<char> {
        match self {
            Error::Database(_) => "Database error: "@,
            Error::File(_) => "File error: "@,
            Error::Generic(_) => "Other error: "@,
            Error::Reqwest(_) => "Reqwest error: "@,
            Error::Config(_) => "Config error: "@,
            Error::Var(_) => "Variable error: "@,
            Error::Logger(_) => "Logger error: "@,
            Error::TokioJoinError(_) => "Tokio JoinError: "@,
            Error::UnspecifiedRingError(_) => "Ring error: "@,
            Error::KeyRejectedError(_) => "Key rejected: "@,
            Error::FromUtf8(_) => "Error parsing utf-8: "@,
            Error::BaseDecode(_) => "Error decoding bytes to base64: "@,
            Error::SerdeJson(_) => "Error decoding json: "@,
            Error::PeerNotFound(_) => "Peer not found: "@,
        }
    }

    /// The detail of the failure, where the error holds it as text.
    pub open spec fn detail(&self) -> Option<Seq<char>> {
        match self {
            Error::Database(d) => Some(d@),
            Error::File(d) => Some(d@),
            Error::Generic(d) => Some(d@),
            Error::Reqwest(d) => Some(d@),
            Error::Config(d) => Some(d@),
            Error::Var(d) => Some(d@),
            Error::Logger(d) => Some(d@),
            Error::TokioJoinError(d) => Some(d@),
            Error::UnspecifiedRingError(_) => None,
            Error::KeyRejectedError(_) => None,
            Error::FromUtf8(d) => Some(d@),
            Error::BaseDecode(_) => None,
            Error::SerdeJson(d) => Some(d@),
            Error::PeerNotFound(d) => Some(d@),
        }
    }

    /// The message of the error: its label, then the detail.
    ///
    /// For an error that holds text the message is the label followed by that
    /// text. For one that holds a cryptographic or a decoding error the
    /// message opens with the label and goes on with that error's own words.
    pub fn to_text(&self) -> (text: String)
        ensures
            self.label().is_prefix_of(text@),
            self.detail() is Some ==> text@ == self.label() + self.detail().unwrap(),
    {
        match self {
            Error::Database(d) => labelled("Database error: ", d.as_str()),
            Error::File(d) => labelled("File error: ", d.as_str()),
            Error::Generic(d) => labelled("Other error: ", d.as_str()),
            Error::Reqwest(d) => labelled("Reqwest error: ", d.as_str()),
            Error::Config(d) => labelled("Config error: ", d.as_str()),
            Error::Var(d) => labelled("Variable error: ", d.as_str()),
            Error::Logger(d) => labelled("Logger error: ", d.as_str()),
            Error::TokioJoinError(d) => labelled("Tokio JoinError: ", d.as_str()),
            Error::UnspecifiedRingError(e) => {
                let d = unspecified_text(e);
                labelled("Ring error: ", d.as_str())
            },
            Error::KeyRejectedError(e) => {
                let d = key_rejected_text(e);
                labelled("Key rejected: ", d.as_str())
            },
            Error::FromUtf8(d) => labelled("Error parsing utf-8: ", d.as_str()),
            Error::BaseDecode(e) => {
                let d = decode_error_text(e);
                labelled("Error decoding bytes to base64: ", d.as_str())
            },
            Error::SerdeJson(d) => labelled("Error decoding json: ", d.as_str()),
            Error::PeerNotFound(d) => labelled("Peer not found: ", d.as_str()),
        }
    }
}

/// `label` followed by `detail`.
fn labelled(label: &str, detail: &str) -> (text: String)
    ensures
        text@ == label@ + detail@,
        label@.is_prefix_of(text@),
{
    String::from_str(label).concat(detail)
}

} // verus!
