//! The errors of the proxy.

use vstd::prelude::*;

verus! {

#[verifier::external_type_specification]
#[verifier::external_body]
pub struct ExJoinError(tokio::task::JoinError);

#[verifier::external_type_specification]
#[verifier::external_body]
pub struct ExIoError(std::io::Error);

#[verifier::external_type_specification]
#[verifier::external_body]
pub struct ExInvalidUri(http::uri::InvalidUri);

#[verifier::external_type_specification]
#[verifier::external_body]
pub struct ExHttpError(http::Error);

#[verifier::external_type_specification]
#[verifier::external_body]
pub struct ExHyperError(hyper::Error);

/// Everything that can go wrong while configuring or serving.
#[derive(Debug)]
pub enum AppError {
    ConfigError(String),
    JoinError(tokio::task::JoinError),
    IOError(std::io::Error),
    UriError(String),
    InvalidUri(http::uri::InvalidUri),
    HttpError(http::Error),
    HyperError(hyper::Error),
    RuntimeError(String),
    ForwardHeaderError,
}

/// `e` is a configuration error with the message `msg`.
pub open spec fn is_config_error(e: AppError, msg: Seq<char>) -> bool {
    e matches AppError::ConfigError(m) && m@ == msg
}

/// `e` is a URI error with the message `msg`.
pub open spec fn is_uri_error(e: AppError, msg: Seq<char>) -> bool {
    e matches AppError::UriError(m) && m@ == msg
}

/// `e` is a runtime error with the message `msg`.
pub open spec fn is_runtime_error(e: AppError, msg: Seq<char>) -> bool {
    e matches AppError::RuntimeError(m) && m@ == msg
}

/// The `Display` text of a task join error (`tokio::task::JoinError`).
/// Nothing is claimed of the text.
#[verifier::external_body]
pub(crate) fn join_error_text(e: &tokio::task::JoinError) -> String {
    format!("{}", e)
}

/// The `Display` text of an I/O error (`std::io::Error`).
/// Nothing is claimed of the text.
#[verifier::external_body]
pub(crate) fn io_error_text(e: &std::io::Error) -> String {
    format!("{}", e)
}

/// The `Display` text of an invalid URI error (`http::uri::InvalidUri`).
/// Nothing is claimed of the text.
#[verifier::external_body]
pub(crate) fn invalid_uri_text(e: &http::uri::InvalidUri) -> String {
    format!("{}", e)
}

/// The `Display` text of an HTTP construction error (`http::Error`).
/// Nothing is claimed of the text.
#[verifier::external_body]
pub(crate) fn http_error_text(e: &http::Error) -> String {
    format!("{}", e)
}

/// The `Display` text of a hyper error (`hyper::Error`).
/// Nothing is claimed of the text.
#[verifier::external_body]
pub(crate) fn hyper_error_text(e: &hyper::Error) -> String {
    format!("{}", e)
}

} // verus!
