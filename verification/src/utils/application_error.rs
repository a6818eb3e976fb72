//! The errors of the client, each carrying the text of its cause.

use vstd::prelude::*;
use vstd::string::StringExecFns;

verus! {

/// What can go wrong while logging in, talking to the X API or driving the
/// terminal. Each variant keeps the text of the underlying cause.
#[derive(Debug, Clone, PartialEq)]
pub enum ApplicationError {
    UnexpectedError(String),
    RequestTokenError(String),
    EnvironmentVariablesConfigurationError(String),
    InvalidConfigurationOauth2(String),
    CSRFTokenMismatch,
    ReqwestError(String),
    XApiCallError(String),
    XApiUnexpectedError(String),
    XApiBadRequestError(String),
    XApiUnauthorizedError(String),
    XApiForbiddenError(String),
    XApiNotFoundError(String),
}

/// The message that describes an error.
pub open spec fn error_message(e: ApplicationError) -> Seq<char> {
    match e {
        ApplicationError::UnexpectedError(s) => "Unexpected error. "@ + s@,
        ApplicationError::RequestTokenError(s) => "Request token error. "@ + s@,
        ApplicationError::EnvironmentVariablesConfigurationError(s) =>
            "Environment variables not configured correctly. "@ + s@,
        ApplicationError::InvalidConfigurationOauth2(s) =>
            "Invalid configuration parsed by oauth2 module. "@ + s@,
        ApplicationError::CSRFTokenMismatch => "CSRF token mismatch."@,
        ApplicationError::ReqwestError(s) => "Reqwest error. "@ + s@,
        ApplicationError::XApiCallError(s) => "X API call request error. "@ + s@,
        ApplicationError::XApiUnexpectedError(s) => "X API unexpected error. "@ + s@,
        ApplicationError::XApiBadRequestError(s) => "X API bad request. "@ + s@,
        ApplicationError::XApiUnauthorizedError(s) => "X API unauthorized. "@ + s@,
        ApplicationError::XApiForbiddenError(s) => "X API forbidden. "@ + s@,
        ApplicationError::XApiNotFoundError(s) => "X API resource not found. "@ + s@,
    }
}

fn prefixed(prefix: &str, s: &String) -> (r: String)
    ensures
        r@ == prefix@ + s@,
{
    let mut r = prefix.to_owned();
    r.append(s.as_str());
    r
}

impl ApplicationError {
    /// The human-readable message of this error.
    pub fn message(&self) -> (r: String)
        ensures
            r@ == error_message(*self),
    {
        match self {
            ApplicationError::UnexpectedError(s) => prefixed("Unexpected error. ", s),
            ApplicationError::RequestTokenError(s) => prefixed("Request token error. ", s),
            ApplicationError::EnvironmentVariablesConfigurationError(s) =>
                prefixed("Environment variables not configured correctly. ", s),
            ApplicationError::InvalidConfigurationOauth2(s) =>
                prefixed("Invalid configuration parsed by oauth2 module. ", s),
            ApplicationError::CSRFTokenMismatch => "CSRF token mismatch.".to_owned(),
            ApplicationError::ReqwestError(s) => prefixed("Reqwest error. ", s),
            ApplicationError::XApiCallError(s) => prefixed("X API call request error. ", s),
            ApplicationError::XApiUnexpectedError(s) => prefixed("X API unexpected error. ", s),
            ApplicationError::XApiBadRequestError(s) => prefixed("X API bad request. ", s),
            ApplicationError::XApiUnauthorizedError(s) => prefixed("X API unauthorized. ", s),
            ApplicationError::XApiForbiddenError(s) => prefixed("X API forbidden. ", s),
            ApplicationError::XApiNotFoundError(s) => prefixed("X API resource not found. ", s),
        }
    }
}

} // verus!
