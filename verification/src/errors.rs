//! The library's error type and the user-facing messages it carries.
use vstd::prelude::*;
use crate::text::concat2;

verus! {

/// Errors of the client. A failed HTTP request carries the message that is
/// shown to the user (see [`friendly_request_error`]).
#[derive(Debug)]
pub enum ApixError {
    RequestFailed(String),
    InvalidMethod(String),
    InvalidUrl(String),
    MissingArgument(String),
    ConfigError(String),
    IoError(String),
}

/// The user-facing text of an error.
pub open spec fn error_message(e: ApixError) -> Seq<char> {
    match e {
        ApixError::RequestFailed(m) => m@,
        ApixError::InvalidMethod(m) => "Invalid HTTP method: "@ + m@,
        ApixError::InvalidUrl(m) => "Invalid URL: "@ + m@,
        ApixError::MissingArgument(m) => "Missing required argument: "@ + m@,
        ApixError::ConfigError(m) => "Configuration error: "@ + m@,
        ApixError::IoError(m) => "IO error: "@ + m@,
    }
}

impl ApixError {
    /// The user-facing text of this error.
    pub fn message(&self) -> (s: String)
        ensures
            s@ == error_message(*self),
    {
        match self {
            ApixError::RequestFailed(m) => m.clone(),
            ApixError::InvalidMethod(m) => concat2("Invalid HTTP method: ", m.as_str()),
            ApixError::InvalidUrl(m) => concat2("Invalid URL: ", m.as_str()),
            ApixError::MissingArgument(m) => concat2("Missing required argument: ", m.as_str()),
            ApixError::ConfigError(m) => concat2("Configuration error: ", m.as_str()),
            ApixError::IoError(m) => concat2("IO error: ", m.as_str()),
        }
    }
}

/// What is known of a failed HTTP request: its kind, the URL it went to, and
/// the transport's own description.
pub struct RequestErrorInfo {
    pub is_connect: bool,
    pub is_timeout: bool,
    pub is_redirect: bool,
    pub is_decode: bool,
    pub url: Option<String>,
    pub detail: String,
}

/// The message shown for a failed HTTP request.
pub open spec fn request_error_text(info: RequestErrorInfo) -> Seq<char> {
    if info.is_connect {
        "Connection failed \u{2014} check the URL or your network"@
    } else if info.is_timeout {
        "Timeout \u{2014} the server did not respond in time"@
    } else if info.is_redirect {
        "Too many redirects"@
    } else if info.is_decode {
        "Failed to decode response"@
    } else if info.url is Some {
        "Request failed to "@ + info.url->0@
    } else {
        "HTTP error: "@ + info.detail@
    }
}

/// The user-facing message of a failed HTTP request.
pub fn friendly_request_error(info: &RequestErrorInfo) -> (s: String)
    ensures
        s@ == request_error_text(*info),
{
    if info.is_connect {
        "Connection failed \u{2014} check the URL or your network".to_string()
    } else if info.is_timeout {
        "Timeout \u{2014} the server did not respond in time".to_string()
    } else if info.is_redirect {
        "Too many redirects".to_string()
    } else if info.is_decode {
        "Failed to decode response".to_string()
    } else {
        match &info.url {
            Some(url) => concat2("Request failed to ", url.as_str()),
            None => concat2("HTTP error: ", info.detail.as_str()),
        }
    }
}

/// The error for a failed HTTP request.
pub fn request_failed(info: &RequestErrorInfo) -> (e: ApixError)
    ensures
        e matches ApixError::RequestFailed(m) && m@ == request_error_text(*info),
{
    ApixError::RequestFailed(friendly_request_error(info))
}

} // verus!
