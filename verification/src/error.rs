//! The closed set of failure kinds of the relay pipeline, and their mapping
//! to protocol-visible responses.

use vstd::prelude::*;
use vstd::string::StrSliceExecFns;
use vstd::string::StringExecFns;

verus! {

/// The "not acceptable" HTTP status used for request validation and event
/// construction failures.
pub const STATUS_NOT_ACCEPTABLE: u16 = 406;

/// The fallback "bad request" HTTP status used for an upstream failure that
/// reports no status of its own.
pub const STATUS_BAD_REQUEST: u16 = 400;

/// A failure of the filter/convert pipeline. Every failure of a single
/// request is one of these three kinds; none is retried and none terminates
/// the process.
#[derive(Debug)]
pub enum ServiceError {
    /// The inbound event cannot be converted as it stands.
    InvalidRequest { details: String },
    /// The outgoing event could not be constructed.
    EventBuilderError { details: String },
    /// The upstream recognition call failed; `status` is the HTTP status the
    /// transport reported, if any.
    ClientError { details: String, status: Option<u16> },
}

impl ServiceError {
    /// The kind name rendered into the `error` field of a response body.
    pub open spec fn name_spec(&self) -> Seq<char> {
        match self {
            ServiceError::InvalidRequest { .. } => "InvalidRequest"@,
            ServiceError::EventBuilderError { .. } => "EventBuilderError"@,
            ServiceError::ClientError { .. } => "ClientError"@,
        }
    }

    /// The human-readable detail rendered into the `message` field of a
    /// response body.
    pub open spec fn message_spec(&self) -> Seq<char> {
        match self {
            ServiceError::InvalidRequest { details } => "Invalid request: "@ + details@,
            ServiceError::EventBuilderError { details } => "Event builder error: "@ + details@,
            ServiceError::ClientError { details, .. } => "Client Error: "@ + details@,
        }
    }

    /// The HTTP status of the response that reports this failure: a fixed
    /// "not acceptable" for the two request-side kinds, and for an upstream
    /// failure the status it carried, or a fixed "bad request" default.
    pub open spec fn status_code_spec(&self) -> u16 {
        match self {
            ServiceError::InvalidRequest { .. } => STATUS_NOT_ACCEPTABLE,
            ServiceError::EventBuilderError { .. } => STATUS_NOT_ACCEPTABLE,
            ServiceError::ClientError { status, .. } => match status {
                Some(s) => *s,
                None => STATUS_BAD_REQUEST,
            },
        }
    }

    pub fn name(&self) -> (r: &str)
        ensures
            r@ == self.name_spec(),
    {
        match self {
            ServiceError::InvalidRequest { .. } => "InvalidRequest",
            ServiceError::EventBuilderError { .. } => "EventBuilderError",
            ServiceError::ClientError { .. } => "ClientError",
        }
    }

    pub fn invalid_request(details: String) -> (r: Self)
        ensures
            r matches ServiceError::InvalidRequest { details: d } && d == details,
    {
        ServiceError::InvalidRequest { details }
    }

    pub fn event_builder_error(details: String) -> (r: Self)
        ensures
            r matches ServiceError::EventBuilderError { details: d } && d == details,
    {
        ServiceError::EventBuilderError { details }
    }

    pub fn client_error(details: String, status: Option<u16>) -> (r: Self)
        ensures
            r matches ServiceError::ClientError { details: d, status: s } && d == details && s
                == status,
    {
        ServiceError::ClientError { details, status }
    }

    pub fn status_code(&self) -> (r: u16)
        ensures
            r == self.status_code_spec(),
    {
        match self {
            ServiceError::InvalidRequest { .. } => STATUS_NOT_ACCEPTABLE,
            ServiceError::EventBuilderError { .. } => STATUS_NOT_ACCEPTABLE,
            ServiceError::ClientError { status, .. } => match status {
                Some(s) => *s,
                None => STATUS_BAD_REQUEST,
            },
        }
    }

    pub fn message(&self) -> (r: String)
        ensures
            r@ == self.message_spec(),
    {
        match self {
            ServiceError::InvalidRequest { details } => String::from_str(
                "Invalid request: ",
            ).concat(details.as_str()),
            ServiceError::EventBuilderError { details } => String::from_str(
                "Event builder error: ",
            ).concat(details.as_str()),
            ServiceError::ClientError { details, .. } => String::from_str(
                "Client Error: ",
            ).concat(details.as_str()),
        }
    }

    /// The structured body that reports this failure to the caller.
    pub fn error_response(&self) -> (r: ErrorResponse)
        ensures
            r.error@ == self.name_spec(),
            r.message@ == self.message_spec(),
    {
        ErrorResponse { error: String::from_str(self.name()), message: self.message() }
    }
}

/// The JSON-shaped response body for a pipeline failure: the kind name under
/// `error` and the human-readable detail under `message`.
#[derive(Clone, Debug)]
pub struct ErrorResponse {
    pub error: String,
    pub message: String,
}

/// A failure to construct the process-wide configuration at startup,
/// distinct from the per-request failures of [`ServiceError`].
#[derive(Debug)]
pub enum ConfigError {
    /// The configured base URL does not yield a recognition endpoint;
    /// `details` carries the offending base URL.
    InvalidBaseUrl { details: String },
}

} // verus!
