//! The classified failures of a call.

use vstd::prelude::*;
use vstd::string::*;

use crate::text::{decimal_text, format_u64};

verus! {

/// What kind of failure ended a call.
#[derive(Clone, Copy, Debug, PartialEq, Eq, Structural)]
pub enum FailureKind {
    UnknownOperation,
    MissingParameter,
    LimitExceeded,
    TransportError,
    UpstreamError,
    DecodeError,
}

/// A failed call, with what is known of the cause.
#[derive(Debug)]
pub enum Failure {
    /// No operation is registered under this name.
    UnknownOperation { name: String },
    /// A required parameter is absent from the bundle.
    MissingParameter { key: String },
    /// A list parameter holds more values than the operation allows.
    LimitExceeded { key: String, limit: usize, actual: usize },
    /// The outbound call did not complete.
    TransportError { message: String },
    /// The upstream answered with a status outside 200..=299.
    UpstreamError { status: u16, body: String },
    /// The upstream's body is not JSON.
    DecodeError { message: String },
}

impl Failure {
    pub open spec fn spec_kind(&self) -> FailureKind {
        match self {
            Failure::UnknownOperation { .. } => FailureKind::UnknownOperation,
            Failure::MissingParameter { .. } => FailureKind::MissingParameter,
            Failure::LimitExceeded { .. } => FailureKind::LimitExceeded,
            Failure::TransportError { .. } => FailureKind::TransportError,
            Failure::UpstreamError { .. } => FailureKind::UpstreamError,
            Failure::DecodeError { .. } => FailureKind::DecodeError,
        }
    }

    /// The readable description of the failure.
    pub open spec fn spec_message(&self) -> Seq<char> {
        match self {
            Failure::UnknownOperation { name } => "unknown operation: "@ + name@,
            Failure::MissingParameter { key } => "missing required parameter: "@ + key@,
            Failure::LimitExceeded { key, limit, actual } => "too many values for "@ + key@ + ": "@
                + decimal_text(*actual as int) + " (at most "@ + decimal_text(*limit as int) + ")"@,
            Failure::TransportError { message } => "HTTP request error: "@ + message@,
            Failure::UpstreamError { status, body } => "HTTP "@ + decimal_text(*status as int) + ": "@
                + body@,
            Failure::DecodeError { message } => "JSON parsing error: "@ + message@,
        }
    }

    pub fn message(&self) -> (r: String)
        ensures
            r@ == self.spec_message(),
    {
        match self {
            Failure::UnknownOperation { name } => {
                let mut r = "unknown operation: ".to_owned();
                r.append(name.as_str());
                r
            },
            Failure::MissingParameter { key } => {
                let mut r = "missing required parameter: ".to_owned();
                r.append(key.as_str());
                r
            },
            Failure::LimitExceeded { key, limit, actual } => {
                let mut r = "too many values for ".to_owned();
                r.append(key.as_str());
                r.append(": ");
                r.append(format_u64(*actual as u64).as_str());
                r.append(" (at most ");
                r.append(format_u64(*limit as u64).as_str());
                r.append(")");
                r
            },
            Failure::TransportError { message } => {
                let mut r = "HTTP request error: ".to_owned();
                r.append(message.as_str());
                r
            },
            Failure::UpstreamError { status, body } => {
                let mut r = "HTTP ".to_owned();
                r.append(format_u64(*status as u64).as_str());
                r.append(": ");
                r.append(body.as_str());
                r
            },
            Failure::DecodeError { message } => {
                let mut r = "JSON parsing error: ".to_owned();
                r.append(message.as_str());
                r
            },
        }
    }

    pub fn kind(&self) -> (r: FailureKind)
        ensures
            r == self.spec_kind(),
    {
        match self {
            Failure::UnknownOperation { .. } => FailureKind::UnknownOperation,
            Failure::MissingParameter { .. } => FailureKind::MissingParameter,
            Failure::LimitExceeded { .. } => FailureKind::LimitExceeded,
            Failure::TransportError { .. } => FailureKind::TransportError,
            Failure::UpstreamError { .. } => FailureKind::UpstreamError,
            Failure::DecodeError { .. } => FailureKind::DecodeError,
        }
    }
}

} // verus!
