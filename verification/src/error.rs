//! The error model: CoolProp's own errors, and the API errors that every
//! failed request is answered with as `{"error": {"code", "message"}}`.

use vstd::prelude::*;
use crate::text::{decimal, decimal_string};

verus! {

/// Error carrying CoolProp's message.
#[derive(Debug, Clone)]
pub struct CoolPropError(pub String);

/// Body of an error response: the HTTP code and a message.
#[derive(Debug)]
pub struct ErrorDetail {
    pub code: i32,
    pub message: String,
}

/// The JSON envelope `{"error": {...}}` of every error response.
#[derive(Debug)]
pub struct ErrorEnvelope {
    pub error: ErrorDetail,
}

/// Why a request failed.
#[derive(Debug)]
pub enum ApiError {
    /// CoolProp rejected the input (invalid fluid, parameter, state, ...).
    CoolProp(String),
    /// No AbstractState with the given handle exists on this server.
    UnknownHandle(i64),
    /// Request could not be carried out for reasons not reported by CoolProp.
    BadInput(String),
    /// Unexpected internal failure.
    Internal(String),
}

/// Message of a request against a handle this server does not know.
pub open spec fn unknown_handle_message(h: i64) -> Seq<char> {
    "no AbstractState with handle "@ + decimal(h as int) + " on this server"@
}

impl ApiError {
    /// HTTP status of the error: 400 for rejected input, 404 for an unknown
    /// handle, 500 for an internal failure.
    pub open spec fn status(&self) -> int {
        match self {
            ApiError::CoolProp(_) => 400,
            ApiError::UnknownHandle(_) => 404,
            ApiError::BadInput(_) => 400,
            ApiError::Internal(_) => 500,
        }
    }

    /// Message of the error as the client sees it.
    pub open spec fn message(&self) -> Seq<char> {
        match self {
            ApiError::CoolProp(m) => m@,
            ApiError::UnknownHandle(h) => unknown_handle_message(*h),
            ApiError::BadInput(m) => m@,
            ApiError::Internal(m) => m@,
        }
    }

    /// HTTP status, code of the body and message of the error.
    pub fn parts(&self) -> (r: (u16, i32, String))
        ensures
            r.0 as int == self.status(),
            r.1 as int == self.status(),
            r.2@ == self.message(),
    {
        match self {
            ApiError::CoolProp(msg) => (400, 400, msg.clone()),
            ApiError::UnknownHandle(h) => {
                let mut m = String::from_str("no AbstractState with handle ");
                let digits = decimal_string(*h);
                m.append(digits.as_str());
                m.append(" on this server");
                (404, 404, m)
            },
            ApiError::BadInput(msg) => (400, 400, msg.clone()),
            ApiError::Internal(msg) => (500, 500, msg.clone()),
        }
    }

    /// The HTTP status and the JSON body that answer the failed request.
    pub fn envelope(&self) -> (r: (u16, ErrorEnvelope))
        ensures
            r.0 as int == self.status(),
            r.1.error.code as int == self.status(),
            r.1.error.message@ == self.message(),
    {
        let (status, code, message) = self.parts();
        (status, ErrorEnvelope { error: ErrorDetail { code, message } })
    }
}

impl From<CoolPropError> for ApiError {
    fn from(e: CoolPropError) -> (r: ApiError) {
        ApiError::CoolProp(e.0)
    }
}

impl vstd::std_specs::convert::FromSpecImpl<CoolPropError> for ApiError {
    open spec fn obeys_from_spec() -> bool {
        true
    }

    open spec fn from_spec(e: CoolPropError) -> ApiError {
        ApiError::CoolProp(e.0)
    }
}

/// Every error answers with a status in 400..=500 and a body whose code is
/// that status; an unknown handle answers 404, rejected input 400.
pub proof fn law_error_status(e: ApiError)
    ensures
        e.status() == 400 || e.status() == 404 || e.status() == 500,
        e is UnknownHandle <==> e.status() == 404,
        (e is CoolProp || e is BadInput) <==> e.status() == 400,
{
}

} // verus!
