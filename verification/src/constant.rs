//! The standardized response envelope every handler returns.

use vstd::prelude::*;

use crate::status_code::AppStatusCode;

verus! {

/// The envelope: a flag, a message, an optional payload, and a status code.
pub struct ApiResponse<T> {
    pub status: bool,
    pub message: String,
    pub result: Option<T>,
    pub status_code: AppStatusCode,
}

impl<T> ApiResponse<T> {
    /// A success envelope around a payload.
    pub fn success(result: T, message: &str) -> (r: Self)
        ensures
            r.status == true,
            r.message@ == message@,
            r.result == Some(result),
            r.status_code == AppStatusCode::Success,
    {
        Self {
            status: true,
            message: message.to_owned(),
            result: Some(result),
            status_code: AppStatusCode::Success,
        }
    }

    /// A failure envelope; the payload is whatever the caller wants to
    /// attach, usually nothing.
    pub fn error(message: String, code: AppStatusCode, result: Option<T>) -> (r: Self)
        ensures
            r.status == false,
            r.message == message,
            r.result == result,
            r.status_code == code,
    {
        Self { status: false, message, result, status_code: code }
    }
}

} // verus!
