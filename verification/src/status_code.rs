//! Application status codes carried in every response envelope.

use vstd::prelude::*;

verus! {

/// The outcome class of a request, from plain success to the failure kinds
/// the handlers distinguish.
#[derive(Clone, Copy, PartialEq, Eq, Structural, Debug)]
pub enum AppStatusCode {
    Success,
    DbPoolError,
    SpExecutionFailed,
    InvalidPayload,
    PathCreation,
    SpKnownFailed,
}

impl AppStatusCode {
    /// The wire name of this code, as the response serializes it.
    pub fn wire_name(&self) -> (r: &'static str)
        ensures
            r@ == spec_wire_name(*self),
    {
        match self {
            AppStatusCode::Success => "0",
            AppStatusCode::DbPoolError => "OCR-00001",
            AppStatusCode::SpExecutionFailed => "OCR-00002",
            AppStatusCode::InvalidPayload => "OCR-00003",
            AppStatusCode::PathCreation => "OCR-00004",
            AppStatusCode::SpKnownFailed => "OCR-00005",
        }
    }
}

/// The wire name of each status code.
pub open spec fn spec_wire_name(c: AppStatusCode) -> Seq<char> {
    match c {
        AppStatusCode::Success => "0"@,
        AppStatusCode::DbPoolError => "OCR-00001"@,
        AppStatusCode::SpExecutionFailed => "OCR-00002"@,
        AppStatusCode::InvalidPayload => "OCR-00003"@,
        AppStatusCode::PathCreation => "OCR-00004"@,
        AppStatusCode::SpKnownFailed => "OCR-00005"@,
    }
}

} // verus!
