//! The two ways in which a request can fail.

use vstd::prelude::*;

verus! {

/// Why a request produced no upstream body.
#[derive(Debug, Clone, Copy, PartialEq, Eq, Structural)]
pub enum ApiError {
    /// The inbound request is unusable: no upstream call is made for it.
    BadRequest,
    /// The upstream call failed, whatever the reason. The caller learns
    /// nothing more than that.
    MoralisError,
}

/// HTTP status sent with a successful relay.
pub const STATUS_OK: u16 = 200;

/// HTTP status sent for [`ApiError::BadRequest`].
pub const STATUS_BAD_REQUEST: u16 = 400;

/// HTTP status sent for [`ApiError::MoralisError`].
pub const STATUS_UPSTREAM_ERROR: u16 = 500;

/// Body sent for [`ApiError::BadRequest`].
pub const BAD_REQUEST_BODY: &'static str = "{\"error\":\"bad request\"}";

/// Body sent for [`ApiError::MoralisError`].
pub const UPSTREAM_ERROR_BODY: &'static str = "{\"error\":\"upstream request failed\"}";

impl ApiError {
    /// The status that stands for this error: a client error for a bad
    /// request, one generic server error for every upstream failure.
    pub open spec fn spec_status_code(self) -> u16 {
        match self {
            ApiError::BadRequest => STATUS_BAD_REQUEST,
            ApiError::MoralisError => STATUS_UPSTREAM_ERROR,
        }
    }

    /// The fixed body that stands for this error.
    pub open spec fn spec_message(self) -> Seq<char> {
        match self {
            ApiError::BadRequest => BAD_REQUEST_BODY@,
            ApiError::MoralisError => UPSTREAM_ERROR_BODY@,
        }
    }

    /// HTTP status with which this error is reported to the caller.
    #[verifier::when_used_as_spec(spec_status_code)]
    pub fn status_code(self) -> (status: u16)
        ensures
            status == self.spec_status_code(),
            400 <= status < 600,
    {
        match self {
            ApiError::BadRequest => STATUS_BAD_REQUEST,
            ApiError::MoralisError => STATUS_UPSTREAM_ERROR,
        }
    }

    /// Body with which this error is reported to the caller. It depends on
    /// the kind of error alone.
    pub fn message(self) -> (text: String)
        ensures
            text@ == self.spec_message(),
    {
        match self {
            ApiError::BadRequest => String::from_str(BAD_REQUEST_BODY),
            ApiError::MoralisError => String::from_str(UPSTREAM_ERROR_BODY),
        }
    }
}

/// A bad request is reported as a client error and an upstream failure as a
/// server error, so no error goes out under the status of a success.
pub proof fn lemma_error_status_classes(error: ApiError)
    ensures
        error == ApiError::BadRequest <==> 400 <= error.spec_status_code() < 500,
        error == ApiError::MoralisError <==> 500 <= error.spec_status_code() < 600,
        error.spec_status_code() != STATUS_OK,
{
}

} // verus!
