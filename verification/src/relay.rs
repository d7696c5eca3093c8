//! From the upstream's answer to what the caller is sent.

use crate::body::{json_text, json_text_of, parses_as_json};
use crate::error::{ApiError, STATUS_OK, STATUS_UPSTREAM_ERROR, UPSTREAM_ERROR_BODY};
use vstd::prelude::*;
use vstd::utf8::{decode_utf8, valid_utf8};

verus! {

/// How an upstream call ended.
#[derive(Debug, PartialEq, Eq)]
pub enum UpstreamReply {
    /// No response arrived: the connection failed, timed out or broke off.
    Unreachable,
    /// A response arrived.
    Response {
        /// Its HTTP status.
        status: u16,
        /// Its body, as received.
        body: Vec<u8>,
    },
}

/// An [`UpstreamReply`] as plain values.
pub ghost enum UpstreamReplyView {
    Unreachable,
    Response { status: u16, body: Seq<u8> },
}

impl View for UpstreamReply {
    type V = UpstreamReplyView;

    open spec fn view(&self) -> UpstreamReplyView {
        match self {
            UpstreamReply::Unreachable => UpstreamReplyView::Unreachable,
            UpstreamReply::Response { status, body } => UpstreamReplyView::Response {
                status: *status,
                body: body@,
            },
        }
    }
}

/// What a successful upstream call returned.
#[derive(Debug, PartialEq, Eq)]
pub struct UpstreamResult {
    /// The JSON document of the upstream, as the text that arrived.
    pub body: String,
}

/// What the caller is sent.
#[derive(Debug, PartialEq, Eq)]
pub struct GatewayResponse {
    /// HTTP status of the response.
    pub status: u16,
    /// JSON body of the response.
    pub body: String,
}

/// A [`GatewayResponse`] as plain values.
pub ghost struct GatewayResponseView {
    pub status: u16,
    pub body: Seq<char>,
}

impl View for GatewayResponse {
    type V = GatewayResponseView;

    open spec fn view(&self) -> GatewayResponseView {
        GatewayResponseView { status: self.status, body: self.body@ }
    }
}

/// The statuses that stand for success: 200 to 299.
pub open spec fn is_success(status: u16) -> bool {
    200 <= status < 300
}

/// What is made of a response with `status` whose body is the JSON
/// `document` (`None`: the body is no JSON document).
///
/// The document is passed on as it is where the status stands for success.
/// Every other response is the one upstream error.
pub open spec fn relayed(status: u16, document: Option<Seq<char>>) -> Result<Seq<char>, ApiError> {
    match document {
        Some(text) if is_success(status) => Ok(text),
        _ => Err(ApiError::MoralisError),
    }
}

/// What is made of an upstream reply: [`relayed`] for a response, the
/// upstream error where none arrived.
pub open spec fn outcome_of(reply: UpstreamReplyView) -> Result<Seq<char>, ApiError> {
    match reply {
        UpstreamReplyView::Unreachable => Err(ApiError::MoralisError),
        UpstreamReplyView::Response { status, body } => relayed(status, json_text_of(body)),
    }
}

/// The plain-value form of a relay's result.
pub open spec fn result_view(outcome: Result<UpstreamResult, ApiError>) -> Result<
    Seq<char>,
    ApiError,
> {
    match outcome {
        Ok(result) => Ok(result.body@),
        Err(error) => Err(error),
    }
}

/// The response that reports `outcome` to the caller: the upstream text under
/// status 200, or the status and the fixed body of the error.
pub open spec fn response_to(outcome: Result<Seq<char>, ApiError>) -> GatewayResponseView {
    match outcome {
        Ok(text) => GatewayResponseView { status: STATUS_OK, body: text },
        Err(error) => GatewayResponseView {
            status: error.spec_status_code(),
            body: error.spec_message(),
        },
    }
}

/// Whether `status` stands for success.
pub fn status_is_success(status: u16) -> (yes: bool)
    ensures
        yes == is_success(status),
{
    200 <= status && status < 300
}

/// Decides what becomes of a response with `status`, given the JSON document
/// in its body, if it holds one.
pub fn relay(status: u16, document: Option<String>) -> (outcome: Result<UpstreamResult, ApiError>)
    ensures
        result_view(outcome) == relayed(status, document.deep_view()),
{
    match document {
        Some(body) => {
            if status_is_success(status) {
                Ok(UpstreamResult { body })
            } else {
                Err(ApiError::MoralisError)
            }
        },
        None => Err(ApiError::MoralisError),
    }
}

/// Decides what becomes of an upstream reply. The body of a failed call goes
/// nowhere: the error says only that the upstream failed.
pub fn moralis_result(reply: &UpstreamReply) -> (outcome: Result<UpstreamResult, ApiError>)
    ensures
        result_view(outcome) == outcome_of(reply@),
{
    match reply {
        UpstreamReply::Unreachable => Err(ApiError::MoralisError),
        UpstreamReply::Response { status, body } => relay(*status, json_text(body.as_slice())),
    }
}

/// Builds the response that reports `outcome` to the caller.
pub fn respond(outcome: Result<UpstreamResult, ApiError>) -> (response: GatewayResponse)
    ensures
        response@ == response_to(result_view(outcome)),
{
    match outcome {
        Ok(result) => GatewayResponse { status: STATUS_OK, body: result.body },
        Err(error) => GatewayResponse { status: error.status_code(), body: error.message() },
    }
}

/// A response with a success status whose body is a JSON document reaches
/// the caller under status 200 with that very text as its body.
pub proof fn lemma_success_passes_body_through(status: u16, body: Seq<u8>)
    requires
        is_success(status),
    ensures
        json_text_of(body) matches Some(text) ==> {
            &&& outcome_of(UpstreamReplyView::Response { status, body }) == Ok::<
                Seq<char>,
                ApiError,
            >(text)
            &&& response_to(outcome_of(UpstreamReplyView::Response { status, body }))
                == (GatewayResponseView { status: STATUS_OK, body: text })
            &&& text == decode_utf8(body)
        },
{
}

/// A response with a status that does not stand for success is the upstream
/// error whatever its body holds, and what the caller is sent for it is the
/// same for every body: nothing of the upstream body leaks.
pub proof fn lemma_failure_hides_upstream_body(status: u16, body: Seq<u8>, other: Seq<u8>)
    requires
        !is_success(status),
    ensures
        outcome_of(UpstreamReplyView::Response { status, body }) == Err::<Seq<char>, ApiError>(
            ApiError::MoralisError,
        ),
        response_to(outcome_of(UpstreamReplyView::Response { status, body })) == response_to(
            outcome_of(UpstreamReplyView::Response { status, body: other }),
        ),
        response_to(outcome_of(UpstreamReplyView::Response { status, body }))
            == (GatewayResponseView { status: STATUS_UPSTREAM_ERROR, body: UPSTREAM_ERROR_BODY@ }),
{
}

/// A reply is relayed whole or not at all: the outcome is the complete body
/// text of a successful JSON response, or the upstream error. The relay is
/// a success exactly if a response arrived, its status stands for success,
/// and its body is UTF-8 text that is a JSON document.
pub proof fn lemma_relay_is_all_or_nothing(reply: UpstreamReplyView)
    ensures
        outcome_of(reply) is Ok <==> {
            &&& reply matches UpstreamReplyView::Response { status, body }
            &&& is_success(status)
            &&& valid_utf8(body)
            &&& parses_as_json(decode_utf8(body))
        },
        outcome_of(reply) matches Ok(text) ==> text == decode_utf8(reply->body),
        outcome_of(reply) matches Err(error) ==> error == ApiError::MoralisError,
        outcome_of(reply) is Err ==> response_to(outcome_of(reply)) == (GatewayResponseView {
            status: STATUS_UPSTREAM_ERROR,
            body: UPSTREAM_ERROR_BODY@,
        }),
{
}

/// The caller sees status 200 exactly for a relayed body, and then the body
/// is the upstream text. For an error the status and the body are those of
/// the error.
pub proof fn lemma_response_reports_outcome(outcome: Result<Seq<char>, ApiError>)
    ensures
        response_to(outcome).status == STATUS_OK <==> outcome is Ok,
        outcome matches Ok(text) ==> response_to(outcome).body == text,
        outcome matches Err(error) ==> response_to(outcome) == (GatewayResponseView {
            status: error.spec_status_code(),
            body: error.spec_message(),
        }),
{
}

} // verus!
