use vstd::prelude::*;
use crate::prompt::{build_request, request_for, CompletionRequest};
use crate::reading::HealthReading;
use crate::reply::{
    error_text, interpret_reply, is_success_status, outcome_of, ProviderReply, SuggestionError,
};

verus! {

/// The body of a successful response.
pub struct SuggestionResult {
    pub suggestion: String,
}

/// The response to one inbound request.
pub enum HandlerResponse {
    /// The provider's suggestion (status 200).
    Suggestion(SuggestionResult),
    /// The inbound body did not decode into a reading (status 400).
    MalformedRequest,
    /// The provider call failed (status 500).
    UpstreamFailure(SuggestionError),
}

pub open spec fn status_of(resp: HandlerResponse) -> u16 {
    match resp {
        HandlerResponse::Suggestion(_) => 200,
        HandlerResponse::MalformedRequest => 400,
        HandlerResponse::UpstreamFailure(_) => 500,
    }
}

pub open spec fn is_client_error(status: u16) -> bool {
    400 <= status <= 499
}

pub open spec fn is_server_error(status: u16) -> bool {
    500 <= status <= 599
}

pub open spec fn failure_prefix() -> Seq<char> {
    "Failed to get suggestion: "@
}

pub open spec fn malformed_text() -> Seq<char> {
    "Malformed request: expected temp, pulse, spO2 and language"@
}

impl HandlerResponse {
    /// The HTTP status of the response.
    pub fn status(&self) -> (r: u16)
        ensures
            r == status_of(*self),
    {
        match self {
            HandlerResponse::Suggestion(_) => 200,
            HandlerResponse::MalformedRequest => 400,
            HandlerResponse::UpstreamFailure(_) => 500,
        }
    }

    /// The human-readable text of a failure response; `None` for a success,
    /// whose body is the suggestion record.
    pub fn failure_text(&self) -> (r: Option<String>)
        ensures
            match *self {
                HandlerResponse::Suggestion(_) => r is None,
                HandlerResponse::MalformedRequest => r is Some && r->0@ == malformed_text(),
                HandlerResponse::UpstreamFailure(e) => r is Some && r->0@ == failure_prefix()
                    + error_text(e),
            },
    {
        match self {
            HandlerResponse::Suggestion(_) => None,
            HandlerResponse::MalformedRequest => Some(
                String::from_str("Malformed request: expected temp, pulse, spO2 and language"),
            ),
            HandlerResponse::UpstreamFailure(e) => {
                let mut out = String::from_str("Failed to get suggestion: ");
                out.append(e.message());
                Some(out)
            },
        }
    }
}

/// What the handler does next: call the provider once with this request, or
/// respond at once without any call.
pub enum HandlerStep {
    CallProvider(CompletionRequest),
    Respond(HandlerResponse),
}

/// The first step for an inbound body, given the reading it decoded to, or
/// `None` where it did not decode. A reading leads to exactly one provider
/// call, with the request built for it; a body that did not decode is
/// answered with a client error and leads to none.
pub fn begin(decoded: Option<HealthReading>) -> (r: HandlerStep)
    ensures
        match decoded {
            None => r == HandlerStep::Respond(HandlerResponse::MalformedRequest),
            Some(reading) => match r {
                HandlerStep::CallProvider(req) => req@ == request_for(reading),
                HandlerStep::Respond(_) => false,
            },
        },
        decoded is None <==> r is Respond,
        r matches HandlerStep::Respond(resp) ==> is_client_error(status_of(resp)),
{
    match decoded {
        None => HandlerStep::Respond(HandlerResponse::MalformedRequest),
        Some(reading) => HandlerStep::CallProvider(build_request(&reading)),
    }
}

/// The response once the provider call has come back: the suggestion with
/// status 200, or a server error naming what failed.
pub fn finish(reply: &ProviderReply) -> (r: HandlerResponse)
    ensures
        match outcome_of(*reply) {
            Ok(text) => r matches HandlerResponse::Suggestion(res) && res.suggestion@ == text,
            Err(e) => r == HandlerResponse::UpstreamFailure(e),
        },
        outcome_of(*reply) is Ok <==> status_of(r) == 200,
        outcome_of(*reply) is Err <==> is_server_error(status_of(r)),
        *reply matches ProviderReply::Received { status, body } && (!is_success_status(status)
            || body is None) ==> is_server_error(status_of(r)),
{
    match interpret_reply(reply) {
        Ok(suggestion) => HandlerResponse::Suggestion(SuggestionResult { suggestion }),
        Err(e) => HandlerResponse::UpstreamFailure(e),
    }
}

} // verus!
