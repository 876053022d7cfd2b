//! The two responses a connection can get.
//!
//! A decoded request is answered with a `200 OK` that reports its method, its
//! path and the number of its headers; anything else with a fixed
//! `400 Bad Request`.

use vstd::prelude::*;
use vstd::string::StringExecFns;
use crate::decode::outcome_view;
use crate::request::{ParseError, Request, RequestView};
use crate::text::{decimal, render_decimal};

verus! {

/// Status line and headers of the success response, with the blank line that
/// ends them.
///
/// The declared content length is part of the fixed text. It is not computed
/// from the body that follows and agrees with it only by coincidence.
pub open spec fn success_head() -> Seq<char> {
    "HTTP/1.1 200 OK\r\nContent-Type: text/plain\r\nContent-Length: 59\r\n\r\n"@
}

/// The body of the success response to `request`.
pub open spec fn success_body(request: RequestView) -> Seq<char> {
    "Received "@ + request.method + " request to "@ + request.path + " with "@ + decimal(
        request.headers.len(),
    ) + " headers"@
}

/// The whole success response to `request`.
pub open spec fn success_text(request: RequestView) -> Seq<char> {
    success_head() + success_body(request)
}

/// The whole failure response.
pub open spec fn failure_text() -> Seq<char> {
    "HTTP/1.1 400 Bad Request\r\n\r\nInvalid request"@
}

/// The response to a decoding outcome: every failure, whatever its kind, gets
/// the same text.
pub open spec fn response_text(outcome: Result<RequestView, ParseError>) -> Seq<char> {
    match outcome {
        Ok(request) => success_text(request),
        Err(_) => failure_text(),
    }
}

/// The response to a decoded request.
pub fn success_response(request: &Request) -> (response: String)
    ensures
        response@ == success_text(request@),
{
    let count = render_decimal(request.header_count());
    let mut response = String::from_str(
        "HTTP/1.1 200 OK\r\nContent-Type: text/plain\r\nContent-Length: 59\r\n\r\n",
    );
    response.append("Received ");
    response.append(request.method());
    response.append(" request to ");
    response.append(request.path());
    response.append(" with ");
    response.append(count.as_str());
    response.append(" headers");
    assert(response@ =~= success_text(request@));
    response
}

/// The response to a buffer that did not decode.
pub fn failure_response() -> (response: String)
    ensures
        response@ == failure_text(),
{
    String::from_str("HTTP/1.1 400 Bad Request\r\n\r\nInvalid request")
}

/// The response to a decoding outcome.
pub fn response_for(outcome: &Result<Request, ParseError>) -> (response: String)
    ensures
        response@ == response_text(outcome_view(*outcome)),
{
    match outcome {
        Ok(request) => success_response(request),
        Err(_) => failure_response(),
    }
}

/// Every failure gets the same response: the text does not tell one kind
/// from another.
pub proof fn lemma_failures_answer_alike(error: ParseError, other: ParseError)
    ensures
        response_text(Err(error)) == response_text(Err(other)),
{
}

/// The response tells success from failure: it is the failure text exactly
/// where decoding failed, and a success response starts with
/// [`success_head`] and ends with the body that reports the request.
pub proof fn lemma_response_tells_outcome(outcome: Result<RequestView, ParseError>)
    ensures
        response_text(outcome) == failure_text() <==> outcome is Err,
        outcome matches Ok(request) ==> {
            &&& success_head().is_prefix_of(response_text(outcome))
            &&& response_text(outcome).skip(success_head().len() as int) == success_body(
                request,
            )
        },
{
    reveal_strlit("HTTP/1.1 200 OK\r\nContent-Type: text/plain\r\nContent-Length: 59\r\n\r\n");
    reveal_strlit("HTTP/1.1 400 Bad Request\r\n\r\nInvalid request");
    if let Ok(request) = outcome {
        let text = response_text(outcome);
        assert(text[9] == success_head()[9]);
        assert(text.skip(success_head().len() as int) =~= success_body(request));
    }
}

} // verus!
