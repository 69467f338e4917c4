//! The dispatcher's decision logic.
//!
//! Forwarding itself is outside work: the caller sends the original request
//! bytes upstream and hands whatever came of it — a decoded reply or an
//! error — back to `response_for_outcome`, which decides what the client
//! receives. A forwarding failure of any kind becomes a synthesized
//! ServerFail reply the client can still correlate; a successful forward is
//! passed through verbatim.
use vstd::prelude::*;

use crate::errors::DnsError;
use crate::header::{DNSHeader, HeaderFlagQR, ResponseCode};
use crate::response::DNSResponse;

verus! {

/// The header of the reply synthesized when forwarding fails:
/// identification, opcode and the authoritative flag are copied from the
/// request so the client can correlate the reply; the message type is
/// Reply; truncation, recursion-desired and recursion-available are
/// cleared; the response code is ServerFail; all four section counts are
/// zero.
pub open spec fn spec_failure_header(request_header: DNSHeader) -> DNSHeader {
    DNSHeader {
        identification: request_header.identification,
        msg_type: HeaderFlagQR::Reply,
        opcode: request_header.opcode,
        authoritative: request_header.authoritative,
        truncation: false,
        recursion_desired: false,
        recursion_available: false,
        response_code: ResponseCode::ServerFail,
        count_questions: 0,
        count_answers: 0,
        count_authorities: 0,
        count_additional: 0,
    }
}

/// Builds the synthesized ServerFail reply for a request that could not be
/// forwarded.
pub fn failure_response(request_header: &DNSHeader) -> (r: DNSResponse)
    ensures
        r.spec_header() == spec_failure_header(*request_header),
        r.spec_raw() is None,
{
    DNSResponse::empty(
        DNSHeader {
            identification: request_header.identification,
            msg_type: HeaderFlagQR::Reply,
            opcode: request_header.opcode,
            authoritative: request_header.authoritative,
            truncation: false,
            recursion_desired: false,
            recursion_available: false,
            response_code: ResponseCode::ServerFail,
            count_questions: 0,
            count_answers: 0,
            count_authorities: 0,
            count_additional: 0,
        },
    )
}

/// Decides the reply from a forwarding outcome: a successful forward is
/// returned verbatim; any failure becomes the synthesized ServerFail reply
/// for the request's header.
pub fn response_for_outcome(request_header: &DNSHeader, outcome: Result<DNSResponse, DnsError>) -> (
    r: DNSResponse)
    ensures
        outcome is Ok ==> r == outcome->Ok_0,
        outcome is Err ==> r.spec_header() == spec_failure_header(*request_header)
            && r.spec_raw() is None,
{
    match outcome {
        Ok(response) => response,
        Err(_) => failure_response(request_header),
    }
}

} // verus!
