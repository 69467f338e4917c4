//! A minimal DNS message codec and forwarding-resolver core.
//!
//! The wire-format codec (bit-packed header, label-sequence domain names,
//! record-type registry, question-section parsing) and the dispatcher's
//! decision logic live here, with verified contracts. Socket handling and
//! the asynchronous listener loop live outside the library.
use vstd::prelude::*;

mod bufbytes;
mod config;
mod domain_name;
mod errors;
mod handler;
mod header;
mod record_type;
mod request;
mod response;
mod server;

pub use bufbytes::bytes_content;
pub use config::ServerConfig;
pub use domain_name::{
    lemma_parse_labels_bounds, lower_of, parts_view, spec_joined, spec_parse_labels, DomainName,
};
pub use errors::DnsError;
pub use handler::{failure_response, response_for_outcome, spec_failure_header};
pub use header::{
    lemma_header_round_trip, lemma_opcode_collapse, lemma_response_code_collapse, spec_be_u16,
    DNSHeader, HeaderFlagOpCode, HeaderFlagQR, ResponseCode,
};
pub use record_type::{lemma_record_type_bijective, RecordType};
pub use request::{spec_parse_questions, DNSQuestion, DNSRequest, QuestionModel};
pub use response::DNSResponse;
pub use server::DNSServer;

verus! {

/// A DNS header always occupies exactly 12 bytes on the wire.
pub const REQUEST_HEADER_SIZE: usize = 12;

/// Largest datagram the resolver will accept from the upstream server.
pub const MAX_DNS_PACKET_SIZE: usize = 512;

} // verus!
