//! The question section and the request envelope.
//!
//! A request is the fixed 12-byte header followed by questions appended
//! back to back with no separator; parsing continues until the buffer is
//! exhausted, ignoring the header's question count. Every read is bounds
//! checked and yields a typed error rather than trapping.
use vstd::prelude::*;
use vstd::utf8::{decode_utf8, valid_utf8};

use crate::bufbytes::{bytes_as_slice, bytes_content};
use crate::domain_name::{
    lemma_parse_labels_bounds, lower_of, parse_labels, spec_joined, spec_parse_labels, DomainName,
};
use crate::errors::DnsError;
use crate::header::{be_u16, spec_be_u16, DNSHeader};
use crate::record_type::RecordType;
use crate::REQUEST_HEADER_SIZE;

verus! {

/// A question asks the server for a record of one type under one domain
/// name. On the wire it is a label run, then a 2-byte record type code,
/// then a 2-byte class code that is read but never validated.
#[derive(Debug)]
pub struct DNSQuestion {
    pub record_type: RecordType,
    pub domain_name: String,
}

/// The mathematical content of a decoded question.
pub struct QuestionModel {
    pub record_type: RecordType,
    pub name: Seq<char>,
}

impl View for DNSQuestion {
    type V = QuestionModel;

    open spec fn view(&self) -> QuestionModel {
        QuestionModel { record_type: self.record_type, name: self.domain_name@ }
    }
}

/// Parses questions out of `s` from position `i` until the buffer is
/// exhausted. Each step reads a label run, lowercases its dotted text,
/// resolves the record type code and skips the class bytes; the first
/// failure aborts the whole list.
pub open spec fn spec_parse_questions(s: Seq<u8>, i: nat) -> Result<Seq<QuestionModel>, DnsError>
    decreases s.len() - i,
    via spec_parse_questions_decreases
{
    if i >= s.len() {
        Ok(Seq::empty())
    } else {
        match spec_parse_labels(s, i) {
            None => Err(DnsError::FormatError),
            Some(p) => {
                let end = p.0;
                let joined = spec_joined(p.1);
                if !valid_utf8(joined) {
                    Err(DnsError::EncodingError)
                } else if end + 2 > s.len() {
                    Err(DnsError::FormatError)
                } else {
                    match RecordType::spec_from_code(
                        spec_be_u16(s[end as int], s[end + 1 as int]),
                    ) {
                        None => Err(DnsError::UnknownRecordType),
                        Some(rt) => {
                            if end + 4 > s.len() {
                                Err(DnsError::FormatError)
                            } else {
                                match spec_parse_questions(s, (end + 4) as nat) {
                                    Err(e) => Err(e),
                                    Ok(rest) => Ok(
                                        seq![
                                            QuestionModel {
                                                record_type: rt,
                                                name: lower_of(decode_utf8(joined)),
                                            },
                                        ] + rest,
                                    ),
                                }
                            }
                        },
                    }
                }
            },
        }
    }
}

#[via_fn]
proof fn spec_parse_questions_decreases(s: Seq<u8>, i: nat) {
    if i < s.len() && spec_parse_labels(s, i) is Some {
        lemma_parse_labels_bounds(s, i);
    }
}

/// Reads questions from position `start` to the end of the buffer.
pub(crate) fn parse_questions_from(bytes: &[u8], start: usize) -> (r: Result<
    Vec<DNSQuestion>,
    DnsError,
>)
    requires
        start <= bytes@.len(),
    ensures
        match spec_parse_questions(bytes@, start as nat) {
            Ok(qs) => r is Ok && r->Ok_0@.map_values(|q: DNSQuestion| q@) == qs,
            Err(e) => r is Err && r->Err_0 == e,
        },
    decreases bytes@.len() - start,
{
    if start >= bytes.len() {
        let questions: Vec<DNSQuestion> = Vec::new();
        proof {
            assert(questions@.map_values(|q: DNSQuestion| q@) =~= Seq::<QuestionModel>::empty());
        }
        return Ok(questions);
    }
    let (end, parts) = match parse_labels(bytes, start) {
        Ok(p) => p,
        Err(e) => return Err(e),
    };
    proof {
        lemma_parse_labels_bounds(bytes@, start as nat);
    }
    let name = DomainName { parts };
    let domain_name = match name.to_string() {
        Ok(text) => text,
        Err(e) => return Err(e),
    };
    if bytes.len() - end < 2 {
        return Err(DnsError::FormatError);
    }
    let record_type_id = be_u16(
        *vstd::slice::slice_index_get(bytes, end),
        *vstd::slice::slice_index_get(bytes, end + 1),
    );
    let record_type = match RecordType::try_from(record_type_id) {
        Ok(rt) => rt,
        Err(e) => return Err(e),
    };
    if bytes.len() - end < 4 {
        return Err(DnsError::FormatError);
    }
    let mut questions = match parse_questions_from(bytes, end + 4) {
        Ok(rest) => rest,
        Err(e) => return Err(e),
    };
    questions.insert(0, DNSQuestion { record_type, domain_name });
    proof {
        let spec_rest = spec_parse_questions(bytes@, (end + 4) as nat)->Ok_0;
        let p = spec_parse_labels(bytes@, start as nat)->Some_0;
        assert(questions@.map_values(|q: DNSQuestion| q@) =~= seq![
            QuestionModel {
                record_type: RecordType::spec_from_code(
                    spec_be_u16(bytes@[end as int], bytes@[end + 1 as int]),
                )->Some_0,
                name: lower_of(decode_utf8(spec_joined(p.1))),
            },
        ] + spec_rest);
    }
    Ok(questions)
}

impl DNSQuestion {
    /// Parses the whole question section, the bytes that follow the header.
    pub fn parse(bytes: &[u8]) -> (r: Result<Vec<DNSQuestion>, DnsError>)
        ensures
            match spec_parse_questions(bytes@, 0) {
                Ok(qs) => r is Ok && r->Ok_0@.map_values(|q: DNSQuestion| q@) == qs,
                Err(e) => r is Err && r->Err_0 == e,
            },
    {
        parse_questions_from(bytes, 0)
    }
}

/// A decoded request: the common header and the question list.
#[derive(Debug)]
pub struct DNSRequest {
    pub header: DNSHeader,
    pub questions: Vec<DNSQuestion>,
}

impl DNSRequest {
    /// Decodes an inbound datagram. Fewer than 12 bytes fail with
    /// `InvalidHeaderSize`; any header or question failure aborts the whole
    /// request with no partial result.
    pub fn from_bytes(request_bytes: &bytes::Bytes) -> (r: Result<DNSRequest, DnsError>)
        ensures
            ({
                let s = bytes_content(*request_bytes);
                &&& s.len() < REQUEST_HEADER_SIZE ==> r is Err && r->Err_0
                    == DnsError::InvalidHeaderSize
                &&& s.len() >= REQUEST_HEADER_SIZE ==> match spec_parse_questions(
                    s,
                    REQUEST_HEADER_SIZE as nat,
                ) {
                    Ok(qs) => r is Ok && r->Ok_0.header == DNSHeader::spec_parse(
                        s.subrange(0, REQUEST_HEADER_SIZE as int),
                    ) && r->Ok_0.questions@.map_values(|q: DNSQuestion| q@) == qs,
                    Err(e) => r is Err && r->Err_0 == e,
                }
            }),
    {
        let s = bytes_as_slice(request_bytes);
        if s.len() < REQUEST_HEADER_SIZE {
            return Err(DnsError::InvalidHeaderSize);
        }
        let header_bytes = vstd::slice::slice_subrange(s, 0, REQUEST_HEADER_SIZE);
        let header = match DNSHeader::from_bytes(header_bytes) {
            Ok(h) => h,
            Err(e) => return Err(e),
        };
        let questions = match parse_questions_from(s, REQUEST_HEADER_SIZE) {
            Ok(qs) => qs,
            Err(e) => return Err(e),
        };
        Ok(DNSRequest { header, questions })
    }
}

} // verus!
