//! The response envelope.
//!
//! A response is built one of two ways. Decoding an upstream reply keeps
//! the entire original buffer verbatim (raw passthrough), so the answer
//! sections this codec cannot parse are relayed byte for byte. A
//! synthesized response carries a header alone and serializes to exactly
//! those 12 bytes.
use vstd::prelude::*;

use crate::bufbytes::{
    bytes_as_slice, bytes_content, bytes_mut_content, bytes_mut_freeze, bytes_mut_with_capacity,
};
use crate::errors::DnsError;
use crate::header::DNSHeader;
use crate::REQUEST_HEADER_SIZE;

verus! {

/// A reply to be written back to the client.
#[derive(Debug)]
pub struct DNSResponse {
    pub header: DNSHeader,
    raw_bytes: Option<bytes::Bytes>,
}

impl DNSResponse {
    /// The decoded header this response carries.
    pub closed spec fn spec_header(&self) -> DNSHeader {
        self.header
    }

    /// The retained upstream buffer, if this response was decoded from one.
    pub closed spec fn spec_raw(&self) -> Option<bytes::Bytes> {
        self.raw_bytes
    }

    /// The exact bytes this response puts on the wire: the retained buffer
    /// verbatim, or the serialized header alone.
    pub open spec fn spec_wire(&self) -> Seq<u8> {
        match self.spec_raw() {
            Some(raw) => bytes_content(raw),
            None => self.spec_header().spec_wire(),
        }
    }

    /// Serializes the header alone; a synthesized response has no body.
    fn serialize(self) -> (r: Result<bytes::Bytes, DnsError>)
        ensures
            r is Ok,
            bytes_content(r->Ok_0) == self.header.spec_wire(),
    {
        let mut bytes = bytes_mut_with_capacity(REQUEST_HEADER_SIZE);
        self.header.write_as_bytes(&mut bytes);
        Ok(bytes_mut_freeze(bytes))
    }

    /// The bytes to send back: the raw passthrough buffer unmodified when
    /// one was retained, else the serialized header.
    pub fn to_bytes(self) -> (r: Result<bytes::Bytes, DnsError>)
        ensures
            r is Ok,
            bytes_content(r->Ok_0) == self.spec_wire(),
    {
        match self.raw_bytes {
            Some(bytes) => Ok(bytes),
            None => self.serialize(),
        }
    }

    /// A synthesized response: a header with nothing behind it.
    pub fn empty(header: DNSHeader) -> (r: Self)
        ensures
            r.spec_header() == header,
            r.spec_raw() is None,
    {
        DNSResponse { header, raw_bytes: None }
    }

    /// Decodes an upstream reply: at least 12 bytes, of which the first 12
    /// become the header, while the whole buffer is retained verbatim. No
    /// section beyond the header is parsed.
    pub fn from_bytes(response_bytes: bytes::Bytes) -> (r: Result<Self, DnsError>)
        ensures
            ({
                let s = bytes_content(response_bytes);
                &&& r is Ok <==> s.len() >= REQUEST_HEADER_SIZE
                &&& r is Ok ==> r->Ok_0.spec_header() == DNSHeader::spec_parse(
                    s.subrange(0, REQUEST_HEADER_SIZE as int),
                ) && r->Ok_0.spec_raw() == Some(response_bytes)
                &&& r is Err ==> r->Err_0 == DnsError::InvalidHeaderSize
            }),
    {
        let s = bytes_as_slice(&response_bytes);
        if s.len() < REQUEST_HEADER_SIZE {
            return Err(DnsError::InvalidHeaderSize);
        }
        let header_bytes = vstd::slice::slice_subrange(s, 0, REQUEST_HEADER_SIZE);
        let header = match DNSHeader::from_bytes(header_bytes) {
            Ok(h) => h,
            Err(e) => return Err(e),
        };
        Ok(Self { header, raw_bytes: Some(response_bytes) })
    }
}

} // verus!
