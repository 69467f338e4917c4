//! The fixed 12-byte DNS header and its bit-packed flags word.
//!
//! Wire layout, big-endian throughout: bytes 0-1 identification, bytes 2-3
//! the flags word, then the four 16-bit section counts. Within the flags
//! word, bit 15 is QR, bits 11-14 the opcode, bit 10 AA, bit 9 TC, bit 8 RD,
//! bit 7 RA, bits 4-6 are reserved and bits 0-3 the response code.
use vstd::prelude::*;

use crate::bufbytes::{bytes_mut_content, bytes_mut_put_u16};
use crate::errors::DnsError;
use crate::REQUEST_HEADER_SIZE;

verus! {

/// Whether a message is a query or a reply (bit 15 of the flags word).
#[derive(Debug, Clone, Copy, PartialEq, Eq, Structural)]
pub enum HeaderFlagQR {
    Query,
    Reply,
}

impl HeaderFlagQR {
    /// The message type encoded in a flags word.
    pub open spec fn spec_from_flags(flags: u16) -> HeaderFlagQR {
        if (flags >> 15) & 1 == 0 {
            HeaderFlagQR::Query
        } else {
            HeaderFlagQR::Reply
        }
    }

    /// This message type's contribution to the flags word.
    pub open spec fn spec_mask(self) -> u16 {
        match self {
            HeaderFlagQR::Query => 0x0000,
            HeaderFlagQR::Reply => 0x8000,
        }
    }

    pub fn from_flags(flags: u16) -> (r: Self)
        ensures
            r == Self::spec_from_flags(flags),
    {
        if (flags >> 15) & 1 == 0 {
            Self::Query
        } else {
            Self::Reply
        }
    }

    pub fn to_mask(&self) -> (r: u16)
        ensures
            r == self.spec_mask(),
    {
        match self {
            HeaderFlagQR::Query => 0x0000,
            HeaderFlagQR::Reply => 0x8000,
        }
    }
}

/// The kind of query (bits 11-14 of the flags word). Wire values other than
/// 1 and 2 — 0 and 3 through 15 alike — collapse to `Query`.
#[derive(Debug, Clone, Copy, PartialEq, Eq, Structural)]
pub enum HeaderFlagOpCode {
    Query,
    IQuery,
    Status,
}

impl HeaderFlagOpCode {
    /// The opcode encoded in a flags word.
    pub open spec fn spec_from_flags(flags: u16) -> HeaderFlagOpCode {
        let code_field = (flags >> 11) & 0xf;
        if code_field == 1 {
            HeaderFlagOpCode::IQuery
        } else if code_field == 2 {
            HeaderFlagOpCode::Status
        } else {
            HeaderFlagOpCode::Query
        }
    }

    /// This opcode's contribution to the flags word.
    pub open spec fn spec_mask(self) -> u16 {
        match self {
            HeaderFlagOpCode::Query => 0x0000,
            HeaderFlagOpCode::IQuery => 0x0800,
            HeaderFlagOpCode::Status => 0x1000,
        }
    }

    pub fn from_flags(flags: u16) -> (r: Self)
        ensures
            r == Self::spec_from_flags(flags),
    {
        let code_field = (flags >> 11) & 0xf;
        if code_field == 1 {
            Self::IQuery
        } else if code_field == 2 {
            Self::Status
        } else {
            Self::Query
        }
    }

    pub fn to_mask(&self) -> (r: u16)
        ensures
            r == self.spec_mask(),
    {
        match self {
            HeaderFlagOpCode::Query => 0x0000,
            HeaderFlagOpCode::IQuery => 0x0800,
            HeaderFlagOpCode::Status => 0x1000,
        }
    }
}

/// The outcome status of a reply (bits 0-3 of the flags word). Wire values
/// 6 through 15 collapse to `Unknown`, which re-encodes as 15.
#[derive(Debug, Clone, Copy, PartialEq, Eq, Structural)]
pub enum ResponseCode {
    NoError,
    FormatError,
    ServerFail,
    NonExistentDomain,
    NotImplemented,
    Refused,
    Unknown,
}

impl ResponseCode {
    /// The response code encoded in a flags word.
    pub open spec fn spec_from_flags(flags: u16) -> ResponseCode {
        let code = flags & 0xf;
        if code == 0 {
            ResponseCode::NoError
        } else if code == 1 {
            ResponseCode::FormatError
        } else if code == 2 {
            ResponseCode::ServerFail
        } else if code == 3 {
            ResponseCode::NonExistentDomain
        } else if code == 4 {
            ResponseCode::NotImplemented
        } else if code == 5 {
            ResponseCode::Refused
        } else {
            ResponseCode::Unknown
        }
    }

    /// This response code's contribution to the flags word.
    pub open spec fn spec_mask(self) -> u16 {
        match self {
            ResponseCode::NoError => 0,
            ResponseCode::FormatError => 1,
            ResponseCode::ServerFail => 2,
            ResponseCode::NonExistentDomain => 3,
            ResponseCode::NotImplemented => 4,
            ResponseCode::Refused => 5,
            ResponseCode::Unknown => 15,
        }
    }

    pub fn from_flags(flags: u16) -> (r: Self)
        ensures
            r == Self::spec_from_flags(flags),
    {
        let code = flags & 0xf;
        if code == 0 {
            Self::NoError
        } else if code == 1 {
            Self::FormatError
        } else if code == 2 {
            Self::ServerFail
        } else if code == 3 {
            Self::NonExistentDomain
        } else if code == 4 {
            Self::NotImplemented
        } else if code == 5 {
            Self::Refused
        } else {
            Self::Unknown
        }
    }

    pub fn to_mask(&self) -> (r: u16)
        ensures
            r == self.spec_mask(),
    {
        match self {
            ResponseCode::NoError => 0,
            ResponseCode::FormatError => 1,
            ResponseCode::ServerFail => 2,
            ResponseCode::NonExistentDomain => 3,
            ResponseCode::NotImplemented => 4,
            ResponseCode::Refused => 5,
            ResponseCode::Unknown => 15,
        }
    }
}

/// The big-endian 16-bit value spelled by two wire bytes.
pub open spec fn spec_be_u16(hi: u8, lo: u8) -> u16 {
    ((hi as u16) << 8) | (lo as u16)
}

/// Reads one big-endian 16-bit field from two wire bytes.
pub fn be_u16(hi: u8, lo: u8) -> (r: u16)
    ensures
        r == spec_be_u16(hi, lo),
{
    ((hi as u16) << 8) | (lo as u16)
}

/// The decoded form of the fixed 12-byte header. The three reserved flag
/// bits are not represented: they are ignored on decode and written as zero
/// on encode. The question count is informational only; it is never checked
/// against the number of questions actually parsed.
#[derive(Debug, Clone, Copy, PartialEq, Eq, Structural)]
pub struct DNSHeader {
    pub identification: u16,
    pub msg_type: HeaderFlagQR,
    pub opcode: HeaderFlagOpCode,
    pub authoritative: bool,
    pub truncation: bool,
    pub recursion_desired: bool,
    pub recursion_available: bool,
    pub response_code: ResponseCode,
    pub count_questions: u16,
    pub count_answers: u16,
    pub count_authorities: u16,
    pub count_additional: u16,
}

impl DNSHeader {
    /// The flags word this header encodes to; reserved bits stay zero.
    pub open spec fn spec_flags(self) -> u16 {
        let base = self.msg_type.spec_mask() | self.opcode.spec_mask()
            | self.response_code.spec_mask();
        let f1 = if self.authoritative {
            base | 0x0400u16
        } else {
            base
        };
        let f2 = if self.truncation {
            f1 | 0x0200u16
        } else {
            f1
        };
        let f3 = if self.recursion_desired {
            f2 | 0x0100u16
        } else {
            f2
        };
        if self.recursion_available {
            f3 | 0x0080u16
        } else {
            f3
        }
    }

    /// The exact 12 bytes this header encodes to.
    pub open spec fn spec_wire(self) -> Seq<u8> {
        let flags = self.spec_flags();
        seq![
            (self.identification >> 8) as u8,
            self.identification as u8,
            (flags >> 8) as u8,
            flags as u8,
            (self.count_questions >> 8) as u8,
            self.count_questions as u8,
            (self.count_answers >> 8) as u8,
            self.count_answers as u8,
            (self.count_authorities >> 8) as u8,
            self.count_authorities as u8,
            (self.count_additional >> 8) as u8,
            self.count_additional as u8,
        ]
    }

    /// The header spelled by 12 wire bytes.
    pub open spec fn spec_parse(s: Seq<u8>) -> DNSHeader
        recommends
            s.len() == REQUEST_HEADER_SIZE,
    {
        let flags = spec_be_u16(s[2], s[3]);
        DNSHeader {
            identification: spec_be_u16(s[0], s[1]),
            msg_type: HeaderFlagQR::spec_from_flags(flags),
            opcode: HeaderFlagOpCode::spec_from_flags(flags),
            authoritative: (flags >> 10) & 1 == 1,
            truncation: (flags >> 9) & 1 == 1,
            recursion_desired: (flags >> 8) & 1 == 1,
            recursion_available: (flags >> 7) & 1 == 1,
            response_code: ResponseCode::spec_from_flags(flags),
            count_questions: spec_be_u16(s[4], s[5]),
            count_answers: spec_be_u16(s[6], s[7]),
            count_authorities: spec_be_u16(s[8], s[9]),
            count_additional: spec_be_u16(s[10], s[11]),
        }
    }

    /// Decodes a header from exactly 12 bytes; any other length is a
    /// `FormatError`.
    pub fn from_bytes(bytes: &[u8]) -> (r: Result<Self, DnsError>)
        ensures
            r is Ok <==> bytes@.len() == REQUEST_HEADER_SIZE,
            r is Ok ==> r->Ok_0 == Self::spec_parse(bytes@),
            r is Err ==> r->Err_0 == DnsError::FormatError,
    {
        if bytes.len() != REQUEST_HEADER_SIZE {
            return Err(DnsError::FormatError);
        }

        let flags = be_u16(*vstd::slice::slice_index_get(bytes, 2), *vstd::slice::slice_index_get(
            bytes,
            3,
        ));
        Ok(
            Self {
                identification: be_u16(
                    *vstd::slice::slice_index_get(bytes, 0),
                    *vstd::slice::slice_index_get(bytes, 1),
                ),
                msg_type: HeaderFlagQR::from_flags(flags),
                opcode: HeaderFlagOpCode::from_flags(flags),
                authoritative: (flags >> 10) & 1 == 1,
                truncation: (flags >> 9) & 1 == 1,
                recursion_desired: (flags >> 8) & 1 == 1,
                recursion_available: (flags >> 7) & 1 == 1,
                response_code: ResponseCode::from_flags(flags),
                count_questions: be_u16(
                    *vstd::slice::slice_index_get(bytes, 4),
                    *vstd::slice::slice_index_get(bytes, 5),
                ),
                count_answers: be_u16(
                    *vstd::slice::slice_index_get(bytes, 6),
                    *vstd::slice::slice_index_get(bytes, 7),
                ),
                count_authorities: be_u16(
                    *vstd::slice::slice_index_get(bytes, 8),
                    *vstd::slice::slice_index_get(bytes, 9),
                ),
                count_additional: be_u16(
                    *vstd::slice::slice_index_get(bytes, 10),
                    *vstd::slice::slice_index_get(bytes, 11),
                ),
            },
        )
    }

    /// Encodes this header into an output buffer, which must still be empty:
    /// the header is always the first thing written into a reply.
    pub(crate) fn write_as_bytes(&self, output: &mut bytes::BytesMut)
        requires
            bytes_mut_content(*old(output)) == Seq::<u8>::empty(),
        ensures
            bytes_mut_content(*final(output)) == self.spec_wire(),
    {
        let mut flags = self.msg_type.to_mask() | self.opcode.to_mask()
            | self.response_code.to_mask();
        if self.authoritative {
            flags = flags | 0x0400;
        }
        if self.truncation {
            flags = flags | 0x0200;
        }
        if self.recursion_desired {
            flags = flags | 0x0100;
        }
        if self.recursion_available {
            flags = flags | 0x0080;
        }
        proof {
            assert(flags == self.spec_flags());
        }

        bytes_mut_put_u16(output, self.identification);
        bytes_mut_put_u16(output, flags);
        bytes_mut_put_u16(output, self.count_questions);
        bytes_mut_put_u16(output, self.count_answers);
        bytes_mut_put_u16(output, self.count_authorities);
        bytes_mut_put_u16(output, self.count_additional);
        proof {
            assert(bytes_mut_content(*output) =~= self.spec_wire());
        }
    }
}

/// Bit-level facts about a flags word assembled from field masks: every
/// field reads back out of the word unchanged.
proof fn lemma_flags_bits(q: u16, o: u16, rc: u16, aa: u16, tc: u16, rd: u16, ra: u16, f: u16)
    by (bit_vector)
    requires
        q == 0 || q == 0x8000,
        o == 0 || o == 0x0800 || o == 0x1000,
        rc <= 5 || rc == 15,
        aa == 0 || aa == 0x0400,
        tc == 0 || tc == 0x0200,
        rd == 0 || rd == 0x0100,
        ra == 0 || ra == 0x0080,
        f == ((((((q | o) | rc) | aa) | tc) | rd) | ra),
    ensures
        ((f >> 15) & 1 == 0) <==> (q == 0),
        (f >> 11) & 0xf == (o >> 11),
        ((f >> 10) & 1 == 1) <==> (aa != 0),
        ((f >> 9) & 1 == 1) <==> (tc != 0),
        ((f >> 8) & 1 == 1) <==> (rd != 0),
        ((f >> 7) & 1 == 1) <==> (ra != 0),
        f & 0xf == rc,
{
}

/// A 16-bit value survives the split into big-endian bytes.
proof fn lemma_be_u16_split(x: u16)
    by (bit_vector)
    ensures
        spec_be_u16((x >> 8) as u8, x as u8) == x,
{
}

/// Decoding an encoded header reproduces every field exactly. The three
/// reserved flag bits have no field to reproduce: the encoder always writes
/// them as zero, so they always decode as unset.
pub proof fn lemma_header_round_trip(h: DNSHeader)
    ensures
        DNSHeader::spec_parse(h.spec_wire()) == h,
{
    let q = h.msg_type.spec_mask();
    let o = h.opcode.spec_mask();
    let rc = h.response_code.spec_mask();
    let aa: u16 = if h.authoritative {
        0x0400
    } else {
        0
    };
    let tc: u16 = if h.truncation {
        0x0200
    } else {
        0
    };
    let rd: u16 = if h.recursion_desired {
        0x0100
    } else {
        0
    };
    let ra: u16 = if h.recursion_available {
        0x0080
    } else {
        0
    };
    let f = h.spec_flags();
    assert(f == ((((((q | o) | rc) | aa) | tc) | rd) | ra)) by {
        lemma_or_zero(q | o | rc);
        lemma_or_zero(((q | o) | rc) | aa);
        lemma_or_zero(((((q | o) | rc) | aa) | tc));
        lemma_or_zero(((((((q | o) | rc) | aa) | tc) | rd)));
    }
    lemma_flags_bits(q, o, rc, aa, tc, rd, ra, f);
    assert((o >> 11) == 0 || (o >> 11) == 1 || (o >> 11) == 2) by (bit_vector)
        requires
            o == 0 || o == 0x0800 || o == 0x1000,
    ;
    assert(o == 0x0800 ==> (o >> 11) == 1) by (bit_vector);
    assert(o == 0x1000 ==> (o >> 11) == 2) by (bit_vector);
    assert(o == 0 ==> (o >> 11) == 0) by (bit_vector);
    lemma_be_u16_split(h.identification);
    lemma_be_u16_split(f);
    lemma_be_u16_split(h.count_questions);
    lemma_be_u16_split(h.count_answers);
    lemma_be_u16_split(h.count_authorities);
    lemma_be_u16_split(h.count_additional);
}

/// Adding no set bits leaves a word unchanged.
proof fn lemma_or_zero(x: u16)
    by (bit_vector)
    ensures
        x | 0 == x,
{
}

/// Any response-code wire value from 6 through 15 decodes to `Unknown`,
/// and `Unknown` always re-encodes to wire value 15.
pub proof fn lemma_response_code_collapse(flags: u16)
    requires
        6 <= flags & 0xf,
    ensures
        ResponseCode::spec_from_flags(flags) == ResponseCode::Unknown,
        ResponseCode::Unknown.spec_mask() == 15,
{
    assert(flags & 0xf <= 15) by (bit_vector);
}

/// Any opcode wire value other than 1 and 2 — 0 and 3 through 15 alike —
/// decodes to `Query`.
pub proof fn lemma_opcode_collapse(flags: u16)
    requires
        (flags >> 11) & 0xf != 1,
        (flags >> 11) & 0xf != 2,
    ensures
        HeaderFlagOpCode::spec_from_flags(flags) == HeaderFlagOpCode::Query,
{
}

} // verus!
