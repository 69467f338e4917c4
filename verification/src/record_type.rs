//! The closed registry of supported resource-record types.
//!
//! Exactly eight 16-bit wire codes are recognised. There is no opaque
//! fallback variant: any other code is a parse error, and one unsupported
//! code anywhere in a question section aborts parsing of the whole message.
use vstd::prelude::*;

use crate::errors::DnsError;

verus! {

/// A supported resource-record kind.
#[derive(Debug, Clone, Copy, PartialEq, Eq, Structural)]
pub enum RecordType {
    A,
    AAAA,
    CNAME,
    MX,
    NS,
    SOA,
    SRV,
    TXT,
}

impl RecordType {
    /// The record kind registered for a wire code, if any.
    pub open spec fn spec_from_code(code: u16) -> Option<RecordType> {
        if code == 1 {
            Some(RecordType::A)
        } else if code == 28 {
            Some(RecordType::AAAA)
        } else if code == 5 {
            Some(RecordType::CNAME)
        } else if code == 15 {
            Some(RecordType::MX)
        } else if code == 2 {
            Some(RecordType::NS)
        } else if code == 6 {
            Some(RecordType::SOA)
        } else if code == 33 {
            Some(RecordType::SRV)
        } else if code == 16 {
            Some(RecordType::TXT)
        } else {
            None
        }
    }

    /// The wire code registered for a record kind.
    pub open spec fn spec_code(self) -> u16 {
        match self {
            RecordType::A => 1,
            RecordType::AAAA => 28,
            RecordType::CNAME => 5,
            RecordType::MX => 15,
            RecordType::NS => 2,
            RecordType::SOA => 6,
            RecordType::SRV => 33,
            RecordType::TXT => 16,
        }
    }

    /// Resolves a wire code; unregistered codes fail with
    /// `UnknownRecordType`.
    pub fn try_from(value: u16) -> (r: Result<Self, DnsError>)
        ensures
            r is Ok <==> Self::spec_from_code(value) is Some,
            r is Ok ==> r->Ok_0 == Self::spec_from_code(value)->Some_0,
            r is Err ==> r->Err_0 == DnsError::UnknownRecordType,
    {
        match value {
            1 => Ok(Self::A),
            28 => Ok(Self::AAAA),
            5 => Ok(Self::CNAME),
            15 => Ok(Self::MX),
            2 => Ok(Self::NS),
            6 => Ok(Self::SOA),
            33 => Ok(Self::SRV),
            16 => Ok(Self::TXT),
            _ => Err(DnsError::UnknownRecordType),
        }
    }

    /// The wire code of this record kind.
    pub fn into(self) -> (r: u16)
        ensures
            r == self.spec_code(),
    {
        match self {
            RecordType::A => 1,
            RecordType::AAAA => 28,
            RecordType::CNAME => 5,
            RecordType::MX => 15,
            RecordType::NS => 2,
            RecordType::SOA => 6,
            RecordType::SRV => 33,
            RecordType::TXT => 16,
        }
    }
}

/// The registry is a two-way mapping: every record kind decodes back from
/// its own wire code, and every registered code re-encodes to itself.
pub proof fn lemma_record_type_bijective(rt: RecordType, code: u16)
    ensures
        RecordType::spec_from_code(rt.spec_code()) == Some(rt),
        RecordType::spec_from_code(code) is Some
            ==> RecordType::spec_from_code(code)->Some_0.spec_code() == code,
{
}

} // verus!
