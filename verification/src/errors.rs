use vstd::prelude::*;

verus! {

/// Every failure the codec and the forwarding core can report.
///
/// - `FormatError`: header or question bytes are malformed, truncated
///   mid-field, or a read would run past the end of the buffer.
/// - `UnknownRecordType`: a record type code outside the supported set;
///   fatal to the whole question list.
/// - `EncodingError`: a domain label is not valid text, raised only when a
///   name is turned into a string.
/// - `NetworkError`: a socket bind, send or receive failed while forwarding.
/// - `Timeout`: the upstream resolver did not answer in time.
/// - `InvalidHeaderSize`: fewer than 12 bytes were supplied to a header or
///   envelope decode.
#[derive(Debug, Clone, Copy, PartialEq, Eq, Structural)]
pub enum DnsError {
    FormatError,
    UnknownRecordType,
    EncodingError,
    NetworkError,
    Timeout,
    InvalidHeaderSize,
}

impl DnsError {
    /// A short human-readable description of the failure.
    pub fn describe(&self) -> (r: &'static str)
        ensures
            r@ == match *self {
                DnsError::FormatError => "malformed message bytes"@,
                DnsError::UnknownRecordType => "unknown record type id"@,
                DnsError::EncodingError => "domain name contained broken text"@,
                DnsError::NetworkError => "network failure while forwarding"@,
                DnsError::Timeout => "upstream resolver timed out"@,
                DnsError::InvalidHeaderSize => "invalid request header size"@,
            },
    {
        match self {
            DnsError::FormatError => "malformed message bytes",
            DnsError::UnknownRecordType => "unknown record type id",
            DnsError::EncodingError => "domain name contained broken text",
            DnsError::NetworkError => "network failure while forwarding",
            DnsError::Timeout => "upstream resolver timed out",
            DnsError::InvalidHeaderSize => "invalid request header size",
        }
    }
}

} // verus!
