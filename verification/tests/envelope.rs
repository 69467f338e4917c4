//! Request/response envelope and dispatcher tests.
use bytes::Bytes;

use dns_relay::{response_for_outcome, DNSRequest, DNSResponse, DnsError, HeaderFlagOpCode,
    HeaderFlagQR, RecordType, ResponseCode};

#[test]
fn data_request_from_bytes_fails_when_header_is_too_short() {
    let bytes: Bytes = Bytes::from(vec![0x00]);
    assert!(DNSRequest::from_bytes(&bytes).is_err());
}

#[test]
fn request_request_from_bytes_fails_when_header_is_too_short() {
    let bytes = Bytes::from(vec![0x00]);
    assert!(DNSRequest::from_bytes(&bytes).is_err());
}

#[test]
fn request_from_bytes_should_work_without_questions() {
    let bytes = Bytes::from(vec![
        0x12, 0x34, 0x01, 0x00, 0x00, 0x00, 0x00, 0x00, 0x00, 0x00, 0x00, 0x00,
    ]);
    let request = DNSRequest::from_bytes(&bytes).unwrap();
    assert_eq!(HeaderFlagQR::Query, request.header.msg_type);
    assert!(request.questions.is_empty());
}

#[test]
fn request_from_bytes_should_work_with_one_question() {
    let bytes = Bytes::from(vec![
        0x12, 0x34, 0x01, 0x00, 0x00, 0x00, 0x00, 0x00, 0x00, 0x00, 0x00, 0x00, 0x03, 0x7a,
        0x7a, 0x7a, 0x02, 0x41, 0x41, 0x00, 0x00, 0x01, 0x00, 0x01,
    ]);
    let request = DNSRequest::from_bytes(&bytes).unwrap();
    assert_eq!(1, request.questions.len());
}

#[test]
fn too_short_request_fails_with_invalid_header_size() {
    let bytes = Bytes::from(vec![0x00]);
    assert_eq!(
        Err(DnsError::InvalidHeaderSize),
        DNSRequest::from_bytes(&bytes).map(|r| r.header.identification)
    );
}

#[test]
fn header_only_request_has_identification_and_no_questions() {
    let bytes = Bytes::from(vec![
        0x12, 0x34, 0x01, 0x00, 0x00, 0x00, 0x00, 0x00, 0x00, 0x00, 0x00, 0x00,
    ]);
    let request = DNSRequest::from_bytes(&bytes).unwrap();
    assert_eq!(0x1234, request.header.identification);
    assert!(request.questions.is_empty());
}

#[test]
fn question_parses_name_and_record_type() {
    let bytes = Bytes::from(vec![
        0x12, 0x34, 0x01, 0x00, 0x00, 0x01, 0x00, 0x00, 0x00, 0x00, 0x00, 0x00, 0x03, 0x7a,
        0x7a, 0x7a, 0x02, 0x41, 0x41, 0x00, 0x00, 0x01, 0x00, 0x01,
    ]);
    let request = DNSRequest::from_bytes(&bytes).unwrap();
    assert_eq!(1, request.questions.len());
    assert_eq!(RecordType::A, request.questions[0].record_type);
    assert_eq!("zzz.aa", request.questions[0].domain_name);
}

#[test]
fn unassigned_record_type_code_aborts_the_whole_question_list() {
    // A valid A-record question followed by one with type code 0x0003.
    let bytes = Bytes::from(vec![
        0x12, 0x34, 0x01, 0x00, 0x00, 0x02, 0x00, 0x00, 0x00, 0x00, 0x00, 0x00, 0x01, 0x61,
        0x00, 0x00, 0x01, 0x00, 0x01, 0x01, 0x62, 0x00, 0x00, 0x03, 0x00, 0x01,
    ]);
    assert_eq!(
        Err(DnsError::UnknownRecordType),
        DNSRequest::from_bytes(&bytes).map(|r| r.questions.len())
    );
}

#[test]
fn truncated_question_fails_with_format_error() {
    // The type code is cut off after one byte.
    let bytes = Bytes::from(vec![
        0x12, 0x34, 0x01, 0x00, 0x00, 0x01, 0x00, 0x00, 0x00, 0x00, 0x00, 0x00, 0x01, 0x61,
        0x00, 0x00,
    ]);
    assert_eq!(
        Err(DnsError::FormatError),
        DNSRequest::from_bytes(&bytes).map(|r| r.questions.len())
    );
}

#[test]
fn question_with_broken_text_fails_with_encoding_error() {
    let bytes = Bytes::from(vec![
        0x12, 0x34, 0x01, 0x00, 0x00, 0x01, 0x00, 0x00, 0x00, 0x00, 0x00, 0x00, 0x02, 0x80,
        0x80, 0x00, 0x00, 0x01, 0x00, 0x01,
    ]);
    assert_eq!(
        Err(DnsError::EncodingError),
        DNSRequest::from_bytes(&bytes).map(|r| r.questions.len())
    );
}

#[test]
fn response_decode_requires_twelve_bytes() {
    let bytes = Bytes::from(vec![0x12, 0x34, 0x01]);
    assert!(matches!(
        DNSResponse::from_bytes(bytes),
        Err(DnsError::InvalidHeaderSize)
    ));
}

#[test]
fn response_passes_upstream_bytes_through_verbatim() {
    let raw = vec![
        0x12, 0x34, 0x81, 0x80, 0x00, 0x01, 0x00, 0x01, 0x00, 0x00, 0x00, 0x00, 0xde, 0xad,
        0xbe, 0xef,
    ];
    let response = DNSResponse::from_bytes(Bytes::from(raw.clone())).unwrap();
    assert_eq!(0x1234, response.header.identification);
    assert_eq!(HeaderFlagQR::Reply, response.header.msg_type);
    let sent = response.to_bytes().unwrap();
    assert_eq!(&raw[..], &sent[..]);
}

#[test]
fn header_survives_encode_decode_with_reserved_bits_cleared() {
    // Flags 0x95f3: reply, opcode Status, AA, RD, RA, response code 3, and
    // all three reserved bits set on the way in. Re-encoding keeps every
    // field and writes the reserved bits as zero.
    let original = [
        0xab, 0xcd, 0x95, 0xf3, 0x00, 0x01, 0x00, 0x02, 0x00, 0x03, 0x00, 0x04,
    ];
    let header = decode_header(&original);
    let encoded = DNSResponse::empty(header).to_bytes().unwrap();
    let expected = [
        0xab, 0xcd, 0x95, 0x83, 0x00, 0x01, 0x00, 0x02, 0x00, 0x03, 0x00, 0x04,
    ];
    assert_eq!(&expected[..], &encoded[..]);
    let again = decode_header(&expected);
    assert_eq!(header, again);
}

fn decode_header(bytes: &[u8]) -> dns_relay::DNSHeader {
    dns_relay::DNSHeader::from_bytes(bytes).unwrap()
}

#[test]
fn unknown_response_code_reencodes_to_fifteen() {
    // Wire response code 9 decodes to Unknown and re-encodes as 15.
    let bytes = [0x12, 0x34, 0x80, 0x09, 0x00, 0x00, 0x00, 0x00, 0x00, 0x00, 0x00, 0x00];
    let header = decode_header(&bytes);
    assert_eq!(ResponseCode::Unknown, header.response_code);
    let encoded = DNSResponse::empty(header).to_bytes().unwrap();
    assert_eq!(0x0f, encoded[3] & 0x0f);
}

#[test]
fn failed_forward_synthesizes_server_fail_reply() {
    let bytes = Bytes::from(vec![
        0xab, 0xcd, 0x0d, 0x00, 0x00, 0x01, 0x00, 0x00, 0x00, 0x00, 0x00, 0x00,
    ]);
    let request = DNSRequest::from_bytes(&bytes).unwrap();
    assert_eq!(HeaderFlagOpCode::IQuery, request.header.opcode);
    assert!(request.header.authoritative);
    let reply = response_for_outcome(&request.header, Err(DnsError::NetworkError));
    assert_eq!(0xabcd, reply.header.identification);
    assert_eq!(HeaderFlagQR::Reply, reply.header.msg_type);
    assert_eq!(request.header.opcode, reply.header.opcode);
    assert!(reply.header.authoritative);
    assert!(!reply.header.truncation);
    assert!(!reply.header.recursion_desired);
    assert!(!reply.header.recursion_available);
    assert_eq!(ResponseCode::ServerFail, reply.header.response_code);
    assert_eq!(0, reply.header.count_questions);
    assert_eq!(0, reply.header.count_answers);
    assert_eq!(0, reply.header.count_authorities);
    assert_eq!(0, reply.header.count_additional);
    let sent = reply.to_bytes().unwrap();
    assert_eq!(
        &[0xab, 0xcd, 0x8c, 0x02, 0x00, 0x00, 0x00, 0x00, 0x00, 0x00, 0x00, 0x00][..],
        &sent[..]
    );
}

#[test]
fn successful_forward_is_returned_verbatim() {
    let request_bytes = Bytes::from(vec![
        0x12, 0x34, 0x01, 0x00, 0x00, 0x00, 0x00, 0x00, 0x00, 0x00, 0x00, 0x00,
    ]);
    let request = DNSRequest::from_bytes(&request_bytes).unwrap();
    let upstream = vec![
        0x12, 0x34, 0x81, 0x80, 0x00, 0x00, 0x00, 0x00, 0x00, 0x00, 0x00, 0x00, 0x01,
    ];
    let response = DNSResponse::from_bytes(Bytes::from(upstream.clone())).unwrap();
    let reply = response_for_outcome(&request.header, Ok(response));
    let sent = reply.to_bytes().unwrap();
    assert_eq!(&upstream[..], &sent[..]);
}
