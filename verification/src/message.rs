//! The parts of a DNS message header and of its EDNS record that the server decides on.

use vstd::prelude::*;

verus! {

/// Response code: no error.
pub const NO_ERROR: u16 = 0;
/// Response code: the request was malformed.
pub const FORM_ERR: u16 = 1;
/// Response code: the server failed.
pub const SERV_FAIL: u16 = 2;
/// Response code: the name does not exist.
pub const NX_DOMAIN: u16 = 3;
/// Response code: the operation is not implemented.
pub const NOT_IMP: u16 = 4;
/// Response code: the request was refused.
pub const REFUSED: u16 = 5;
/// Response code: the server is not authoritative for the zone.
pub const NOT_AUTH: u16 = 9;
/// Extended response code: the EDNS version is not supported.
pub const BADVERS: u16 = 16;

/// Record type code of NS.
pub const NS: u16 = 2;

/// Record type code of SOA.
pub const SOA: u16 = 6;

/// The EDNS version this server implements.
pub const EDNS_VERSION: u8 = 0;

/// The smallest payload size that EDNS lets a peer announce.
pub const MIN_PAYLOAD: u16 = 512;

/// Whether a message asks or answers.
#[derive(Debug, Clone, Copy, PartialEq, Eq, Structural)]
pub enum MessageType {
    Query,
    Response,
}

/// The kind of request a message makes.
#[derive(Debug, Clone, Copy, PartialEq, Eq, Structural)]
pub enum OpCode {
    Query,
    Status,
    Notify,
    Update,
}

/// A message header, without its section counts; `response_code` holds the full
/// (extended) response code.
#[derive(Debug, Clone, Copy, PartialEq, Eq, Structural)]
pub struct MessageHeader {
    pub id: u16,
    pub message_type: MessageType,
    pub op_code: OpCode,
    pub authoritative: bool,
    pub truncation: bool,
    pub recursion_desired: bool,
    pub recursion_available: bool,
    pub authentic_data: bool,
    pub checking_disabled: bool,
    pub response_code: u16,
}

/// The EDNS values of a message (its options left aside).
#[derive(Debug, Clone, Copy, PartialEq, Eq, Structural)]
pub struct EdnsInfo {
    pub rcode_high: u8,
    pub version: u8,
    pub dnssec_ok: bool,
    pub max_payload: u16,
}

/// The header a response to `request` starts from: the request's id, op code, and
/// recursion-desired and checking-disabled bits, marked as a response, every other flag
/// clear and no error.
pub open spec fn spec_response_from_request(request: MessageHeader) -> MessageHeader {
    MessageHeader {
        id: request.id,
        message_type: MessageType::Response,
        op_code: request.op_code,
        authoritative: false,
        truncation: false,
        recursion_desired: request.recursion_desired,
        recursion_available: false,
        authentic_data: false,
        checking_disabled: request.checking_disabled,
        response_code: NO_ERROR,
    }
}

/// The header of a response to `request`.
pub fn response_from_request(request: &MessageHeader) -> (r: MessageHeader)
    ensures
        r == spec_response_from_request(*request),
        r.id == request.id,
        r.op_code == request.op_code,
        r.message_type == MessageType::Response,
        r.response_code == NO_ERROR,
{
    MessageHeader {
        id: request.id,
        message_type: MessageType::Response,
        op_code: request.op_code,
        authoritative: false,
        truncation: false,
        recursion_desired: request.recursion_desired,
        recursion_available: false,
        authentic_data: false,
        checking_disabled: request.checking_disabled,
        response_code: NO_ERROR,
    }
}

/// The header of an error message answering `request` with `code`.
pub open spec fn spec_error_header(request: MessageHeader, code: u16) -> MessageHeader {
    MessageHeader { response_code: code, ..spec_response_from_request(request) }
}

/// The header of an error message answering `request` with `code`.
pub fn error_header(request: &MessageHeader, code: u16) -> (r: MessageHeader)
    ensures
        r == spec_error_header(*request, code),
{
    let mut r = response_from_request(request);
    r.response_code = code;
    r
}

/// The bits of a response code above the four the header holds, as EDNS carries them.
pub open spec fn spec_rcode_high(code: u16) -> u8 {
    ((code / 16) % 256) as u8
}

/// The high eight bits of a twelve-bit response code.
pub fn rcode_high(code: u16) -> (r: u8)
    ensures
        r == spec_rcode_high(code),
{
    let v: u16 = (code & 0x0FF0) >> 4;
    assert(((code & 0x0FF0) >> 4) == (code / 16) % 256) by (bit_vector);
    v as u8
}

/// A header with every field at its default: id 0, a query, no flag, no error.
pub open spec fn spec_default_header() -> MessageHeader {
    MessageHeader {
        id: 0,
        message_type: MessageType::Query,
        op_code: OpCode::Query,
        authoritative: false,
        truncation: false,
        recursion_desired: false,
        recursion_available: false,
        authentic_data: false,
        checking_disabled: false,
        response_code: NO_ERROR,
    }
}

impl Default for MessageHeader {
    fn default() -> (r: Self)
        ensures
            r == spec_default_header(),
            r.id == 0 && r.response_code == NO_ERROR,
            !r.authoritative && !r.truncation && !r.recursion_desired,
            !r.recursion_available && !r.authentic_data && !r.checking_disabled,
    {
        MessageHeader {
            id: 0,
            message_type: MessageType::Query,
            op_code: OpCode::Query,
            authoritative: false,
            truncation: false,
            recursion_desired: false,
            recursion_available: false,
            authentic_data: false,
            checking_disabled: false,
            response_code: NO_ERROR,
        }
    }
}

/// A response answers the request it was made from: it carries the request's id and op
/// code (a NOTIFY is answered as a NOTIFY, an UPDATE as an UPDATE), is marked as a
/// response, and keeps of the request's flags only recursion-desired and checking-disabled.
pub proof fn law_response_carries_the_request_identity(request: MessageHeader)
    ensures
        spec_response_from_request(request).id == request.id,
        spec_response_from_request(request).op_code == request.op_code,
        spec_response_from_request(request).message_type == MessageType::Response,
        spec_response_from_request(request).response_code == NO_ERROR,
        spec_response_from_request(request).recursion_desired == request.recursion_desired,
        spec_response_from_request(request).checking_disabled == request.checking_disabled,
        !spec_response_from_request(request).authoritative,
        !spec_response_from_request(request).truncation,
        !spec_response_from_request(request).recursion_available,
        !spec_response_from_request(request).authentic_data,
{
}

/// An error message answers the request with the given code, under the request's id and
/// op code.
pub proof fn law_error_header_answers_the_request(request: MessageHeader, code: u16)
    ensures
        spec_error_header(request, code).id == request.id,
        spec_error_header(request, code).op_code == request.op_code,
        spec_error_header(request, code).message_type == MessageType::Response,
        spec_error_header(request, code).response_code == code,
        !spec_error_header(request, code).truncation,
        !spec_error_header(request, code).authoritative,
{
}

/// A header built from the default and given an id, an op code, a message type and a
/// response code carries exactly those and has every flag clear.
pub proof fn law_header_from_default_has_no_flag(
    id: u16,
    op_code: OpCode,
    message_type: MessageType,
    code: u16,
)
    ensures
        ({
            let h = MessageHeader { id, op_code, message_type, response_code: code, ..spec_default_header() };
            &&& h.id == id && h.op_code == op_code && h.message_type == message_type
            &&& h.response_code == code
            &&& !h.authoritative && !h.truncation && !h.recursion_desired
            &&& !h.recursion_available && !h.authentic_data && !h.checking_disabled
        }),
{
}

} // verus!
