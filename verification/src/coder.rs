//! Framing of records on the wire: a 32-bit big-endian length, one byte of
//! message code, and the serialised record.

use vstd::prelude::*;
use crate::antidote_pb::{
    ApbAbortTransaction, ApbCommitResp, ApbCommitTransaction, ApbConnectToDCs,
    ApbConnectToDCsResp, ApbCreateDC, ApbCreateDCResp, ApbGetConnectionDescriptor,
    ApbGetConnectionDescriptorResp, ApbOperationResp, ApbReadObjects, ApbReadObjectsResp,
    ApbStartTransaction, ApbStartTransactionResp, ApbStaticReadObjects,
    ApbStaticReadObjectsResp, ApbStaticUpdateObjects, ApbUpdateObjects,
};
use crate::error::ClientError;
use crate::parse::parse_fields;
use crate::wire::{be32_bytes, be32_value, lemma_be32_round_trip, read_be32, write_be32};

verus! {

/// The frame that carries `payload` under the message code `code`.
pub open spec fn frame(code: u8, payload: Seq<u8>) -> Seq<u8> {
    be32_bytes((payload.len() + 1) as u32) + seq![code] + payload
}

/// Whether a record of this many bytes fits a frame.
pub open spec fn fits_frame(payload_len: nat) -> bool {
    payload_len + 1 <= u32::MAX
}

/// The frame of a serialised record, or the refusal of one that is too long.
pub open spec fn encoded(code: u8, payload: Seq<u8>) -> Result<Seq<u8>, ClientError> {
    if fits_frame(payload.len()) {
        Ok(frame(code, payload))
    } else {
        Err(ClientError::MessageTooLarge)
    }
}

/// Whether a result holds the bytes, or the error, that `expected` names.
pub open spec fn same_bytes(
    r: Result<Vec<u8>, ClientError>,
    expected: Result<Seq<u8>, ClientError>,
) -> bool {
    match expected {
        Ok(bytes) => r is Ok && r->Ok_0@ == bytes,
        Err(e) => r == Err::<Vec<u8>, ClientError>(e),
    }
}

/// Frames a serialised record: the length of code and record, the code, the
/// record. A record too long for the 32 bits of the length is refused.
pub fn encode_msg(payload: &Vec<u8>, msg_code: u8) -> (r: Result<Vec<u8>, ClientError>)
    ensures
        same_bytes(r, encoded(msg_code, payload@)),
{
    let n: usize = payload.len();
    if n >= 0xffff_ffff {
        return Err(ClientError::MessageTooLarge);
    }
    let size: u32 = (n + 1) as u32;
    let mut out: Vec<u8> = write_be32(size);
    out.push(msg_code);
    let mut i: usize = 0;
    while i < n
        invariant
            n == payload@.len(),
            i <= n,
            out@ == be32_bytes(size) + seq![msg_code] + payload@.subrange(0, i as int),
        decreases n - i,
    {
        out.push(payload[i]);
        i = i + 1;
    }
    assert(payload@.subrange(0, n as int) == payload@);
    Ok(out)
}

/// Message code of a read inside a transaction.
pub const CODE_READ_OBJECTS: u8 = 116;
/// Message code of an update inside a transaction.
pub const CODE_UPDATE_OBJECTS: u8 = 118;
/// Message code of the opening of a transaction.
pub const CODE_START_TRANSACTION: u8 = 119;
/// Message code of an abort.
pub const CODE_ABORT_TRANSACTION: u8 = 120;
/// Message code of a commit.
pub const CODE_COMMIT_TRANSACTION: u8 = 121;
/// Message code of an update in a transaction of its own.
pub const CODE_STATIC_UPDATE_OBJECTS: u8 = 122;
/// Message code of a read in a transaction of its own.
pub const CODE_STATIC_READ_OBJECTS: u8 = 123;
/// Message code of the forming of a datacenter.
pub const CODE_CREATE_DC: u8 = 129;
/// Message code of the joining of datacenters.
pub const CODE_CONNECT_TO_DCS: u8 = 131;
/// Message code of the request for the datacenter's descriptor.
pub const CODE_GET_CONNECTION_DESCRIPTOR: u8 = 133;

/// Message code of the answer to an update, a read or an abort.
pub const CODE_OPERATION_RESP: u8 = 111;
/// Message code of the answer to the opening of a transaction.
pub const CODE_START_TRANSACTION_RESP: u8 = 124;
/// Message code of the answer to a read inside a transaction.
pub const CODE_READ_OBJECTS_RESP: u8 = 111;
/// Message code of the answer to a commit or to a static update.
pub const CODE_COMMIT_RESP: u8 = 127;
/// Message code of the answer to a static read.
pub const CODE_STATIC_READ_OBJECTS_RESP: u8 = 128;
/// Message code of the answer to the forming of a datacenter.
pub const CODE_CREATE_DC_RESP: u8 = 130;
/// Message code of the answer to the joining of datacenters.
pub const CODE_CONNECT_TO_DCS_RESP: u8 = 132;
/// Message code of the answer to the request for the descriptor.
pub const CODE_GET_CONNECTION_DESCRIPTOR_RESP: u8 = 134;

/// The code that answers a request of the given code, if that is a request.
pub open spec fn spec_response_code(request: u8) -> Option<u8> {
    if request == 116 || request == 118 || request == 120 {
        Some(111u8)
    } else if request == 119 {
        Some(124u8)
    } else if request == 121 || request == 122 {
        Some(127u8)
    } else if request == 123 {
        Some(128u8)
    } else if request == 129 {
        Some(130u8)
    } else if request == 131 {
        Some(132u8)
    } else if request == 133 {
        Some(134u8)
    } else {
        None
    }
}

/// The code that answers a request of the given code, if that is a request.
#[verifier::when_used_as_spec(spec_response_code)]
pub fn response_code(request: u8) -> (r: Option<u8>)
    ensures
        r == spec_response_code(request),
{
    if request == CODE_READ_OBJECTS || request == CODE_UPDATE_OBJECTS || request
        == CODE_ABORT_TRANSACTION {
        Some(CODE_OPERATION_RESP)
    } else if request == CODE_START_TRANSACTION {
        Some(CODE_START_TRANSACTION_RESP)
    } else if request == CODE_COMMIT_TRANSACTION || request == CODE_STATIC_UPDATE_OBJECTS {
        Some(CODE_COMMIT_RESP)
    } else if request == CODE_STATIC_READ_OBJECTS {
        Some(CODE_STATIC_READ_OBJECTS_RESP)
    } else if request == CODE_CREATE_DC {
        Some(CODE_CREATE_DC_RESP)
    } else if request == CODE_CONNECT_TO_DCS {
        Some(CODE_CONNECT_TO_DCS_RESP)
    } else if request == CODE_GET_CONNECTION_DESCRIPTOR {
        Some(CODE_GET_CONNECTION_DESCRIPTOR_RESP)
    } else {
        None
    }
}

impl ApbReadObjects {
    /// The frame of this request.
    pub fn encode(&self) -> (r: Result<Vec<u8>, ClientError>)
        ensures
            same_bytes(r, encoded(116, self.wire())),
    {
        encode_msg(&self.write_to_bytes(), CODE_READ_OBJECTS)
    }
}

impl ApbUpdateObjects {
    /// The frame of this request.
    pub fn encode(&self) -> (r: Result<Vec<u8>, ClientError>)
        ensures
            same_bytes(r, encoded(118, self.wire())),
    {
        encode_msg(&self.write_to_bytes(), CODE_UPDATE_OBJECTS)
    }
}

impl ApbStartTransaction {
    /// The frame of this request.
    pub fn encode(&self) -> (r: Result<Vec<u8>, ClientError>)
        ensures
            same_bytes(r, encoded(119, self.wire())),
    {
        encode_msg(&self.write_to_bytes(), CODE_START_TRANSACTION)
    }
}

impl ApbAbortTransaction {
    /// The frame of this request.
    pub fn encode(&self) -> (r: Result<Vec<u8>, ClientError>)
        ensures
            same_bytes(r, encoded(120, self.wire())),
    {
        encode_msg(&self.write_to_bytes(), CODE_ABORT_TRANSACTION)
    }
}

impl ApbCommitTransaction {
    /// The frame of this request.
    pub fn encode(&self) -> (r: Result<Vec<u8>, ClientError>)
        ensures
            same_bytes(r, encoded(121, self.wire())),
    {
        encode_msg(&self.write_to_bytes(), CODE_COMMIT_TRANSACTION)
    }
}

impl ApbStaticUpdateObjects {
    /// The frame of this request.
    pub fn encode(&self) -> (r: Result<Vec<u8>, ClientError>)
        ensures
            same_bytes(r, encoded(122, self.wire())),
    {
        encode_msg(&self.write_to_bytes(), CODE_STATIC_UPDATE_OBJECTS)
    }
}

impl ApbStaticReadObjects {
    /// The frame of this request.
    pub fn encode(&self) -> (r: Result<Vec<u8>, ClientError>)
        ensures
            same_bytes(r, encoded(123, self.wire())),
    {
        encode_msg(&self.write_to_bytes(), CODE_STATIC_READ_OBJECTS)
    }
}

impl ApbCreateDC {
    /// The frame of this request.
    pub fn encode(&self) -> (r: Result<Vec<u8>, ClientError>)
        ensures
            same_bytes(r, encoded(129, self.wire())),
    {
        encode_msg(&self.write_to_bytes(), CODE_CREATE_DC)
    }
}

impl ApbConnectToDCs {
    /// The frame of this request.
    pub fn encode(&self) -> (r: Result<Vec<u8>, ClientError>)
        ensures
            same_bytes(r, encoded(131, self.wire())),
    {
        encode_msg(&self.write_to_bytes(), CODE_CONNECT_TO_DCS)
    }
}

impl ApbGetConnectionDescriptor {
    /// The frame of this request.
    pub fn encode(&self) -> (r: Result<Vec<u8>, ClientError>)
        ensures
            same_bytes(r, encoded(133, self.wire())),
    {
        encode_msg(&self.write_to_bytes(), CODE_GET_CONNECTION_DESCRIPTOR)
    }
}

/// The body of the first frame in `input`: the bytes that follow its length.
/// There is none while the length, or a part of the body, is still missing.
pub open spec fn frame_body(input: Seq<u8>) -> Option<Seq<u8>> {
    if input.len() < 4 {
        None
    } else {
        let size = be32_value(input.subrange(0, 4));
        if input.len() < 4 + size {
            None
        } else {
            Some(input.subrange(4, 4 + size))
        }
    }
}

/// Takes the body of the first frame out of the bytes received so far. A
/// stream that ended before the frame was whole is an I/O failure.
pub fn read_msg_raw(input: &Vec<u8>) -> (r: Result<Vec<u8>, ClientError>)
    ensures
        same_bytes(
            r,
            match frame_body(input@) {
                Some(body) => Ok(body),
                None => Err(ClientError::Io),
            },
        ),
{
    if input.len() < 4 {
        return Err(ClientError::Io);
    }
    let size: u32 = read_be32(input);
    if input.len() - 4 < size as usize {
        return Err(ClientError::Io);
    }
    let end: usize = 4 + size as usize;
    let mut body: Vec<u8> = Vec::new();
    let mut i: usize = 4;
    while i < end
        invariant
            4 <= i <= end <= input@.len(),
            body@ == input@.subrange(4, i as int),
        decreases end - i,
    {
        body.push(input[i]);
        i = i + 1;
    }
    Ok(body)
}

/// How many bytes the first frame in `input` still lacks: what is missing
/// of the length, or else of the body.
pub open spec fn frame_missing(input: Seq<u8>) -> int {
    if input.len() < 4 {
        4 - input.len()
    } else {
        let size = be32_value(input.subrange(0, 4));
        if input.len() < 4 + size {
            4 + size - input.len()
        } else {
            0
        }
    }
}

/// Decides how a reader goes on: how many bytes to ask the stream for next,
/// 0 once the first frame is whole. `input` holds all bytes received so far,
/// and `delivered` the size of the last read, if there was one. A read that
/// delivered nothing while bytes are missing is the end of the stream: an
/// I/O failure.
pub fn read_step(input: &Vec<u8>, delivered: Option<usize>) -> (r: Result<u64, ClientError>)
    ensures
        frame_missing(input@) > 0 && delivered == Some(0usize) ==> r == Err::<u64, ClientError>(
            ClientError::Io,
        ),
        frame_missing(input@) == 0 || delivered != Some(0usize) ==> r == Ok::<u64, ClientError>(
            frame_missing(input@) as u64,
        ),
        (frame_missing(input@) == 0) == (frame_body(input@) is Some),
{
    let have: usize = input.len();
    let missing: u64 = if have < 4 {
        (4 - have) as u64
    } else {
        let size: u32 = read_be32(input);
        let body: usize = have - 4;
        if (body as u64) < size as u64 {
            size as u64 - body as u64
        } else {
            0
        }
    };
    let ended: bool = match delivered {
        Some(n) => n == 0,
        None => false,
    };
    if missing > 0 && ended {
        Err(ClientError::Io)
    } else {
        Ok(missing)
    }
}

/// What the body of a frame holds for a reader that expects the code
/// `expected`: the serialised record, or the reason why there is none.
pub open spec fn typed_payload(data: Seq<u8>, expected: u8) -> Result<Seq<u8>, ClientError> {
    if data.len() == 0 {
        Err(ClientError::EmptyFrame)
    } else if data[0] != expected {
        Err(ClientError::ProtocolMismatch { observed: data[0], expected })
    } else {
        Ok(data.subrange(1, data.len() as int))
    }
}

/// Checks the message code of a frame's body and hands out the serialised
/// record behind it. A code other than the expected one is a protocol
/// mismatch that names both codes.
pub fn decode_typed(data: &Vec<u8>, expected: u8) -> (r: Result<Vec<u8>, ClientError>)
    ensures
        same_bytes(r, typed_payload(data@, expected)),
{
    if data.len() == 0 {
        return Err(ClientError::EmptyFrame);
    }
    let observed: u8 = data[0];
    if observed != expected {
        return Err(ClientError::ProtocolMismatch { observed, expected });
    }
    let mut payload: Vec<u8> = Vec::new();
    let mut i: usize = 1;
    while i < data.len()
        invariant
            1 <= i <= data@.len(),
            payload@ == data@.subrange(1, i as int),
        decreases data@.len() - i,
    {
        payload.push(data[i]);
        i = i + 1;
    }
    Ok(payload)
}

/// Reads the answer to an update or an abort out of a frame's body: a
/// protocol mismatch under any code but 111, a malformed record where the
/// payload does not parse.
pub fn decode_operation_resp(data: &Vec<u8>) -> (r: Result<ApbOperationResp, ClientError>)
    ensures
        match typed_payload(data@, 111) {
            Err(e) => r == Err::<ApbOperationResp, ClientError>(e),
            Ok(p) => match ApbOperationResp::parse(p) {
                Some(m) => r == Ok::<ApbOperationResp, ClientError>(m),
                None => r == Err::<ApbOperationResp, ClientError>(ClientError::Malformed),
            },
        },
{
    match decode_typed(data, CODE_OPERATION_RESP) {
        Err(e) => Err(e),
        Ok(payload) => match ApbOperationResp::parse_from_bytes(&payload) {
            Some(m) => Ok(m),
            None => Err(ClientError::Malformed),
        },
    }
}

/// Reads the answer to the opening of a transaction out of a frame's body: a
/// protocol mismatch under any code but 124, a malformed record where the
/// payload does not parse.
pub fn decode_start_transaction_resp(data: &Vec<u8>) -> (r: Result<
    ApbStartTransactionResp,
    ClientError,
>)
    ensures
        match typed_payload(data@, 124) {
            Err(e) => r == Err::<ApbStartTransactionResp, ClientError>(e),
            Ok(p) => if parse_fields(p) is Some {
                r is Ok && r->Ok_0.is_parse_of(p)
            } else {
                r == Err::<ApbStartTransactionResp, ClientError>(ClientError::Malformed)
            },
        },
{
    match decode_typed(data, CODE_START_TRANSACTION_RESP) {
        Err(e) => Err(e),
        Ok(payload) => match ApbStartTransactionResp::parse_from_bytes(&payload) {
            Some(m) => Ok(m),
            None => Err(ClientError::Malformed),
        },
    }
}

/// Reads the answer to a read out of a frame's body: a protocol mismatch
/// under any code but 111, a malformed record where the payload does not
/// parse.
pub fn decode_read_objects_resp(data: &Vec<u8>) -> (r: Result<ApbReadObjectsResp, ClientError>)
    ensures
        match typed_payload(data@, 111) {
            Err(e) => r == Err::<ApbReadObjectsResp, ClientError>(e),
            Ok(p) => if ApbReadObjectsResp::parses(p) {
                r is Ok && r->Ok_0.is_parse_of(p)
            } else {
                r == Err::<ApbReadObjectsResp, ClientError>(ClientError::Malformed)
            },
        },
{
    match decode_typed(data, CODE_READ_OBJECTS_RESP) {
        Err(e) => Err(e),
        Ok(payload) => match ApbReadObjectsResp::parse_from_bytes(&payload) {
            Some(m) => Ok(m),
            None => Err(ClientError::Malformed),
        },
    }
}

/// Reads the answer to a commit or a static update out of a frame's body: a
/// protocol mismatch under any code but 127, a malformed record where the
/// payload does not parse.
pub fn decode_commit_resp(data: &Vec<u8>) -> (r: Result<ApbCommitResp, ClientError>)
    ensures
        match typed_payload(data@, 127) {
            Err(e) => r == Err::<ApbCommitResp, ClientError>(e),
            Ok(p) => if parse_fields(p) is Some {
                r is Ok && r->Ok_0.is_parse_of(p)
            } else {
                r == Err::<ApbCommitResp, ClientError>(ClientError::Malformed)
            },
        },
{
    match decode_typed(data, CODE_COMMIT_RESP) {
        Err(e) => Err(e),
        Ok(payload) => match ApbCommitResp::parse_from_bytes(&payload) {
            Some(m) => Ok(m),
            None => Err(ClientError::Malformed),
        },
    }
}

/// Reads the answer to a static read out of a frame's body: a protocol
/// mismatch under any code but 128, a malformed record where the payload
/// does not parse.
pub fn decode_static_read_objects_resp(data: &Vec<u8>) -> (r: Result<
    ApbStaticReadObjectsResp,
    ClientError,
>)
    ensures
        match typed_payload(data@, 128) {
            Err(e) => r == Err::<ApbStaticReadObjectsResp, ClientError>(e),
            Ok(p) => if ApbStaticReadObjectsResp::parses(p) {
                r is Ok && r->Ok_0.is_parse_of(p)
            } else {
                r == Err::<ApbStaticReadObjectsResp, ClientError>(ClientError::Malformed)
            },
        },
{
    match decode_typed(data, CODE_STATIC_READ_OBJECTS_RESP) {
        Err(e) => Err(e),
        Ok(payload) => match ApbStaticReadObjectsResp::parse_from_bytes(&payload) {
            Some(m) => Ok(m),
            None => Err(ClientError::Malformed),
        },
    }
}

/// Reads the answer to the forming of a datacenter out of a frame's body: a
/// protocol mismatch under any code but 130, a malformed record where the
/// payload does not parse.
pub fn decode_apb_create_dc_resp(data: &Vec<u8>) -> (r: Result<ApbCreateDCResp, ClientError>)
    ensures
        match typed_payload(data@, 130) {
            Err(e) => r == Err::<ApbCreateDCResp, ClientError>(e),
            Ok(p) => match ApbCreateDCResp::parse(p) {
                Some(m) => r == Ok::<ApbCreateDCResp, ClientError>(m),
                None => r == Err::<ApbCreateDCResp, ClientError>(ClientError::Malformed),
            },
        },
{
    match decode_typed(data, CODE_CREATE_DC_RESP) {
        Err(e) => Err(e),
        Ok(payload) => match ApbCreateDCResp::parse_from_bytes(&payload) {
            Some(m) => Ok(m),
            None => Err(ClientError::Malformed),
        },
    }
}

/// Reads the answer to the joining of datacenters out of a frame's body: a
/// protocol mismatch under any code but 132, a malformed record where the
/// payload does not parse.
pub fn decode_apb_connect_to_dcs_resp(data: &Vec<u8>) -> (r: Result<
    ApbConnectToDCsResp,
    ClientError,
>)
    ensures
        match typed_payload(data@, 132) {
            Err(e) => r == Err::<ApbConnectToDCsResp, ClientError>(e),
            Ok(p) => match ApbConnectToDCsResp::parse(p) {
                Some(m) => r == Ok::<ApbConnectToDCsResp, ClientError>(m),
                None => r == Err::<ApbConnectToDCsResp, ClientError>(ClientError::Malformed),
            },
        },
{
    match decode_typed(data, CODE_CONNECT_TO_DCS_RESP) {
        Err(e) => Err(e),
        Ok(payload) => match ApbConnectToDCsResp::parse_from_bytes(&payload) {
            Some(m) => Ok(m),
            None => Err(ClientError::Malformed),
        },
    }
}

/// Reads the answer to the request for the datacenter's descriptor out of a
/// frame's body: a protocol mismatch under any code but 134, a malformed
/// record where the payload does not parse.
pub fn decode_apb_get_connection_descriptor_resp(data: &Vec<u8>) -> (r: Result<
    ApbGetConnectionDescriptorResp,
    ClientError,
>)
    ensures
        match typed_payload(data@, 134) {
            Err(e) => r == Err::<ApbGetConnectionDescriptorResp, ClientError>(e),
            Ok(p) => if parse_fields(p) is Some {
                r is Ok && r->Ok_0.is_parse_of(p)
            } else {
                r == Err::<ApbGetConnectionDescriptorResp, ClientError>(ClientError::Malformed)
            },
        },
{
    match decode_typed(data, CODE_GET_CONNECTION_DESCRIPTOR_RESP) {
        Err(e) => Err(e),
        Ok(payload) => match ApbGetConnectionDescriptorResp::parse_from_bytes(&payload) {
            Some(m) => Ok(m),
            None => Err(ClientError::Malformed),
        },
    }
}

/// A frame read back gives the code and the record that went into it.
pub proof fn lemma_frame_round_trip(code: u8, payload: Seq<u8>)
    requires
        fits_frame(payload.len()),
    ensures
        frame_body(frame(code, payload)) == Some(seq![code] + payload),
        typed_payload(seq![code] + payload, code) == Ok::<Seq<u8>, ClientError>(payload),
{
    let size = (payload.len() + 1) as u32;
    let f = frame(code, payload);
    lemma_be32_round_trip(size);
    assert(f.subrange(0, 4) =~= be32_bytes(size));
    assert(f.subrange(4, 4 + size) =~= seq![code] + payload);
    assert((seq![code] + payload).subrange(1, payload.len() as int + 1) =~= payload);
}

/// Bytes that follow a frame do not change what is read out of it.
pub proof fn lemma_frame_body_ignores_rest(code: u8, payload: Seq<u8>, rest: Seq<u8>)
    requires
        fits_frame(payload.len()),
    ensures
        frame_body(frame(code, payload) + rest) == Some(seq![code] + payload),
{
    let size = (payload.len() + 1) as u32;
    let f = frame(code, payload) + rest;
    lemma_be32_round_trip(size);
    assert(f.subrange(0, 4) =~= be32_bytes(size));
    assert(f.subrange(4, 4 + size) =~= seq![code] + payload);
}

/// A frame arrives in pieces: while a part of it is missing, the reader is
/// told how much, first of the length and then of the body, and nothing is
/// read out; once it is whole, nothing is missing and the body is read out.
pub proof fn lemma_frame_in_pieces(code: u8, payload: Seq<u8>, k: int)
    requires
        fits_frame(payload.len()),
        0 <= k <= payload.len() + 5,
    ensures
        frame_missing(frame(code, payload).subrange(0, k)) == (if k < 4 {
            4 - k
        } else {
            payload.len() + 5 - k
        }),
        (frame_body(frame(code, payload).subrange(0, k)) is Some) == (k == payload.len() + 5),
{
    let size = (payload.len() + 1) as u32;
    let piece = frame(code, payload).subrange(0, k);
    lemma_be32_round_trip(size);
    if k >= 4 {
        assert(piece.subrange(0, 4) =~= be32_bytes(size));
    }
}

/// A frame's body under any other code than the expected one is refused, and
/// the refusal names the code received and the code expected.
pub proof fn lemma_code_mismatch_is_refused(data: Seq<u8>, expected: u8)
    requires
        data.len() > 0,
        data[0] != expected,
    ensures
        typed_payload(data, expected) == Err::<Seq<u8>, ClientError>(
            ClientError::ProtocolMismatch { observed: data[0], expected },
        ),
{
}

} // verus!
