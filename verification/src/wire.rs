//! The edge to the byte-level encoders: big-endian integers and the field
//! encodings of the schema's serialisation format.

use vstd::prelude::*;
use byteorder::{BigEndian, ByteOrder};
use protobuf::{CodedInputStream, CodedOutputStream};

verus! {

/// The highest field number that the serialisation format admits.
pub const FIELD_NUMBER_MAX: u32 = 0x1fff_ffff;

/// The number that four bytes spell, most significant byte first.
pub open spec fn be32_value(b: Seq<u8>) -> int
    recommends
        b.len() == 4,
{
    b[0] as int * 0x100_0000 + b[1] as int * 0x1_0000 + b[2] as int * 0x100 + b[3] as int
}

/// The four bytes that spell `n`, most significant byte first.
pub open spec fn be32_bytes(n: u32) -> Seq<u8> {
    seq![
        (n / 0x100_0000) as u8,
        ((n / 0x1_0000) % 0x100) as u8,
        ((n / 0x100) % 0x100) as u8,
        (n % 0x100) as u8,
    ]
}

/// Reading back what `be32_bytes` wrote gives the number again.
pub proof fn lemma_be32_round_trip(n: u32)
    ensures
        be32_bytes(n).len() == 4,
        be32_value(be32_bytes(n)) == n,
{
}

/// `byteorder::BigEndian::read_u32`: the first four bytes of `buf`, read as a
/// big-endian number. The outside function panics on fewer than four bytes.
#[verifier::external_body]
pub(crate) fn read_be32(buf: &Vec<u8>) -> (n: u32)
    requires
        buf@.len() >= 4,
    ensures
        n as int == be32_value(buf@.subrange(0, 4)),
{
    BigEndian::read_u32(buf)
}

/// `byteorder::BigEndian::write_u32_into` on one number and a buffer of four
/// bytes: the buffer then holds the number, most significant byte first.
#[verifier::external_body]
pub(crate) fn write_be32(n: u32) -> (out: Vec<u8>)
    ensures
        out@ == be32_bytes(n),
{
    let mut out = vec![0u8; 4];
    BigEndian::write_u32_into(&[n], &mut out);
    out
}

/// The bytes of a length-delimited field: its tag, the length of `value`, and
/// `value` itself.
pub uninterp spec fn pb_bytes_field(field_number: u32, value: Seq<u8>) -> Seq<u8>;

/// The bytes of a text field: its tag, the length of the text in UTF-8, and
/// that text.
pub uninterp spec fn pb_string_field(field_number: u32, value: Seq<char>) -> Seq<u8>;

/// The bytes of an unsigned 32-bit field: its tag and the value as a varint.
pub uninterp spec fn pb_uint32_field(field_number: u32, value: u32) -> Seq<u8>;

/// The bytes of a signed 64-bit field in zigzag form: its tag and the varint.
pub uninterp spec fn pb_sint64_field(field_number: u32, value: i64) -> Seq<u8>;

/// The bytes of an enumeration field: its tag and the member's number as a
/// varint.
pub uninterp spec fn pb_enum_field(field_number: u32, value: i32) -> Seq<u8>;

/// `protobuf::CodedOutputStream::write_bytes` into an empty vector: what it
/// writes depends on the field number and the bytes alone. The outside
/// function panics on a field number out of range.
#[verifier::external_body]
pub(crate) fn encode_bytes_field(field_number: u32, value: &Vec<u8>) -> (out: Vec<u8>)
    requires
        0 < field_number <= FIELD_NUMBER_MAX,
    ensures
        out@ == pb_bytes_field(field_number, value@),
{
    let mut out = Vec::new();
    {
        let mut os = CodedOutputStream::vec(&mut out);
        os.write_bytes(field_number, value).unwrap();
        os.flush().unwrap();
    }
    out
}

/// `protobuf::CodedOutputStream::write_string` into an empty vector: what it
/// writes depends on the field number and the text alone.
#[verifier::external_body]
pub(crate) fn encode_string_field(field_number: u32, value: &String) -> (out: Vec<u8>)
    requires
        0 < field_number <= FIELD_NUMBER_MAX,
    ensures
        out@ == pb_string_field(field_number, value@),
{
    let mut out = Vec::new();
    {
        let mut os = CodedOutputStream::vec(&mut out);
        os.write_string(field_number, value).unwrap();
        os.flush().unwrap();
    }
    out
}

/// `protobuf::CodedOutputStream::write_uint32` into an empty vector: what it
/// writes depends on the field number and the value alone.
#[verifier::external_body]
pub(crate) fn encode_uint32_field(field_number: u32, value: u32) -> (out: Vec<u8>)
    requires
        0 < field_number <= FIELD_NUMBER_MAX,
    ensures
        out@ == pb_uint32_field(field_number, value),
{
    let mut out = Vec::new();
    {
        let mut os = CodedOutputStream::vec(&mut out);
        os.write_uint32(field_number, value).unwrap();
        os.flush().unwrap();
    }
    out
}

/// `protobuf::CodedOutputStream::write_sint64` into an empty vector: what it
/// writes depends on the field number and the value alone.
#[verifier::external_body]
pub(crate) fn encode_sint64_field(field_number: u32, value: i64) -> (out: Vec<u8>)
    requires
        0 < field_number <= FIELD_NUMBER_MAX,
    ensures
        out@ == pb_sint64_field(field_number, value),
{
    let mut out = Vec::new();
    {
        let mut os = CodedOutputStream::vec(&mut out);
        os.write_sint64(field_number, value).unwrap();
        os.flush().unwrap();
    }
    out
}

/// `protobuf::CodedOutputStream::write_enum` into an empty vector: what it
/// writes depends on the field number and the member's number alone.
#[verifier::external_body]
pub(crate) fn encode_enum_field(field_number: u32, value: i32) -> (out: Vec<u8>)
    requires
        0 < field_number <= FIELD_NUMBER_MAX,
    ensures
        out@ == pb_enum_field(field_number, value),
{
    let mut out = Vec::new();
    {
        let mut os = CodedOutputStream::vec(&mut out);
        os.write_enum(field_number, value).unwrap();
        os.flush().unwrap();
    }
    out
}


/// The varint that starts at `pos` in `data`: its value and the number of
/// bytes it takes. There is none where the bytes from `pos` on start no
/// well-formed varint.
pub uninterp spec fn pb_varint_at(data: Seq<u8>, pos: int) -> Option<(u64, int)>;

/// `protobuf::CodedInputStream::read_raw_varint64` on the bytes from `pos`
/// on, and `pos` of the stream after it: the value read and the number of
/// bytes consumed, which is between one and ten and stays inside `data`. The
/// outcome depends on the bytes and the position alone.
#[verifier::external_body]
pub(crate) fn decode_varint(data: &Vec<u8>, pos: usize) -> (r: Option<(u64, usize)>)
    requires
        pos <= data@.len(),
    ensures
        match r {
            Some((v, n)) => pb_varint_at(data@, pos as int) == Some((v, n as int)) && 1 <= n <= 10
                && pos + n <= data@.len(),
            None => pb_varint_at(data@, pos as int) is None,
        },
{
    let mut is = CodedInputStream::from_bytes(&data[pos..]);
    match is.read_raw_varint64() {
        Ok(v) => Some((v, is.pos() as usize)),
        Err(_) => None,
    }
}

} // verus!
