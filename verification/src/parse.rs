//! Reading serialised records: the fields of a record, and the answers of
//! the server built from them.
//!
//! A record is a sequence of fields. A field starts with a tag, a varint that
//! holds the field's number and its wire type. A varint field then holds one
//! more varint, a length-delimited field a length and that many bytes, a
//! fixed field four or eight bytes. Where a field that holds one value occurs
//! more than once, the last one counts; a field that is absent reads as the
//! empty value of its kind; a field that a record does not know is passed
//! over.

use vstd::prelude::*;
use crate::antidote_pb::{
    bytes_list, copy_bytes, ApbCommitResp, ApbConnectToDCsResp, ApbCreateDCResp,
    ApbGetConnectionDescriptorResp, ApbGetMapResp, ApbMapEntry, ApbMapKey, ApbOperationResp,
    ApbReadObjectResp, ApbReadObjectsResp, ApbStartTransactionResp, ApbStaticReadObjectsResp,
    CRDT_type,
};
use crate::transactions::MapReadResult;
use crate::wire::{decode_varint, pb_varint_at};

verus! {

/// Wire type of a field that holds one varint.
pub const WIRE_VARINT: u8 = 0;

/// Wire type of a field that holds eight bytes.
pub const WIRE_FIXED64: u8 = 1;

/// Wire type of a field that holds a length and that many bytes.
pub const WIRE_DELIMITED: u8 = 2;

/// Wire type of a field that holds four bytes.
pub const WIRE_FIXED32: u8 = 5;

/// One field of a serialised record.
pub struct Field {
    pub number: u32,
    /// How the field's value is laid out: one of the four wire types above.
    pub wire_type: u8,
    /// The value of a varint field; 0 in any other.
    pub value: u64,
    /// The content of a length-delimited field, or the four or eight bytes of
    /// a fixed one; empty in a varint field.
    pub bytes: Vec<u8>,
}

/// A field as a value of its own.
pub struct FieldView {
    pub number: u32,
    pub wire_type: u8,
    pub value: u64,
    pub bytes: Seq<u8>,
}

impl View for Field {
    type V = FieldView;

    open spec fn view(&self) -> FieldView {
        FieldView {
            number: self.number,
            wire_type: self.wire_type,
            value: self.value,
            bytes: self.bytes@,
        }
    }
}

/// The views of a list of fields.
pub open spec fn fields_view(fields: Seq<Field>) -> Seq<FieldView> {
    Seq::new(fields.len(), |i: int| fields[i]@)
}

/// The field of `width` bytes that follows a tag which ended at `at`.
pub open spec fn fixed_field(data: Seq<u8>, at: int, number: u32, wire_type: u8, width: int) -> Option<
    (FieldView, int),
> {
    if at + width <= data.len() {
        Some(
            (
                FieldView { number, wire_type, value: 0, bytes: data.subrange(at, at + width) },
                at + width,
            ),
        )
    } else {
        None
    }
}

/// The field that follows a tag which ended at `at` and starts with a
/// varint: a varint field, or a length-delimited one.
pub open spec fn varint_led_field(data: Seq<u8>, at: int, number: u32, wire_type: u8) -> Option<
    (FieldView, int),
> {
    match pb_varint_at(data, at) {
        None => None,
        Some((v, m)) => {
            if m < 1 || at + m > data.len() {
                None
            } else if wire_type == 0 {
                Some((FieldView { number, wire_type, value: v, bytes: Seq::empty() }, at + m))
            } else if at + m + v <= data.len() {
                Some(
                    (
                        FieldView {
                            number,
                            wire_type,
                            value: 0,
                            bytes: data.subrange(at + m, at + m + v),
                        },
                        at + m + v,
                    ),
                )
            } else {
                None
            }
        },
    }
}

/// The field that starts at `pos`, and the position behind it. There is none
/// where the tag or the value is cut short or ill-formed, where the field's
/// number is 0 or the tag exceeds 32 bits, or where the wire type is none of
/// the four.
pub open spec fn field_at(data: Seq<u8>, pos: int) -> Option<(FieldView, int)> {
    match pb_varint_at(data, pos) {
        None => None,
        Some((tag, n)) => {
            let number = (tag / 8) as u32;
            let wire_type = (tag % 8) as u8;
            if n < 1 || pos + n > data.len() || tag > 0xffff_ffff || tag / 8 == 0 {
                None
            } else if wire_type == 0 || wire_type == 2 {
                varint_led_field(data, pos + n, number, wire_type)
            } else if wire_type == 1 {
                fixed_field(data, pos + n, number, wire_type, 8)
            } else if wire_type == 5 {
                fixed_field(data, pos + n, number, wire_type, 4)
            } else {
                None
            }
        },
    }
}

/// The fields from `pos` to the end of `data`; none where one of them is
/// ill-formed.
pub open spec fn fields_from(data: Seq<u8>, pos: int) -> Option<Seq<FieldView>>
    decreases data.len() - pos,
{
    if pos >= data.len() {
        Some(Seq::empty())
    } else {
        match field_at(data, pos) {
            None => None,
            Some((f, next)) => {
                if next <= pos {
                    None
                } else {
                    match fields_from(data, next) {
                        None => None,
                        Some(rest) => Some(seq![f] + rest),
                    }
                }
            },
        }
    }
}

/// The fields of a serialised record.
pub open spec fn parse_fields(data: Seq<u8>) -> Option<Seq<FieldView>> {
    fields_from(data, 0)
}

/// Copies the bytes of `data` from `start` up to `end`.
pub fn copy_range(data: &Vec<u8>, start: usize, end: usize) -> (out: Vec<u8>)
    requires
        start <= end <= data@.len(),
    ensures
        out@ == data@.subrange(start as int, end as int),
{
    let mut out: Vec<u8> = Vec::new();
    let mut i: usize = start;
    while i < end
        invariant
            start <= i <= end <= data@.len(),
            out@ == data@.subrange(start as int, i as int),
        decreases end - i,
    {
        out.push(data[i]);
        i = i + 1;
    }
    out
}

/// Reads the field that starts at `pos`.
pub fn read_field(data: &Vec<u8>, pos: usize) -> (r: Option<(Field, usize)>)
    requires
        pos <= data@.len(),
    ensures
        match field_at(data@, pos as int) {
            Some((f, next)) => r is Some && r->Some_0.0@ == f && r->Some_0.1 as int == next && pos
                < next <= data@.len(),
            None => r is None,
        },
{
    let total: usize = data.len();
    let (tag, n) = match decode_varint(data, pos) {
        Some(x) => x,
        None => {
            return None;
        },
    };
    if tag > 0xffff_ffff {
        return None;
    }
    let number: u32 = (tag / 8) as u32;
    let wire_type: u8 = (tag % 8) as u8;
    if number == 0 {
        return None;
    }
    let at: usize = pos + n;
    if wire_type == WIRE_FIXED64 || wire_type == WIRE_FIXED32 {
        let width: usize = if wire_type == WIRE_FIXED64 {
            8
        } else {
            4
        };
        if total - at < width {
            return None;
        }
        let bytes = copy_range(data, at, at + width);
        return Some((Field { number, wire_type, value: 0, bytes }, at + width));
    }
    if wire_type != WIRE_VARINT && wire_type != WIRE_DELIMITED {
        return None;
    }
    let (v, m) = match decode_varint(data, at) {
        Some(x) => x,
        None => {
            return None;
        },
    };
    let start: usize = at + m;
    if wire_type == WIRE_VARINT {
        return Some((Field { number, wire_type, value: v, bytes: Vec::new() }, start));
    }
    if v > (total - start) as u64 {
        return None;
    }
    let end: usize = start + v as usize;
    let bytes = copy_range(data, start, end);
    Some((Field { number, wire_type, value: 0, bytes }, end))
}

/// Reads the fields of a serialised record.
pub fn scan_fields(data: &Vec<u8>) -> (r: Option<Vec<Field>>)
    ensures
        match parse_fields(data@) {
            Some(fs) => r is Some && fields_view(r->Some_0@) == fs,
            None => r is None,
        },
{
    let mut out: Vec<Field> = Vec::new();
    let mut pos: usize = 0;
    assert(fields_view(out@) =~= Seq::<FieldView>::empty());
    while pos < data.len()
        invariant
            pos <= data@.len(),
            parse_fields(data@) == (match fields_from(data@, pos as int) {
                Some(rest) => Some(fields_view(out@) + rest),
                None => None,
            }),
        decreases data@.len() - pos,
    {
        match read_field(data, pos) {
            None => {
                return None;
            },
            Some((f, next)) => {
                let ghost before = fields_view(out@);
                let ghost fv = f@;
                out.push(f);
                proof {
                    assert(fields_view(out@) =~= before + seq![fv]);
                    match fields_from(data@, next as int) {
                        Some(rest) => {
                            assert((before + seq![fv]) + rest =~= before + (seq![fv] + rest));
                        },
                        None => {},
                    }
                }
                pos = next;
            },
        }
    }
    assert(fields_view(out@) + Seq::<FieldView>::empty() =~= fields_view(out@));
    Some(out)
}

/// The value of the last varint field of this number.
pub open spec fn last_varint(fs: Seq<FieldView>, number: u32) -> Option<u64>
    decreases fs.len(),
{
    if fs.len() == 0 {
        None
    } else if fs.last().number == number && fs.last().wire_type == 0 {
        Some(fs.last().value)
    } else {
        last_varint(fs.drop_last(), number)
    }
}

/// The content of the last length-delimited field of this number.
pub open spec fn last_bytes(fs: Seq<FieldView>, number: u32) -> Option<Seq<u8>>
    decreases fs.len(),
{
    if fs.len() == 0 {
        None
    } else if fs.last().number == number && fs.last().wire_type == 2 {
        Some(fs.last().bytes)
    } else {
        last_bytes(fs.drop_last(), number)
    }
}

/// The contents of all length-delimited fields of this number, in order.
pub open spec fn all_bytes(fs: Seq<FieldView>, number: u32) -> Seq<Seq<u8>>
    decreases fs.len(),
{
    if fs.len() == 0 {
        Seq::empty()
    } else if fs.last().number == number && fs.last().wire_type == 2 {
        all_bytes(fs.drop_last(), number).push(fs.last().bytes)
    } else {
        all_bytes(fs.drop_last(), number)
    }
}

/// The low 32 bits of a varint, which is what a 32-bit field holds of it.
pub open spec fn low32(v: u64) -> u32 {
    (v % 0x1_0000_0000) as u32
}

/// The flag in the varint field of this number; false where it is absent.
pub open spec fn flag_field(fs: Seq<FieldView>, number: u32) -> bool {
    match last_varint(fs, number) {
        Some(v) => low32(v) != 0,
        None => false,
    }
}

/// The unsigned number in the varint field of this number; 0 where it is
/// absent.
pub open spec fn uint32_field(fs: Seq<FieldView>, number: u32) -> u32 {
    match last_varint(fs, number) {
        Some(v) => low32(v),
        None => 0,
    }
}

/// The content of the length-delimited field of this number; empty where it
/// is absent.
pub open spec fn bytes_field(fs: Seq<FieldView>, number: u32) -> Seq<u8> {
    match last_bytes(fs, number) {
        Some(b) => b,
        None => Seq::empty(),
    }
}

/// Finds the value of the last varint field of this number.
pub fn find_varint(fields: &Vec<Field>, number: u32) -> (r: Option<u64>)
    ensures
        r == last_varint(fields_view(fields@), number),
{
    let ghost fs = fields_view(fields@);
    let mut found: Option<u64> = None;
    let mut i: usize = 0;
    assert(fs.subrange(0, 0) =~= Seq::<FieldView>::empty());
    while i < fields.len()
        invariant
            fs == fields_view(fields@),
            i <= fields@.len(),
            found == last_varint(fs.subrange(0, i as int), number),
        decreases fields@.len() - i,
    {
        assert(fs.subrange(0, i + 1).drop_last() =~= fs.subrange(0, i as int));
        assert(fs.subrange(0, i + 1).last() == fields@[i as int]@);
        if fields[i].number == number && fields[i].wire_type == WIRE_VARINT {
            found = Some(fields[i].value);
        }
        i = i + 1;
    }
    assert(fs.subrange(0, i as int) =~= fs);
    found
}

/// Finds the content of the last length-delimited field of this number.
pub fn find_bytes(fields: &Vec<Field>, number: u32) -> (r: Option<&Vec<u8>>)
    ensures
        match last_bytes(fields_view(fields@), number) {
            Some(b) => r is Some && r->Some_0@ == b,
            None => r is None,
        },
{
    let ghost fs = fields_view(fields@);
    let mut found: Option<&Vec<u8>> = None;
    let mut i: usize = 0;
    assert(fs.subrange(0, 0) =~= Seq::<FieldView>::empty());
    while i < fields.len()
        invariant
            fs == fields_view(fields@),
            i <= fields@.len(),
            match last_bytes(fs.subrange(0, i as int), number) {
                Some(b) => found is Some && found->Some_0@ == b,
                None => found is None,
            },
        decreases fields@.len() - i,
    {
        assert(fs.subrange(0, i + 1).drop_last() =~= fs.subrange(0, i as int));
        assert(fs.subrange(0, i + 1).last() == fields@[i as int]@);
        if fields[i].number == number && fields[i].wire_type == WIRE_DELIMITED {
            found = Some(&fields[i].bytes);
        }
        i = i + 1;
    }
    assert(fs.subrange(0, i as int) =~= fs);
    found
}

/// Reads the flag in the varint field of this number.
pub fn get_flag(fields: &Vec<Field>, number: u32) -> (r: bool)
    ensures
        r == flag_field(fields_view(fields@), number),
{
    match find_varint(fields, number) {
        Some(v) => (v % 0x1_0000_0000) as u32 != 0,
        None => false,
    }
}

/// Reads the unsigned number in the varint field of this number.
pub fn get_uint32(fields: &Vec<Field>, number: u32) -> (r: u32)
    ensures
        r == uint32_field(fields_view(fields@), number),
{
    match find_varint(fields, number) {
        Some(v) => (v % 0x1_0000_0000) as u32,
        None => 0,
    }
}

/// Copies the content of the length-delimited field of this number.
pub fn get_bytes(fields: &Vec<Field>, number: u32) -> (r: Vec<u8>)
    ensures
        r@ == bytes_field(fields_view(fields@), number),
{
    match find_bytes(fields, number) {
        Some(b) => copy_bytes(b),
        None => Vec::new(),
    }
}

impl ApbOperationResp {
    /// The answer that a serialised record stands for.
    pub open spec fn parse(payload: Seq<u8>) -> Option<ApbOperationResp> {
        match parse_fields(payload) {
            Some(fs) => Some(
                ApbOperationResp { success: flag_field(fs, 1), errorcode: uint32_field(fs, 2) },
            ),
            None => None,
        }
    }

    /// Reads the answer out of its serialised form.
    pub fn parse_from_bytes(payload: &Vec<u8>) -> (r: Option<ApbOperationResp>)
        ensures
            r == Self::parse(payload@),
    {
        match scan_fields(payload) {
            Some(fields) => Some(
                ApbOperationResp {
                    success: get_flag(&fields, 1),
                    errorcode: get_uint32(&fields, 2),
                },
            ),
            None => None,
        }
    }
}

impl ApbCreateDCResp {
    /// The answer that a serialised record stands for.
    pub open spec fn parse(payload: Seq<u8>) -> Option<ApbCreateDCResp> {
        match parse_fields(payload) {
            Some(fs) => Some(
                ApbCreateDCResp { success: flag_field(fs, 1), errorcode: uint32_field(fs, 2) },
            ),
            None => None,
        }
    }

    /// Reads the answer out of its serialised form.
    pub fn parse_from_bytes(payload: &Vec<u8>) -> (r: Option<ApbCreateDCResp>)
        ensures
            r == Self::parse(payload@),
    {
        match scan_fields(payload) {
            Some(fields) => Some(
                ApbCreateDCResp {
                    success: get_flag(&fields, 1),
                    errorcode: get_uint32(&fields, 2),
                },
            ),
            None => None,
        }
    }
}

impl ApbConnectToDCsResp {
    /// The answer that a serialised record stands for.
    pub open spec fn parse(payload: Seq<u8>) -> Option<ApbConnectToDCsResp> {
        match parse_fields(payload) {
            Some(fs) => Some(
                ApbConnectToDCsResp { success: flag_field(fs, 1), errorcode: uint32_field(fs, 2) },
            ),
            None => None,
        }
    }

    /// Reads the answer out of its serialised form.
    pub fn parse_from_bytes(payload: &Vec<u8>) -> (r: Option<ApbConnectToDCsResp>)
        ensures
            r == Self::parse(payload@),
    {
        match scan_fields(payload) {
            Some(fields) => Some(
                ApbConnectToDCsResp {
                    success: get_flag(&fields, 1),
                    errorcode: get_uint32(&fields, 2),
                },
            ),
            None => None,
        }
    }
}

/// Whether a record with a flag, a byte string and an error code is what the
/// fields hold under the numbers 1, 2 and 3.
pub open spec fn is_ack_with_bytes(
    fs: Seq<FieldView>,
    success: bool,
    bytes: Seq<u8>,
    errorcode: u32,
) -> bool {
    &&& success == flag_field(fs, 1)
    &&& bytes == bytes_field(fs, 2)
    &&& errorcode == uint32_field(fs, 3)
}

impl ApbStartTransactionResp {
    /// Whether this is the answer that a serialised record stands for.
    pub open spec fn is_parse_of(self, payload: Seq<u8>) -> bool {
        parse_fields(payload) matches Some(fs) && is_ack_with_bytes(
            fs,
            self.success,
            self.transaction_descriptor@,
            self.errorcode,
        )
    }

    /// Reads the answer out of its serialised form.
    pub fn parse_from_bytes(payload: &Vec<u8>) -> (r: Option<ApbStartTransactionResp>)
        ensures
            parse_fields(payload@) is Some ==> r is Some && r->Some_0.is_parse_of(payload@),
            parse_fields(payload@) is None ==> r is None,
    {
        match scan_fields(payload) {
            Some(fields) => Some(
                ApbStartTransactionResp {
                    success: get_flag(&fields, 1),
                    transaction_descriptor: get_bytes(&fields, 2),
                    errorcode: get_uint32(&fields, 3),
                },
            ),
            None => None,
        }
    }
}

impl ApbCommitResp {
    /// Whether this is the answer that a serialised record stands for.
    pub open spec fn is_parse_of(self, payload: Seq<u8>) -> bool {
        parse_fields(payload) matches Some(fs) && is_ack_with_bytes(
            fs,
            self.success,
            self.commit_time@,
            self.errorcode,
        )
    }

    /// Reads the answer out of its serialised form.
    pub fn parse_from_bytes(payload: &Vec<u8>) -> (r: Option<ApbCommitResp>)
        ensures
            parse_fields(payload@) is Some ==> r is Some && r->Some_0.is_parse_of(payload@),
            parse_fields(payload@) is None ==> r is None,
    {
        match scan_fields(payload) {
            Some(fields) => Some(
                ApbCommitResp {
                    success: get_flag(&fields, 1),
                    commit_time: get_bytes(&fields, 2),
                    errorcode: get_uint32(&fields, 3),
                },
            ),
            None => None,
        }
    }
}

impl ApbGetConnectionDescriptorResp {
    /// Whether this is the answer that a serialised record stands for.
    pub open spec fn is_parse_of(self, payload: Seq<u8>) -> bool {
        parse_fields(payload) matches Some(fs) && is_ack_with_bytes(
            fs,
            self.success,
            self.descriptor@,
            self.errorcode,
        )
    }

    /// Reads the answer out of its serialised form.
    pub fn parse_from_bytes(payload: &Vec<u8>) -> (r: Option<ApbGetConnectionDescriptorResp>)
        ensures
            parse_fields(payload@) is Some ==> r is Some && r->Some_0.is_parse_of(payload@),
            parse_fields(payload@) is None ==> r is None,
    {
        match scan_fields(payload) {
            Some(fields) => Some(
                ApbGetConnectionDescriptorResp {
                    success: get_flag(&fields, 1),
                    descriptor: get_bytes(&fields, 2),
                    errorcode: get_uint32(&fields, 3),
                },
            ),
            None => None,
        }
    }
}


/// How deep maps may be nested in the answer to a read.
pub const MAX_NESTING: u32 = 32;

/// The fields of the record embedded under this number; no fields where it
/// is absent, and none at all where it is ill-formed.
pub open spec fn sub_fields(fs: Seq<FieldView>, number: u32) -> Option<Seq<FieldView>> {
    match last_bytes(fs, number) {
        Some(b) => parse_fields(b),
        None => Some(Seq::empty()),
    }
}

/// Reads the fields of the record embedded under this number.
pub fn sub_scan(fields: &Vec<Field>, number: u32) -> (r: Option<Vec<Field>>)
    ensures
        match sub_fields(fields_view(fields@), number) {
            Some(s) => r is Some && fields_view(r->Some_0@) == s,
            None => r is None,
        },
{
    match find_bytes(fields, number) {
        Some(b) => scan_fields(b),
        None => {
            let r: Vec<Field> = Vec::new();
            assert(fields_view(r@) =~= Seq::<FieldView>::empty());
            Some(r)
        },
    }
}

/// The signed number that an unsigned one stands for in zigzag form: the
/// even numbers count up from 0, the odd ones down from -1.
pub open spec fn zigzag32(n: u32) -> i32 {
    if n % 2 == 0 {
        (n / 2) as i32
    } else {
        (-((n / 2) as int) - 1) as i32
    }
}

/// The signed number in the varint field of this number; 0 where it is
/// absent.
pub open spec fn sint32_field(fs: Seq<FieldView>, number: u32) -> i32 {
    match last_varint(fs, number) {
        Some(v) => zigzag32(low32(v)),
        None => 0,
    }
}

/// Reads the signed number in the varint field of this number.
pub fn get_sint32(fields: &Vec<Field>, number: u32) -> (r: i32)
    ensures
        r == sint32_field(fields_view(fields@), number),
{
    match find_varint(fields, number) {
        Some(v) => {
            let n: u32 = (v % 0x1_0000_0000) as u32;
            let half: i32 = (n / 2) as i32;
            if n % 2 == 0 {
                half
            } else {
                -half - 1
            }
        },
        None => 0,
    }
}

/// The kind of object in the varint field of this number; none where the
/// field is absent or holds no kind's number.
pub open spec fn kind_field(fs: Seq<FieldView>, number: u32) -> Option<CRDT_type> {
    let n = uint32_field(fs, number);
    if n > 11 {
        None
    } else {
        CRDT_type::spec_from_i32(n as i32)
    }
}

/// Reads the kind of object in the varint field of this number.
pub fn get_kind(fields: &Vec<Field>, number: u32) -> (r: Option<CRDT_type>)
    ensures
        r == kind_field(fields_view(fields@), number),
{
    let n: u32 = get_uint32(fields, number);
    if n > 11 {
        None
    } else {
        CRDT_type::from_i32(n as i32)
    }
}

/// Copies the contents of all length-delimited fields of this number.
pub fn get_all_bytes(fields: &Vec<Field>, number: u32) -> (r: Vec<Vec<u8>>)
    ensures
        bytes_list(r@) == all_bytes(fields_view(fields@), number),
{
    let ghost fs = fields_view(fields@);
    let mut out: Vec<Vec<u8>> = Vec::new();
    let mut i: usize = 0;
    assert(fs.subrange(0, 0) =~= Seq::<FieldView>::empty());
    assert(bytes_list(out@) =~= Seq::<Seq<u8>>::empty());
    while i < fields.len()
        invariant
            fs == fields_view(fields@),
            i <= fields@.len(),
            bytes_list(out@) == all_bytes(fs.subrange(0, i as int), number),
        decreases fields@.len() - i,
    {
        assert(fs.subrange(0, i + 1).drop_last() =~= fs.subrange(0, i as int));
        assert(fs.subrange(0, i + 1).last() == fields@[i as int]@);
        if fields[i].number == number && fields[i].wire_type == WIRE_DELIMITED {
            let ghost before = bytes_list(out@);
            let item = copy_bytes(&fields[i].bytes);
            out.push(item);
            assert(bytes_list(out@) =~= before.push(fields@[i as int].bytes@));
        }
        i = i + 1;
    }
    assert(fs.subrange(0, i as int) =~= fs);
    out
}

/// Whether every record embedded in the value of an object is well-formed.
pub open spec fn object_parts_ok(fs: Seq<FieldView>) -> bool {
    &&& sub_fields(fs, 1) is Some
    &&& sub_fields(fs, 2) is Some
    &&& sub_fields(fs, 3) is Some
    &&& sub_fields(fs, 4) is Some
    &&& sub_fields(fs, 6) is Some
}

/// The serialised entries of the map in the value of an object.
pub open spec fn map_entries(fs: Seq<FieldView>) -> Seq<Seq<u8>> {
    all_bytes(sub_fields(fs, 6)->Some_0, 1)
}

/// Whether `payload` holds the value of an object, with maps nested no
/// deeper than `depth`.
pub open spec fn object_parses(payload: Seq<u8>, depth: nat) -> bool
    decreases depth, 1nat,
{
    match parse_fields(payload) {
        None => false,
        Some(fs) => {
            &&& object_parts_ok(fs)
            &&& map_entries(fs).len() > 0 ==> depth > 0
            &&& forall|i: int|
                0 <= i < map_entries(fs).len() && depth > 0 ==> entry_parses(
                    #[trigger] map_entries(fs)[i],
                    (depth - 1) as nat,
                )
        },
    }
}

/// Whether `payload` holds an entry of a map, with maps nested no deeper
/// than `depth` in its value.
pub open spec fn entry_parses(payload: Seq<u8>, depth: nat) -> bool
    decreases depth, 2nat,
{
    match parse_fields(payload) {
        None => false,
        Some(fs) => match sub_fields(fs, 1) {
            None => false,
            Some(kfs) => kind_field(kfs, 2) is Some && object_parses(bytes_field(fs, 2), depth),
        },
    }
}

/// Whether `o` is the value of an object that `payload` holds: the counter
/// under field 1, the set under 2, the register under 3, the multi-value
/// register under 4, and the entries of the map under 6, in their order.
pub open spec fn object_is(o: ApbReadObjectResp, payload: Seq<u8>, depth: nat) -> bool
    decreases depth, 1nat,
{
    match parse_fields(payload) {
        None => false,
        Some(fs) => {
            &&& object_parts_ok(fs)
            &&& o.counter == sint32_field(sub_fields(fs, 1)->Some_0, 1)
            &&& bytes_list(o.set@) == all_bytes(sub_fields(fs, 2)->Some_0, 1)
            &&& o.reg@ == bytes_field(sub_fields(fs, 3)->Some_0, 1)
            &&& bytes_list(o.mvreg@) == all_bytes(sub_fields(fs, 4)->Some_0, 1)
            &&& o.map.map_resp.entries@.len() == map_entries(fs).len()
            &&& map_entries(fs).len() > 0 ==> depth > 0
            &&& forall|i: int|
                0 <= i < map_entries(fs).len() && depth > 0 ==> entry_is(
                    #[trigger] o.map.map_resp.entries@[i],
                    map_entries(fs)[i],
                    (depth - 1) as nat,
                )
        },
    }
}

/// Whether `e` is the entry of a map that `payload` holds: key and kind
/// under field 1, the value under field 2.
pub open spec fn entry_is(e: ApbMapEntry, payload: Seq<u8>, depth: nat) -> bool
    decreases depth, 2nat,
{
    match parse_fields(payload) {
        None => false,
        Some(fs) => match sub_fields(fs, 1) {
            None => false,
            Some(kfs) => {
                &&& e.key.key@ == bytes_field(kfs, 1)
                &&& Some(e.key.field_type) == kind_field(kfs, 2)
                &&& object_is(e.value, bytes_field(fs, 2), depth)
            },
        },
    }
}

/// A payload holds one value: two values that it holds agree in counter,
/// register, set and multi-value register, and in the number, the keys and
/// the kinds of the entries of their maps.
pub proof fn lemma_object_is_one(
    a: ApbReadObjectResp,
    b: ApbReadObjectResp,
    payload: Seq<u8>,
    depth: nat,
)
    requires
        object_is(a, payload, depth),
        object_is(b, payload, depth),
    ensures
        a.counter == b.counter,
        a.reg@ == b.reg@,
        bytes_list(a.set@) == bytes_list(b.set@),
        bytes_list(a.mvreg@) == bytes_list(b.mvreg@),
        a.map.map_resp.entries@.len() == b.map.map_resp.entries@.len(),
        forall|i: int|
            0 <= i < a.map.map_resp.entries@.len() ==> (#[trigger] a.map.map_resp.entries@[i]).key.key@
                == b.map.map_resp.entries@[i].key.key@ && a.map.map_resp.entries@[i].key.field_type
                == b.map.map_resp.entries@[i].key.field_type,
{
    let fs = parse_fields(payload)->Some_0;
    assert forall|i: int| 0 <= i < a.map.map_resp.entries@.len() implies (
    #[trigger] a.map.map_resp.entries@[i]).key.key@ == b.map.map_resp.entries@[i].key.key@
        && a.map.map_resp.entries@[i].key.field_type
        == b.map.map_resp.entries@[i].key.field_type by {
        assert(entry_is(a.map.map_resp.entries@[i], map_entries(fs)[i], (depth - 1) as nat));
        assert(entry_is(b.map.map_resp.entries@[i], map_entries(fs)[i], (depth - 1) as nat));
    }
}

/// A payload that holds some value of an object is one that parses.
pub proof fn lemma_object_is_parses(o: ApbReadObjectResp, payload: Seq<u8>, depth: nat)
    requires
        object_is(o, payload, depth),
    ensures
        object_parses(payload, depth),
    decreases depth, 1nat,
{
    let fs = parse_fields(payload)->Some_0;
    assert forall|i: int| 0 <= i < map_entries(fs).len() && depth > 0 implies entry_parses(
        #[trigger] map_entries(fs)[i],
        (depth - 1) as nat,
    ) by {
        assert(entry_is(o.map.map_resp.entries@[i], map_entries(fs)[i], (depth - 1) as nat));
        lemma_entry_is_parses(
            o.map.map_resp.entries@[i],
            map_entries(fs)[i],
            (depth - 1) as nat,
        );
    }
}

/// A payload that holds some entry of a map is one that parses.
pub proof fn lemma_entry_is_parses(e: ApbMapEntry, payload: Seq<u8>, depth: nat)
    requires
        entry_is(e, payload, depth),
    ensures
        entry_parses(payload, depth),
    decreases depth, 2nat,
{
    let fs = parse_fields(payload)->Some_0;
    lemma_object_is_parses(e.value, bytes_field(fs, 2), depth);
}

/// Reads the value of an object, with maps nested no deeper than `depth`.
pub fn parse_object(payload: &Vec<u8>, depth: u32) -> (r: Option<ApbReadObjectResp>)
    ensures
        r is Some <==> object_parses(payload@, depth as nat),
        r is Some ==> object_is(r->Some_0, payload@, depth as nat),
    decreases depth, 1nat,
{
    let fields = match scan_fields(payload) {
        Some(f) => f,
        None => {
            return None;
        },
    };
    let counter_fields = match sub_scan(&fields, 1) {
        Some(f) => f,
        None => {
            return None;
        },
    };
    let set_fields = match sub_scan(&fields, 2) {
        Some(f) => f,
        None => {
            return None;
        },
    };
    let reg_fields = match sub_scan(&fields, 3) {
        Some(f) => f,
        None => {
            return None;
        },
    };
    let mvreg_fields = match sub_scan(&fields, 4) {
        Some(f) => f,
        None => {
            return None;
        },
    };
    let map_fields = match sub_scan(&fields, 6) {
        Some(f) => f,
        None => {
            return None;
        },
    };
    let ghost fs = fields_view(fields@);
    let raw_entries = get_all_bytes(&map_fields, 1);
    let entries = match parse_entries(&raw_entries, depth) {
        Some(e) => e,
        None => {
            proof {
                let j = choose|j: int| #[trigger] entry_fails(raw_entries@, depth as nat, j);
                assert(entry_fails(raw_entries@, depth as nat, j));
                assert(map_entries(fs)[j] == raw_entries@[j]@);
            }
            return None;
        },
    };
    let o = ApbReadObjectResp {
        counter: get_sint32(&counter_fields, 1),
        set: get_all_bytes(&set_fields, 1),
        reg: get_bytes(&reg_fields, 1),
        mvreg: get_all_bytes(&mvreg_fields, 1),
        map: MapReadResult { map_resp: ApbGetMapResp { entries } },
    };
    proof {
        assert forall|i: int| 0 <= i < map_entries(fs).len() && depth > 0 implies entry_is(
            #[trigger] o.map.map_resp.entries@[i],
            map_entries(fs)[i],
            (depth - 1) as nat,
        ) by {
            assert(map_entries(fs)[i] == raw_entries@[i]@);
        }
        assert(object_is(o, payload@, depth as nat));
        lemma_object_is_parses(o, payload@, depth as nat);
    }
    Some(o)
}

/// Whether the entry at `j` is one that does not parse below `depth`.
pub open spec fn entry_fails(raw: Seq<Vec<u8>>, depth: nat, j: int) -> bool {
    0 <= j < raw.len() && (depth == 0 || !entry_parses(raw[j]@, (depth - 1) as nat))
}

/// Whether the value at `j` is one that does not parse.
pub open spec fn object_fails(raw: Seq<Vec<u8>>, j: int) -> bool {
    0 <= j < raw.len() && !object_parses(raw[j]@, MAX_NESTING as nat)
}

/// Reads the entries of a map, each with maps nested less deep than `depth`.
pub fn parse_entries(raw: &Vec<Vec<u8>>, depth: u32) -> (r: Option<Vec<ApbMapEntry>>)
    ensures
        r is Some ==> r->Some_0@.len() == raw@.len() && (raw@.len() > 0 ==> depth > 0)
            && forall|j: int|
            0 <= j < raw@.len() ==> entry_is(
                #[trigger] r->Some_0@[j],
                raw@[j]@,
                (depth - 1) as nat,
            ),
        r is None ==> exists|j: int| #[trigger] entry_fails(raw@, depth as nat, j),
    decreases depth, 0nat,
{
    let mut entries: Vec<ApbMapEntry> = Vec::new();
    let mut i: usize = 0;
    while i < raw.len()
        invariant
            i <= raw@.len(),
            entries@.len() == i,
            i > 0 ==> depth > 0,
            forall|j: int|
                0 <= j < i ==> entry_is(#[trigger] entries@[j], raw@[j]@, (depth - 1) as nat),
        decreases raw@.len() - i,
    {
        if depth == 0 {
            assert(entry_fails(raw@, depth as nat, i as int));
            return None;
        }
        match parse_entry(&raw[i], depth - 1) {
            Some(e) => {
                entries.push(e);
            },
            None => {
                assert(entry_fails(raw@, depth as nat, i as int));
                return None;
            },
        }
        i = i + 1;
    }
    Some(entries)
}

/// Reads an entry of a map, with maps nested no deeper than `depth` in its
/// value.
pub fn parse_entry(payload: &Vec<u8>, depth: u32) -> (r: Option<ApbMapEntry>)
    ensures
        r is Some <==> entry_parses(payload@, depth as nat),
        r is Some ==> entry_is(r->Some_0, payload@, depth as nat),
    decreases depth, 2nat,
{
    let fields = match scan_fields(payload) {
        Some(f) => f,
        None => {
            return None;
        },
    };
    let key_fields = match sub_scan(&fields, 1) {
        Some(f) => f,
        None => {
            return None;
        },
    };
    let kind = match get_kind(&key_fields, 2) {
        Some(k) => k,
        None => {
            return None;
        },
    };
    let key = get_bytes(&key_fields, 1);
    let value_bytes = get_bytes(&fields, 2);
    let value = match parse_object(&value_bytes, depth) {
        Some(v) => v,
        None => {
            return None;
        },
    };
    Some(ApbMapEntry { key: ApbMapKey { key, field_type: kind }, value })
}

impl ApbReadObjectsResp {
    /// Whether `payload` holds the answer to a read.
    pub open spec fn parses(payload: Seq<u8>) -> bool {
        match parse_fields(payload) {
            None => false,
            Some(fs) => forall|i: int|
                0 <= i < all_bytes(fs, 2).len() ==> object_parses(
                    #[trigger] all_bytes(fs, 2)[i],
                    MAX_NESTING as nat,
                ),
        }
    }

    /// Whether this is the answer that `payload` holds: the flag under field
    /// 1, the values under field 2 in their order, the error code under 3.
    pub open spec fn is_parse_of(self, payload: Seq<u8>) -> bool {
        match parse_fields(payload) {
            None => false,
            Some(fs) => {
                &&& self.success == flag_field(fs, 1)
                &&& self.errorcode == uint32_field(fs, 3)
                &&& self.objects@.len() == all_bytes(fs, 2).len()
                &&& forall|i: int|
                    0 <= i < all_bytes(fs, 2).len() ==> object_is(
                        #[trigger] self.objects@[i],
                        all_bytes(fs, 2)[i],
                        MAX_NESTING as nat,
                    )
            },
        }
    }

    /// Reads the answer out of its serialised form.
    pub fn parse_from_bytes(payload: &Vec<u8>) -> (r: Option<ApbReadObjectsResp>)
        ensures
            r is Some <==> Self::parses(payload@),
            r is Some ==> r->Some_0.is_parse_of(payload@),
    {
        let fields = match scan_fields(payload) {
            Some(f) => f,
            None => {
                return None;
            },
        };
        let ghost fs = fields_view(fields@);
        let raw = get_all_bytes(&fields, 2);
        let objects = match parse_objects(&raw) {
            Some(o) => o,
            None => {
                proof {
                    let j = choose|j: int| #[trigger] object_fails(raw@, j);
                    assert(object_fails(raw@, j));
                    assert(all_bytes(fs, 2)[j] == raw@[j]@);
                }
                return None;
            },
        };
        let resp = ApbReadObjectsResp {
            success: get_flag(&fields, 1),
            objects,
            errorcode: get_uint32(&fields, 3),
        };
        proof {
            assert forall|j: int| 0 <= j < all_bytes(fs, 2).len() implies object_is(
                #[trigger] resp.objects@[j],
                all_bytes(fs, 2)[j],
                MAX_NESTING as nat,
            ) by {
                assert(all_bytes(fs, 2)[j] == raw@[j]@);
            }
            assert forall|j: int| 0 <= j < all_bytes(fs, 2).len() implies object_parses(
                #[trigger] all_bytes(fs, 2)[j],
                MAX_NESTING as nat,
            ) by {
                lemma_object_is_parses(resp.objects@[j], all_bytes(fs, 2)[j], MAX_NESTING as nat);
            }
        }
        Some(resp)
    }
}

/// Reads the values of objects, one out of each serialised form.
pub fn parse_objects(raw: &Vec<Vec<u8>>) -> (r: Option<Vec<ApbReadObjectResp>>)
    ensures
        r is Some ==> r->Some_0@.len() == raw@.len() && forall|j: int|
            0 <= j < raw@.len() ==> object_is(
                #[trigger] r->Some_0@[j],
                raw@[j]@,
                MAX_NESTING as nat,
            ),
        r is None ==> exists|j: int| #[trigger] object_fails(raw@, j),
{
    let mut objects: Vec<ApbReadObjectResp> = Vec::new();
    let mut i: usize = 0;
    while i < raw.len()
        invariant
            i <= raw@.len(),
            objects@.len() == i,
            forall|j: int|
                0 <= j < i ==> object_is(#[trigger] objects@[j], raw@[j]@, MAX_NESTING as nat),
        decreases raw@.len() - i,
    {
        match parse_object(&raw[i], MAX_NESTING) {
            Some(o) => {
                objects.push(o);
            },
            None => {
                assert(object_fails(raw@, i as int));
                return None;
            },
        }
        i = i + 1;
    }
    Some(objects)
}

impl ApbStaticReadObjectsResp {
    /// Whether `payload` holds the answer to a static read.
    pub open spec fn parses(payload: Seq<u8>) -> bool {
        match parse_fields(payload) {
            None => false,
            Some(fs) => ApbReadObjectsResp::parses(bytes_field(fs, 1)) && parse_fields(
                bytes_field(fs, 2),
            ) is Some,
        }
    }

    /// Whether this is the answer that `payload` holds: the values under
    /// field 1, the commit under field 2.
    pub open spec fn is_parse_of(self, payload: Seq<u8>) -> bool {
        match parse_fields(payload) {
            None => false,
            Some(fs) => self.objects.is_parse_of(bytes_field(fs, 1))
                && self.committime.is_parse_of(bytes_field(fs, 2)),
        }
    }

    /// Reads the answer out of its serialised form.
    pub fn parse_from_bytes(payload: &Vec<u8>) -> (r: Option<ApbStaticReadObjectsResp>)
        ensures
            r is Some <==> Self::parses(payload@),
            r is Some ==> r->Some_0.is_parse_of(payload@),
    {
        let fields = match scan_fields(payload) {
            Some(f) => f,
            None => {
                return None;
            },
        };
        let objects_bytes = get_bytes(&fields, 1);
        let commit_bytes = get_bytes(&fields, 2);
        let objects = match ApbReadObjectsResp::parse_from_bytes(&objects_bytes) {
            Some(o) => o,
            None => {
                return None;
            },
        };
        let committime = match ApbCommitResp::parse_from_bytes(&commit_bytes) {
            Some(c) => c,
            None => {
                return None;
            },
        };
        Some(ApbStaticReadObjectsResp { objects, committime })
    }
}

} // verus!
