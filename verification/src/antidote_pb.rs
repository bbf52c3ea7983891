//! The records of the protocol and their serialised form.
//!
//! Every record has a spec function `wire`, the bytes that stand for it, and a
//! function `write_to_bytes` that produces exactly those bytes. An embedded
//! record is a length-delimited field that holds the record's own bytes.

use vstd::prelude::*;
use crate::transactions::MapReadResult;
use crate::wire::{
    encode_bytes_field, encode_enum_field, encode_sint64_field, encode_string_field,
    encode_uint32_field, pb_bytes_field, pb_enum_field, pb_sint64_field, pb_string_field,
    pb_uint32_field,
};

verus! {

/// The kind of a replicated object.
#[allow(non_camel_case_types)]
#[derive(Clone, Copy, Debug, PartialEq, Eq, Structural)]
pub enum CRDT_type {
    /// A counter.
    COUNTER,
    /// An observed-remove set.
    ORSET,
    /// A last-writer-wins register.
    LWWREG,
    /// A multi-value register.
    MVREG,
    /// A map whose entries are replicated objects themselves.
    RRMAP,
}

impl CRDT_type {
    /// The number that stands for the kind on the wire.
    pub open spec fn spec_value(self) -> i32 {
        match self {
            CRDT_type::COUNTER => 3,
            CRDT_type::ORSET => 4,
            CRDT_type::LWWREG => 5,
            CRDT_type::MVREG => 6,
            CRDT_type::RRMAP => 11,
        }
    }

    /// The number that stands for the kind on the wire.
    #[verifier::when_used_as_spec(spec_value)]
    pub fn value(self) -> (n: i32)
        ensures
            n == self.spec_value(),
    {
        match self {
            CRDT_type::COUNTER => 3,
            CRDT_type::ORSET => 4,
            CRDT_type::LWWREG => 5,
            CRDT_type::MVREG => 6,
            CRDT_type::RRMAP => 11,
        }
    }

    /// The kind that a number stands for, if any.
    pub open spec fn spec_from_i32(n: i32) -> Option<CRDT_type> {
        if n == 3 {
            Some(CRDT_type::COUNTER)
        } else if n == 4 {
            Some(CRDT_type::ORSET)
        } else if n == 5 {
            Some(CRDT_type::LWWREG)
        } else if n == 6 {
            Some(CRDT_type::MVREG)
        } else if n == 11 {
            Some(CRDT_type::RRMAP)
        } else {
            None
        }
    }

    /// The kind that a number stands for, if any.
    #[verifier::when_used_as_spec(spec_from_i32)]
    pub fn from_i32(n: i32) -> (r: Option<CRDT_type>)
        ensures
            r == Self::spec_from_i32(n),
    {
        if n == 3 {
            Some(CRDT_type::COUNTER)
        } else if n == 4 {
            Some(CRDT_type::ORSET)
        } else if n == 5 {
            Some(CRDT_type::LWWREG)
        } else if n == 6 {
            Some(CRDT_type::MVREG)
        } else if n == 11 {
            Some(CRDT_type::RRMAP)
        } else {
            None
        }
    }
}

/// Every kind is found again from its number.
pub proof fn lemma_crdt_type_number_round_trip(t: CRDT_type)
    ensures
        CRDT_type::spec_from_i32(t.spec_value()) == Some(t),
{
}

/// Whether a set update adds or removes.
#[allow(non_camel_case_types)]
#[derive(Clone, Copy, Debug, PartialEq, Eq, Structural)]
pub enum ApbSetUpdate_SetOpType {
    ADD,
    REMOVE,
}

impl ApbSetUpdate_SetOpType {
    /// The number that stands for the direction on the wire.
    pub open spec fn spec_value(self) -> i32 {
        match self {
            ApbSetUpdate_SetOpType::ADD => 1,
            ApbSetUpdate_SetOpType::REMOVE => 2,
        }
    }

    /// The number that stands for the direction on the wire.
    #[verifier::when_used_as_spec(spec_value)]
    pub fn value(self) -> (n: i32)
        ensures
            n == self.spec_value(),
    {
        match self {
            ApbSetUpdate_SetOpType::ADD => 1,
            ApbSetUpdate_SetOpType::REMOVE => 2,
        }
    }
}

/// Appends `part` to `out`.
pub(crate) fn append_bytes(out: &mut Vec<u8>, part: Vec<u8>)
    ensures
        final(out)@ == old(out)@ + part@,
{
    let mut part = part;
    out.append(&mut part);
}

/// The fields that a list of byte strings gives under one field number, in
/// the order of the list.
pub open spec fn repeated_bytes_wire(field_number: u32, items: Seq<Vec<u8>>) -> Seq<u8>
    decreases items.len(),
{
    if items.len() == 0 {
        Seq::empty()
    } else {
        repeated_bytes_wire(field_number, items.drop_last()) + pb_bytes_field(
            field_number,
            items.last()@,
        )
    }
}

/// Serialises a list of byte strings as repeated fields.
pub fn write_repeated_bytes(field_number: u32, items: &Vec<Vec<u8>>) -> (out: Vec<u8>)
    requires
        0 < field_number <= crate::wire::FIELD_NUMBER_MAX,
    ensures
        out@ == repeated_bytes_wire(field_number, items@),
{
    let mut out: Vec<u8> = Vec::new();
    let mut i: usize = 0;
    while i < items.len()
        invariant
            0 < field_number <= crate::wire::FIELD_NUMBER_MAX,
            i <= items@.len(),
            out@ == repeated_bytes_wire(field_number, items@.subrange(0, i as int)),
        decreases items@.len() - i,
    {
        let part = encode_bytes_field(field_number, &items[i]);
        append_bytes(&mut out, part);
        assert(items@.subrange(0, i + 1).drop_last() == items@.subrange(0, i as int));
        i = i + 1;
    }
    assert(items@.subrange(0, i as int) == items@);
    out
}

/// An object of a bucket: its key, its kind and the bucket.
pub struct ApbBoundObject {
    pub key: Vec<u8>,
    pub field_type: CRDT_type,
    pub bucket: Vec<u8>,
}

impl ApbBoundObject {
    /// The serialised form of the record.
    pub open spec fn wire(self) -> Seq<u8> {
        pb_bytes_field(1, self.key@) + pb_enum_field(2, self.field_type.spec_value())
            + pb_bytes_field(3, self.bucket@)
    }

    /// Serialises the record.
    pub fn write_to_bytes(&self) -> (out: Vec<u8>)
        ensures
            out@ == self.wire(),
    {
        let mut out = encode_bytes_field(1, &self.key);
        append_bytes(&mut out, encode_enum_field(2, self.field_type.value()));
        append_bytes(&mut out, encode_bytes_field(3, &self.bucket));
        out
    }
}

/// An entry of a map: its key and its kind.
pub struct ApbMapKey {
    pub key: Vec<u8>,
    pub field_type: CRDT_type,
}

impl ApbMapKey {
    /// The serialised form of the record.
    pub open spec fn wire(self) -> Seq<u8> {
        pb_bytes_field(1, self.key@) + pb_enum_field(2, self.field_type.spec_value())
    }

    /// Serialises the record.
    pub fn write_to_bytes(&self) -> (out: Vec<u8>)
        ensures
            out@ == self.wire(),
    {
        let mut out = encode_bytes_field(1, &self.key);
        append_bytes(&mut out, encode_enum_field(2, self.field_type.value()));
        out
    }
}

/// An increment of a counter; a negative one decrements.
pub struct ApbCounterUpdate {
    pub inc: i64,
}

impl ApbCounterUpdate {
    /// The serialised form of the record.
    pub open spec fn wire(self) -> Seq<u8> {
        pb_sint64_field(1, self.inc)
    }

    /// Serialises the record.
    pub fn write_to_bytes(&self) -> (out: Vec<u8>)
        ensures
            out@ == self.wire(),
    {
        encode_sint64_field(1, self.inc)
    }
}

/// Elements to add to a set, or to remove from it.
pub struct ApbSetUpdate {
    pub optype: ApbSetUpdate_SetOpType,
    pub adds: Vec<Vec<u8>>,
    pub rems: Vec<Vec<u8>>,
}

impl ApbSetUpdate {
    /// The serialised form of the record.
    pub open spec fn wire(self) -> Seq<u8> {
        pb_enum_field(1, self.optype.spec_value()) + repeated_bytes_wire(2, self.adds@)
            + repeated_bytes_wire(3, self.rems@)
    }

    /// Serialises the record.
    pub fn write_to_bytes(&self) -> (out: Vec<u8>)
        ensures
            out@ == self.wire(),
    {
        let mut out = encode_enum_field(1, self.optype.value());
        append_bytes(&mut out, write_repeated_bytes(2, &self.adds));
        append_bytes(&mut out, write_repeated_bytes(3, &self.rems));
        out
    }
}

/// A new value for a register.
pub struct ApbRegUpdate {
    pub value: Vec<u8>,
}

impl ApbRegUpdate {
    /// The serialised form of the record.
    pub open spec fn wire(self) -> Seq<u8> {
        pb_bytes_field(1, self.value@)
    }

    /// Serialises the record.
    pub fn write_to_bytes(&self) -> (out: Vec<u8>)
        ensures
            out@ == self.wire(),
    {
        encode_bytes_field(1, &self.value)
    }
}

/// Updates to entries of a map.
pub struct ApbMapUpdate {
    pub updates: Vec<ApbMapNestedUpdate>,
}

/// An update to one entry of a map.
pub struct ApbMapNestedUpdate {
    pub key: ApbMapKey,
    pub update: ApbUpdateOperation,
}

/// What an update does, by the kind of object it is for.
pub enum ApbUpdateOperation {
    CounterOp(ApbCounterUpdate),
    SetOp(ApbSetUpdate),
    RegOp(ApbRegUpdate),
    MapOp(ApbMapUpdate),
}

impl ApbMapUpdate {
    /// The bytes of the first `n` nested updates.
    pub open spec fn wire_prefix(self, n: nat) -> Seq<u8>
        decreases self, n,
    {
        if n == 0 || n > self.updates@.len() {
            Seq::empty()
        } else {
            self.wire_prefix((n - 1) as nat) + pb_bytes_field(
                1,
                self.updates@[n - 1].wire(),
            )
        }
    }

    /// The serialised form of the record.
    pub open spec fn wire(self) -> Seq<u8> {
        self.wire_prefix(self.updates@.len())
    }

    /// Serialises the record.
    pub fn write_to_bytes(&self) -> (out: Vec<u8>)
        ensures
            out@ == self.wire(),
        decreases self,
    {
        let mut out: Vec<u8> = Vec::new();
        let mut i: usize = 0;
        while i < self.updates.len()
            invariant
                i <= self.updates@.len(),
                out@ == self.wire_prefix(i as nat),
            decreases self.updates@.len() - i,
        {
            let inner = self.updates[i].write_to_bytes();
            append_bytes(&mut out, encode_bytes_field(1, &inner));
            i = i + 1;
        }
        out
    }
}

impl ApbMapNestedUpdate {
    /// The serialised form of the record.
    pub open spec fn wire(self) -> Seq<u8>
        decreases self,
    {
        pb_bytes_field(1, self.key.wire()) + pb_bytes_field(2, self.update.wire())
    }

    /// Serialises the record.
    pub fn write_to_bytes(&self) -> (out: Vec<u8>)
        ensures
            out@ == self.wire(),
        decreases self,
    {
        let key = self.key.write_to_bytes();
        let update = self.update.write_to_bytes();
        let mut out = encode_bytes_field(1, &key);
        append_bytes(&mut out, encode_bytes_field(2, &update));
        out
    }
}

impl ApbUpdateOperation {
    /// The serialised form of the record.
    pub open spec fn wire(self) -> Seq<u8>
        decreases self,
    {
        match self {
            ApbUpdateOperation::CounterOp(c) => pb_bytes_field(1, c.wire()),
            ApbUpdateOperation::SetOp(s) => pb_bytes_field(2, s.wire()),
            ApbUpdateOperation::RegOp(r) => pb_bytes_field(3, r.wire()),
            ApbUpdateOperation::MapOp(m) => pb_bytes_field(5, m.wire_prefix(m.updates@.len())),
        }
    }

    /// Serialises the record.
    pub fn write_to_bytes(&self) -> (out: Vec<u8>)
        ensures
            out@ == self.wire(),
        decreases self,
    {
        match self {
            ApbUpdateOperation::CounterOp(c) => {
                let inner = c.write_to_bytes();
                encode_bytes_field(1, &inner)
            },
            ApbUpdateOperation::SetOp(s) => {
                let inner = s.write_to_bytes();
                encode_bytes_field(2, &inner)
            },
            ApbUpdateOperation::RegOp(r) => {
                let inner = r.write_to_bytes();
                encode_bytes_field(3, &inner)
            },
            ApbUpdateOperation::MapOp(m) => {
                let inner = m.write_to_bytes();
                encode_bytes_field(5, &inner)
            },
        }
    }
}


/// One update to one object of a bucket.
pub struct ApbUpdateOp {
    pub boundobject: ApbBoundObject,
    pub operation: ApbUpdateOperation,
}

impl ApbUpdateOp {
    /// The serialised form of the record.
    pub open spec fn wire(self) -> Seq<u8> {
        pb_bytes_field(1, self.boundobject.wire()) + pb_bytes_field(2, self.operation.wire())
    }

    /// Serialises the record.
    pub fn write_to_bytes(&self) -> (out: Vec<u8>)
        ensures
            out@ == self.wire(),
    {
        let object = self.boundobject.write_to_bytes();
        let operation = self.operation.write_to_bytes();
        let mut out = encode_bytes_field(1, &object);
        append_bytes(&mut out, encode_bytes_field(2, &operation));
        out
    }
}

/// The fields that a list of objects gives under one field number.
pub open spec fn bound_objects_wire(field_number: u32, items: Seq<ApbBoundObject>) -> Seq<u8>
    decreases items.len(),
{
    if items.len() == 0 {
        Seq::empty()
    } else {
        bound_objects_wire(field_number, items.drop_last()) + pb_bytes_field(
            field_number,
            items.last().wire(),
        )
    }
}

/// Serialises a list of objects as repeated fields.
pub fn write_bound_objects(field_number: u32, items: &Vec<ApbBoundObject>) -> (out: Vec<u8>)
    requires
        0 < field_number <= crate::wire::FIELD_NUMBER_MAX,
    ensures
        out@ == bound_objects_wire(field_number, items@),
{
    let mut out: Vec<u8> = Vec::new();
    let mut i: usize = 0;
    while i < items.len()
        invariant
            0 < field_number <= crate::wire::FIELD_NUMBER_MAX,
            i <= items@.len(),
            out@ == bound_objects_wire(field_number, items@.subrange(0, i as int)),
        decreases items@.len() - i,
    {
        let inner = items[i].write_to_bytes();
        append_bytes(&mut out, encode_bytes_field(field_number, &inner));
        assert(items@.subrange(0, i + 1).drop_last() == items@.subrange(0, i as int));
        i = i + 1;
    }
    assert(items@.subrange(0, i as int) == items@);
    out
}

/// The fields that a list of updates gives under one field number.
pub open spec fn update_ops_wire(field_number: u32, items: Seq<ApbUpdateOp>) -> Seq<u8>
    decreases items.len(),
{
    if items.len() == 0 {
        Seq::empty()
    } else {
        update_ops_wire(field_number, items.drop_last()) + pb_bytes_field(
            field_number,
            items.last().wire(),
        )
    }
}

/// Serialises a list of updates as repeated fields.
pub fn write_update_ops(field_number: u32, items: &Vec<ApbUpdateOp>) -> (out: Vec<u8>)
    requires
        0 < field_number <= crate::wire::FIELD_NUMBER_MAX,
    ensures
        out@ == update_ops_wire(field_number, items@),
{
    let mut out: Vec<u8> = Vec::new();
    let mut i: usize = 0;
    while i < items.len()
        invariant
            0 < field_number <= crate::wire::FIELD_NUMBER_MAX,
            i <= items@.len(),
            out@ == update_ops_wire(field_number, items@.subrange(0, i as int)),
        decreases items@.len() - i,
    {
        let inner = items[i].write_to_bytes();
        append_bytes(&mut out, encode_bytes_field(field_number, &inner));
        assert(items@.subrange(0, i + 1).drop_last() == items@.subrange(0, i as int));
        i = i + 1;
    }
    assert(items@.subrange(0, i as int) == items@);
    out
}

/// The fields that a list of texts gives under one field number.
pub open spec fn repeated_string_wire(field_number: u32, items: Seq<String>) -> Seq<u8>
    decreases items.len(),
{
    if items.len() == 0 {
        Seq::empty()
    } else {
        repeated_string_wire(field_number, items.drop_last()) + pb_string_field(
            field_number,
            items.last()@,
        )
    }
}

/// Serialises a list of texts as repeated fields.
pub fn write_repeated_string(field_number: u32, items: &Vec<String>) -> (out: Vec<u8>)
    requires
        0 < field_number <= crate::wire::FIELD_NUMBER_MAX,
    ensures
        out@ == repeated_string_wire(field_number, items@),
{
    let mut out: Vec<u8> = Vec::new();
    let mut i: usize = 0;
    while i < items.len()
        invariant
            0 < field_number <= crate::wire::FIELD_NUMBER_MAX,
            i <= items@.len(),
            out@ == repeated_string_wire(field_number, items@.subrange(0, i as int)),
        decreases items@.len() - i,
    {
        append_bytes(&mut out, encode_string_field(field_number, &items[i]));
        assert(items@.subrange(0, i + 1).drop_last() == items@.subrange(0, i as int));
        i = i + 1;
    }
    assert(items@.subrange(0, i as int) == items@);
    out
}

/// How a transaction is to run; an absent property takes the server's default.
pub struct ApbTxnProperties {
    pub read_write: Option<u32>,
    pub red_blue: Option<u32>,
}

impl ApbTxnProperties {
    /// The serialised form of the record.
    pub open spec fn wire(self) -> Seq<u8> {
        (match self.read_write {
            Some(v) => pb_uint32_field(1, v),
            None => Seq::empty(),
        }) + (match self.red_blue {
            Some(v) => pb_uint32_field(2, v),
            None => Seq::empty(),
        })
    }

    /// Serialises the record.
    pub fn write_to_bytes(&self) -> (out: Vec<u8>)
        ensures
            out@ == self.wire(),
    {
        let mut out: Vec<u8> = Vec::new();
        if let Some(v) = self.read_write {
            append_bytes(&mut out, encode_uint32_field(1, v));
        }
        if let Some(v) = self.red_blue {
            append_bytes(&mut out, encode_uint32_field(2, v));
        }
        out
    }
}

/// Asks the server to open a transaction.
pub struct ApbStartTransaction {
    pub properties: Option<ApbTxnProperties>,
}

impl ApbStartTransaction {
    /// The serialised form of the record.
    pub open spec fn wire(self) -> Seq<u8> {
        match self.properties {
            Some(p) => pb_bytes_field(2, p.wire()),
            None => Seq::empty(),
        }
    }

    /// Serialises the record.
    pub fn write_to_bytes(&self) -> (out: Vec<u8>)
        ensures
            out@ == self.wire(),
    {
        match &self.properties {
            Some(p) => {
                let inner = p.write_to_bytes();
                encode_bytes_field(2, &inner)
            },
            None => Vec::new(),
        }
    }
}

/// Asks for the values of objects inside an open transaction.
pub struct ApbReadObjects {
    pub boundobjects: Vec<ApbBoundObject>,
    pub transaction_descriptor: Vec<u8>,
}

impl ApbReadObjects {
    /// The serialised form of the record.
    pub open spec fn wire(self) -> Seq<u8> {
        bound_objects_wire(1, self.boundobjects@) + pb_bytes_field(
            2,
            self.transaction_descriptor@,
        )
    }

    /// Serialises the record.
    pub fn write_to_bytes(&self) -> (out: Vec<u8>)
        ensures
            out@ == self.wire(),
    {
        let mut out = write_bound_objects(1, &self.boundobjects);
        append_bytes(&mut out, encode_bytes_field(2, &self.transaction_descriptor));
        out
    }
}

/// Applies updates inside an open transaction.
pub struct ApbUpdateObjects {
    pub updates: Vec<ApbUpdateOp>,
    pub transaction_descriptor: Vec<u8>,
}

impl ApbUpdateObjects {
    /// The serialised form of the record.
    pub open spec fn wire(self) -> Seq<u8> {
        update_ops_wire(1, self.updates@) + pb_bytes_field(2, self.transaction_descriptor@)
    }

    /// Serialises the record.
    pub fn write_to_bytes(&self) -> (out: Vec<u8>)
        ensures
            out@ == self.wire(),
    {
        let mut out = write_update_ops(1, &self.updates);
        append_bytes(&mut out, encode_bytes_field(2, &self.transaction_descriptor));
        out
    }
}

/// Gives up an open transaction.
pub struct ApbAbortTransaction {
    pub transaction_descriptor: Vec<u8>,
}

impl ApbAbortTransaction {
    /// The serialised form of the record.
    pub open spec fn wire(self) -> Seq<u8> {
        pb_bytes_field(1, self.transaction_descriptor@)
    }

    /// Serialises the record.
    pub fn write_to_bytes(&self) -> (out: Vec<u8>)
        ensures
            out@ == self.wire(),
    {
        encode_bytes_field(1, &self.transaction_descriptor)
    }
}

/// Commits an open transaction.
pub struct ApbCommitTransaction {
    pub transaction_descriptor: Vec<u8>,
}

impl ApbCommitTransaction {
    /// The serialised form of the record.
    pub open spec fn wire(self) -> Seq<u8> {
        pb_bytes_field(1, self.transaction_descriptor@)
    }

    /// Serialises the record.
    pub fn write_to_bytes(&self) -> (out: Vec<u8>)
        ensures
            out@ == self.wire(),
    {
        encode_bytes_field(1, &self.transaction_descriptor)
    }
}

/// Updates in a transaction of their own, which the server commits at once.
pub struct ApbStaticUpdateObjects {
    pub transaction: ApbStartTransaction,
    pub updates: Vec<ApbUpdateOp>,
}

impl ApbStaticUpdateObjects {
    /// The serialised form of the record.
    pub open spec fn wire(self) -> Seq<u8> {
        pb_bytes_field(1, self.transaction.wire()) + update_ops_wire(2, self.updates@)
    }

    /// Serialises the record.
    pub fn write_to_bytes(&self) -> (out: Vec<u8>)
        ensures
            out@ == self.wire(),
    {
        let inner = self.transaction.write_to_bytes();
        let mut out = encode_bytes_field(1, &inner);
        append_bytes(&mut out, write_update_ops(2, &self.updates));
        out
    }
}

/// Reads in a transaction of their own, which the server commits at once.
pub struct ApbStaticReadObjects {
    pub transaction: ApbStartTransaction,
    pub objects: Vec<ApbBoundObject>,
}

impl ApbStaticReadObjects {
    /// The serialised form of the record.
    pub open spec fn wire(self) -> Seq<u8> {
        pb_bytes_field(1, self.transaction.wire()) + bound_objects_wire(2, self.objects@)
    }

    /// Serialises the record.
    pub fn write_to_bytes(&self) -> (out: Vec<u8>)
        ensures
            out@ == self.wire(),
    {
        let inner = self.transaction.write_to_bytes();
        let mut out = encode_bytes_field(1, &inner);
        append_bytes(&mut out, write_bound_objects(2, &self.objects));
        out
    }
}

/// Forms a datacenter of the named nodes.
pub struct ApbCreateDC {
    pub nodes: Vec<String>,
}

impl ApbCreateDC {
    /// The serialised form of the record.
    pub open spec fn wire(self) -> Seq<u8> {
        repeated_string_wire(1, self.nodes@)
    }

    /// Serialises the record.
    pub fn write_to_bytes(&self) -> (out: Vec<u8>)
        ensures
            out@ == self.wire(),
    {
        write_repeated_string(1, &self.nodes)
    }
}

/// Joins this datacenter with those that the descriptors stand for.
pub struct ApbConnectToDCs {
    pub descriptors: Vec<Vec<u8>>,
}

impl ApbConnectToDCs {
    /// The serialised form of the record.
    pub open spec fn wire(self) -> Seq<u8> {
        repeated_bytes_wire(1, self.descriptors@)
    }

    /// Serialises the record.
    pub fn write_to_bytes(&self) -> (out: Vec<u8>)
        ensures
            out@ == self.wire(),
    {
        write_repeated_bytes(1, &self.descriptors)
    }
}

/// Asks for the descriptor of this datacenter.
pub struct ApbGetConnectionDescriptor {
}

impl ApbGetConnectionDescriptor {
    /// The serialised form of the record.
    pub open spec fn wire(self) -> Seq<u8> {
        Seq::empty()
    }

    /// Serialises the record.
    pub fn write_to_bytes(&self) -> (out: Vec<u8>)
        ensures
            out@ == self.wire(),
    {
        Vec::new()
    }
}

/// The answer to an update or an abort.
#[derive(Clone, Copy, Debug, PartialEq, Eq, Structural)]
pub struct ApbOperationResp {
    pub success: bool,
    pub errorcode: u32,
}

/// The answer to the opening of a transaction.
#[derive(Clone, Debug, PartialEq, Eq)]
pub struct ApbStartTransactionResp {
    pub success: bool,
    pub transaction_descriptor: Vec<u8>,
    pub errorcode: u32,
}

/// The answer to a commit.
#[derive(Clone, Debug, PartialEq, Eq)]
pub struct ApbCommitResp {
    pub success: bool,
    pub commit_time: Vec<u8>,
    pub errorcode: u32,
}

/// The value of one object. The field of the object's kind holds it; the
/// others are empty, as a field that the server left out reads.
pub struct ApbReadObjectResp {
    pub counter: i32,
    pub set: Vec<Vec<u8>>,
    pub reg: Vec<u8>,
    pub mvreg: Vec<Vec<u8>>,
    pub map: MapReadResult,
}

/// The entries of a map.
pub struct ApbGetMapResp {
    pub entries: Vec<ApbMapEntry>,
}

/// One entry of a map: its key and kind, and its value.
pub struct ApbMapEntry {
    pub key: ApbMapKey,
    pub value: ApbReadObjectResp,
}

/// The answer to a read: one value for each object asked for, in that order.
pub struct ApbReadObjectsResp {
    pub success: bool,
    pub objects: Vec<ApbReadObjectResp>,
    pub errorcode: u32,
}

/// The answer to a read in a transaction of its own.
pub struct ApbStaticReadObjectsResp {
    pub objects: ApbReadObjectsResp,
    pub committime: ApbCommitResp,
}

/// The answer to the forming of a datacenter.
#[derive(Clone, Copy, Debug, PartialEq, Eq, Structural)]
pub struct ApbCreateDCResp {
    pub success: bool,
    pub errorcode: u32,
}

/// The answer to the joining of datacenters.
#[derive(Clone, Copy, Debug, PartialEq, Eq, Structural)]
pub struct ApbConnectToDCsResp {
    pub success: bool,
    pub errorcode: u32,
}

/// The answer to the request for this datacenter's descriptor.
#[derive(Clone, Debug, PartialEq, Eq)]
pub struct ApbGetConnectionDescriptorResp {
    pub success: bool,
    pub descriptor: Vec<u8>,
    pub errorcode: u32,
}

/// The views of a list of byte strings.
pub open spec fn bytes_list(items: Seq<Vec<u8>>) -> Seq<Seq<u8>> {
    Seq::new(items.len(), |i: int| items[i]@)
}

/// A copy of a byte string.
pub fn copy_bytes(src: &Vec<u8>) -> (out: Vec<u8>)
    ensures
        out@ == src@,
{
    let mut out: Vec<u8> = Vec::new();
    let mut i: usize = 0;
    while i < src.len()
        invariant
            i <= src@.len(),
            out@ == src@.subrange(0, i as int),
        decreases src@.len() - i,
    {
        out.push(src[i]);
        i = i + 1;
    }
    assert(src@.subrange(0, i as int) == src@);
    out
}

/// A copy of a list of byte strings.
pub fn copy_bytes_list(src: &Vec<Vec<u8>>) -> (out: Vec<Vec<u8>>)
    ensures
        bytes_list(out@) == bytes_list(src@),
{
    let mut out: Vec<Vec<u8>> = Vec::new();
    let mut i: usize = 0;
    while i < src.len()
        invariant
            i <= src@.len(),
            out@.len() == i,
            forall|j: int| 0 <= j < i ==> out@[j]@ == src@[j]@,
        decreases src@.len() - i,
    {
        out.push(copy_bytes(&src[i]));
        i = i + 1;
    }
    assert(bytes_list(out@) =~= bytes_list(src@));
    out
}

/// Whether two byte strings hold the same bytes.
pub fn bytes_equal(a: &Vec<u8>, b: &Vec<u8>) -> (r: bool)
    ensures
        r == (a@ == b@),
{
    if a.len() != b.len() {
        return false;
    }
    let mut i: usize = 0;
    while i < a.len()
        invariant
            a@.len() == b@.len(),
            i <= a@.len(),
            forall|j: int| 0 <= j < i ==> a@[j] == b@[j],
        decreases a@.len() - i,
    {
        if a[i] != b[i] {
            return false;
        }
        i = i + 1;
    }
    assert(a@ =~= b@);
    true
}

impl ApbReadObjectResp {
    /// The set's elements.
    pub open spec fn set_value(self) -> Seq<Seq<u8>> {
        bytes_list(self.set@)
    }

    /// The multi-value register's values.
    pub open spec fn mvreg_values(self) -> Seq<Seq<u8>> {
        bytes_list(self.mvreg@)
    }

    /// The counter's value.
    pub fn get_counter(&self) -> (r: i32)
        ensures
            r == self.counter,
    {
        self.counter
    }

    /// A copy of the set's elements.
    pub fn get_set(&self) -> (r: Vec<Vec<u8>>)
        ensures
            bytes_list(r@) == self.set_value(),
    {
        copy_bytes_list(&self.set)
    }

    /// A copy of the register's value.
    pub fn get_reg(&self) -> (r: Vec<u8>)
        ensures
            r@ == self.reg@,
    {
        copy_bytes(&self.reg)
    }

    /// A copy of the multi-value register's values.
    pub fn get_mvreg(&self) -> (r: Vec<Vec<u8>>)
        ensures
            bytes_list(r@) == self.mvreg_values(),
    {
        copy_bytes_list(&self.mvreg)
    }

    /// The entries of the map.
    pub fn get_map(&self) -> (r: &MapReadResult)
        ensures
            *r == self.map,
    {
        &self.map
    }
}

} // verus!
