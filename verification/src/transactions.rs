//! Buckets, keys, updates and typed reads, and the lifecycle of transactions.

use vstd::prelude::*;
use crate::antidote_pb::{
    append_bytes, bytes_equal, bytes_list, copy_bytes, write_bound_objects, write_update_ops,
    ApbAbortTransaction, ApbBoundObject, ApbCommitResp, ApbCommitTransaction, ApbCounterUpdate,
    ApbGetMapResp, ApbMapKey, ApbMapNestedUpdate, ApbMapUpdate, ApbOperationResp,
    ApbReadObjects, ApbReadObjectsResp, ApbRegUpdate, ApbSetUpdate, ApbSetUpdate_SetOpType,
    ApbStartTransaction, ApbStaticReadObjects, ApbStaticReadObjectsResp,
    ApbStaticUpdateObjects, ApbTxnProperties, ApbUpdateObjects, ApbUpdateOp,
    ApbUpdateOperation, CRDT_type,
};
use crate::coder::{
    encode_msg, encoded, same_bytes, CODE_ABORT_TRANSACTION, CODE_COMMIT_TRANSACTION,
    CODE_READ_OBJECTS, CODE_STATIC_READ_OBJECTS, CODE_STATIC_UPDATE_OBJECTS,
    CODE_UPDATE_OBJECTS,
};
use crate::error::ClientError;
use crate::wire::encode_bytes_field;

verus! {

/// A namespace of keyed objects.
pub struct Bucket {
    pub bucket: Vec<u8>,
}

/// The name of an object in a bucket or in a map.
#[derive(Debug, Clone)]
pub struct Key(pub Vec<u8>);

impl View for Key {
    type V = Seq<u8>;

    open spec fn view(&self) -> Seq<u8> {
        self.0@
    }
}

/// What a read of a map gave: its entries, by key and kind.
pub struct MapReadResult {
    pub map_resp: ApbGetMapResp,
}

/// The key and the kind of one entry of a map.
#[derive(Debug, Clone, PartialEq, Eq)]
pub struct MapEntryKey {
    pub key: Vec<u8>,
    pub crdt_type: CRDT_type,
}

/// An update to one object, not yet bound to a bucket or a map.
pub struct CRDTUpdate {
    pub update: ApbUpdateOperation,
    pub key: Key,
    pub crdt_type: CRDT_type,
}

/// One request made of a transaction, with the answer that it got.
pub enum Exchange {
    /// A read of these objects.
    Read { objects: Seq<ApbBoundObject>, answer: Result<ApbReadObjectsResp, ClientError> },
    /// An application of these updates.
    Update { updates: Seq<ApbUpdateOp>, answer: Result<(), ClientError> },
}

/// A way to send reads and updates to the server inside one transaction.
/// What comes back is the server's answer: nothing is known of it beforehand.
///
/// A transaction may keep a record of what it was asked and what it
/// answered, a value of proofs alone. One that keeps it adds every request
/// and its answer to it. One that keeps none, which is the default, is asked
/// nothing about it.
pub trait Transaction {
    /// Whether this transaction keeps a record of its exchanges.
    open spec fn records(&self) -> bool {
        false
    }

    /// The requests made of this transaction while it kept a record, each
    /// with its answer, the oldest first.
    open spec fn exchanges(&self) -> Seq<Exchange> {
        Seq::empty()
    }

    /// Asks the server for the values of the objects, one for each and in
    /// their order.
    fn read(&mut self, objects: &Vec<ApbBoundObject>) -> (r: Result<
        ApbReadObjectsResp,
        ClientError,
    >)
        ensures
            old(self).records() ==> final(self).records()
                && final(self).exchanges() == old(self).exchanges().push(
                Exchange::Read { objects: objects@, answer: r },
            ),
    ;

    /// Asks the server to apply the updates.
    fn update(&mut self, updates: &Vec<ApbUpdateOp>) -> (r: Result<(), ClientError>)
        ensures
            old(self).records() ==> final(self).records()
                && final(self).exchanges() == old(self).exchanges().push(
                Exchange::Update { updates: updates@, answer: r },
            ),
    ;
}

/// A transaction together with the record of what it was asked and what it
/// answered. Every request is handed on to the transaction inside as it is,
/// and the answer is handed back as it is.
pub struct Recorded<T: Transaction> {
    pub inner: T,
    pub record: Ghost<Seq<Exchange>>,
}

impl<T: Transaction> Recorded<T> {
    /// Starts an empty record for `inner`.
    pub fn new(inner: T) -> (r: Recorded<T>)
        ensures
            r.inner == inner,
            r.records(),
            r.exchanges() == Seq::<Exchange>::empty(),
    {
        Recorded { inner, record: Ghost(Seq::empty()) }
    }

    /// Gives the transaction back and drops the record.
    pub fn into_inner(self) -> (r: T)
        ensures
            r == self.inner,
    {
        self.inner
    }
}

impl<T: Transaction> Transaction for Recorded<T> {
    open spec fn records(&self) -> bool {
        true
    }

    open spec fn exchanges(&self) -> Seq<Exchange> {
        self.record@
    }

    /// Hands the read on to the transaction inside and notes it with its
    /// answer.
    fn read(&mut self, objects: &Vec<ApbBoundObject>) -> (r: Result<
        ApbReadObjectsResp,
        ClientError,
    >)
        ensures
            old(self).inner.records() ==> final(self).inner.records()
                && final(self).inner.exchanges() == old(self).inner.exchanges().push(
                Exchange::Read { objects: objects@, answer: r },
            ),
    {
        let r = self.inner.read(objects);
        self.record = Ghost(self.record@.push(Exchange::Read { objects: objects@, answer: r }));
        r
    }

    /// Hands the updates on to the transaction inside and notes them with
    /// their answer.
    fn update(&mut self, updates: &Vec<ApbUpdateOp>) -> (r: Result<(), ClientError>)
        ensures
            old(self).inner.records() ==> final(self).inner.records()
                && final(self).inner.exchanges() == old(self).inner.exchanges().push(
                Exchange::Update { updates: updates@, answer: r },
            ),
    {
        let r = self.inner.update(updates);
        self.record = Ghost(self.record@.push(Exchange::Update { updates: updates@, answer: r }));
        r
    }
}

/// Whether the transaction, if it keeps a record, was asked exactly one
/// thing more between `before` and `after`.
pub open spec fn asked_once<T: Transaction>(before: T, after: T) -> bool {
    before.records() ==> {
        &&& after.records()
        &&& after.exchanges().len() == before.exchanges().len() + 1
        &&& after.exchanges().drop_last() == before.exchanges()
    }
}

/// Whether an exchange is the read of one object alone: that of the bucket
/// `bucket` under `key`, of the kind `crdt_type`.
pub open spec fn is_read_of_one(
    e: Exchange,
    bucket: Seq<u8>,
    key: Seq<u8>,
    crdt_type: CRDT_type,
) -> bool {
    e matches Exchange::Read { objects, .. } && objects.len() == 1 && objects[0].bucket@ == bucket
        && objects[0].key@ == key && objects[0].field_type == crdt_type
}

/// Whether an exchange is the application of `updates`, each bound to the
/// bucket `bucket`, in their order.
pub open spec fn is_update_of(e: Exchange, updates: Seq<CRDTUpdate>, bucket: Seq<u8>) -> bool {
    e matches Exchange::Update { updates: ops, .. } && ops.len() == updates.len() && forall|
        i: int,
    |
        0 <= i < ops.len() ==> is_top_level_of(#[trigger] ops[i], updates[i], bucket)
}

/// The counter that the answer to a read of one object holds: the failure
/// of the read, the first object's counter, or the lack of any object.
pub open spec fn counter_in(e: Exchange) -> Result<i32, ClientError> {
    match e {
        Exchange::Read { answer: Ok(resp), .. } => if has_first(resp) {
            Ok(resp.objects@[0].counter)
        } else {
            Err(ClientError::EmptyResult)
        },
        Exchange::Read { answer: Err(e), .. } => Err(e),
        Exchange::Update { answer: Ok(_), .. } => Err(ClientError::EmptyResult),
        Exchange::Update { answer: Err(e), .. } => Err(e),
    }
}

/// The map that the answer to a read of one object holds: the failure of
/// the read, the first object's map, or the lack of any object.
pub open spec fn map_in(e: Exchange) -> Result<MapReadResult, ClientError> {
    match e {
        Exchange::Read { answer: Ok(resp), .. } => if has_first(resp) {
            Ok(resp.objects@[0].map)
        } else {
            Err(ClientError::EmptyResult)
        },
        Exchange::Read { answer: Err(e), .. } => Err(e),
        Exchange::Update { answer: Ok(_), .. } => Err(ClientError::EmptyResult),
        Exchange::Update { answer: Err(e), .. } => Err(e),
    }
}

/// The register that the answer to a read of one object holds: the failure
/// of the read, the first object's register, or the lack of any object.
pub open spec fn reg_in(e: Exchange) -> Result<Seq<u8>, ClientError> {
    match e {
        Exchange::Read { answer: Ok(resp), .. } => if has_first(resp) {
            Ok(resp.objects@[0].reg@)
        } else {
            Err(ClientError::EmptyResult)
        },
        Exchange::Read { answer: Err(e), .. } => Err(e),
        Exchange::Update { answer: Ok(_), .. } => Err(ClientError::EmptyResult),
        Exchange::Update { answer: Err(e), .. } => Err(e),
    }
}

/// The set that the answer to a read of one object holds: the failure of
/// the read, the first object's set, or the lack of any object.
pub open spec fn set_in(e: Exchange) -> Result<Seq<Seq<u8>>, ClientError> {
    match e {
        Exchange::Read { answer: Ok(resp), .. } => if has_first(resp) {
            Ok(resp.objects@[0].set_value())
        } else {
            Err(ClientError::EmptyResult)
        },
        Exchange::Read { answer: Err(e), .. } => Err(e),
        Exchange::Update { answer: Ok(_), .. } => Err(ClientError::EmptyResult),
        Exchange::Update { answer: Err(e), .. } => Err(e),
    }
}

/// The multi-value register that the answer to a read of one object holds:
/// the failure of the read, the first object's values, or the lack of any
/// object.
pub open spec fn mv_reg_in(e: Exchange) -> Result<Seq<Seq<u8>>, ClientError> {
    match e {
        Exchange::Read { answer: Ok(resp), .. } => if has_first(resp) {
            Ok(resp.objects@[0].mvreg_values())
        } else {
            Err(ClientError::EmptyResult)
        },
        Exchange::Read { answer: Err(e), .. } => Err(e),
        Exchange::Update { answer: Ok(_), .. } => Err(ClientError::EmptyResult),
        Exchange::Update { answer: Err(e), .. } => Err(e),
    }
}

/// The answer to the application of updates.
pub open spec fn update_in(e: Exchange) -> Result<(), ClientError> {
    match e {
        Exchange::Update { answer, .. } => answer,
        Exchange::Read { answer: Ok(_), .. } => Ok(()),
        Exchange::Read { answer: Err(e), .. } => Err(e),
    }
}

/// Whether a result holds the byte string, or the error, that `expected`
/// names.
pub open spec fn same_value(r: Result<Vec<u8>, ClientError>, expected: Result<Seq<u8>, ClientError>) -> bool {
    match expected {
        Ok(v) => r is Ok && r->Ok_0@ == v,
        Err(e) => r == Err::<Vec<u8>, ClientError>(e),
    }
}

/// Whether a result holds the byte strings, or the error, that `expected`
/// names.
pub open spec fn same_values(
    r: Result<Vec<Vec<u8>>, ClientError>,
    expected: Result<Seq<Seq<u8>>, ClientError>,
) -> bool {
    match expected {
        Ok(v) => r is Ok && bytes_list(r->Ok_0@) == v,
        Err(e) => r == Err::<Vec<Vec<u8>>, ClientError>(e),
    }
}

/// The elements of `v` in reverse order.
pub fn reverse_vec<T>(v: Vec<T>) -> (r: Vec<T>)
    ensures
        r@.len() == v@.len(),
        forall|i: int| 0 <= i < r@.len() ==> r@[i] == v@[v@.len() - 1 - i],
{
    let mut src = v;
    let mut out: Vec<T> = Vec::new();
    while src.len() > 0
        invariant
            src@.len() + out@.len() == v@.len(),
            src@ == v@.subrange(0, src@.len() as int),
            forall|i: int| 0 <= i < out@.len() ==> out@[i] == v@[v@.len() - 1 - i],
        decreases src@.len(),
    {
        match src.pop() {
            Some(x) => {
                out.push(x);
            },
            None => {},
        }
    }
    out
}

impl CRDTUpdate {
    /// The update as an entry of a map update: key and kind become the map
    /// key, the operation stays.
    pub open spec fn nested(self) -> ApbMapNestedUpdate {
        ApbMapNestedUpdate {
            key: ApbMapKey { key: self.key.0, field_type: self.crdt_type },
            update: self.update,
        }
    }

    /// The update bound to a bucket: key, kind and bucket become the bound
    /// object, the operation stays.
    pub open spec fn top_level(self, bucket: Vec<u8>) -> ApbUpdateOp {
        ApbUpdateOp {
            boundobject: ApbBoundObject { key: self.key.0, field_type: self.crdt_type, bucket },
            operation: self.update,
        }
    }

    /// The update that an entry of a map update stands for.
    pub open spec fn of_nested(n: ApbMapNestedUpdate) -> CRDTUpdate {
        CRDTUpdate { update: n.update, key: Key(n.key.key), crdt_type: n.key.field_type }
    }

    /// The update that a record bound to a bucket stands for.
    pub open spec fn of_top_level(op: ApbUpdateOp) -> CRDTUpdate {
        CRDTUpdate {
            update: op.operation,
            key: Key(op.boundobject.key),
            crdt_type: op.boundobject.field_type,
        }
    }

    /// Binds the update to a bucket.
    pub fn convert_to_top_level(self, bucket: Vec<u8>) -> (r: ApbUpdateOp)
        ensures
            r == self.top_level(bucket),
    {
        ApbUpdateOp {
            boundobject: ApbBoundObject { key: self.key.0, field_type: self.crdt_type, bucket },
            operation: self.update,
        }
    }

    /// Turns the update into an entry of a map update.
    pub fn convert_to_nested(self) -> (r: ApbMapNestedUpdate)
        ensures
            r == self.nested(),
    {
        ApbMapNestedUpdate {
            key: ApbMapKey { key: self.key.0, field_type: self.crdt_type },
            update: self.update,
        }
    }
}

/// Both record forms of an update hold all of it: the update is read back
/// from either, and the top-level form gives back the bucket too.
pub proof fn lemma_update_round_trip(u: CRDTUpdate, bucket: Vec<u8>)
    ensures
        CRDTUpdate::of_nested(u.nested()) == u,
        CRDTUpdate::of_top_level(u.top_level(bucket)) == u,
        u.top_level(bucket).boundobject.bucket == bucket,
{
}

/// Adds elements to the set under `key`.
pub fn set_add(key: &Key, elems: Vec<Vec<u8>>) -> (r: CRDTUpdate)
    ensures
        r.key@ == key@,
        r.crdt_type == CRDT_type::ORSET,
        r.update matches ApbUpdateOperation::SetOp(s) && s.optype == ApbSetUpdate_SetOpType::ADD
            && s.adds == elems && s.rems@.len() == 0,
{
    let apb_set_update = ApbSetUpdate {
        optype: ApbSetUpdate_SetOpType::ADD,
        adds: elems,
        rems: Vec::new(),
    };
    CRDTUpdate {
        key: Key(copy_bytes(&key.0)),
        crdt_type: CRDT_type::ORSET,
        update: ApbUpdateOperation::SetOp(apb_set_update),
    }
}

/// Removes elements from the set under `key`.
pub fn set_remove(key: &Key, elems: Vec<Vec<u8>>) -> (r: CRDTUpdate)
    ensures
        r.key@ == key@,
        r.crdt_type == CRDT_type::ORSET,
        r.update matches ApbUpdateOperation::SetOp(s) && s.optype
            == ApbSetUpdate_SetOpType::REMOVE && s.rems == elems && s.adds@.len() == 0,
{
    let apb_set_update = ApbSetUpdate {
        optype: ApbSetUpdate_SetOpType::REMOVE,
        adds: Vec::new(),
        rems: elems,
    };
    CRDTUpdate {
        key: Key(copy_bytes(&key.0)),
        crdt_type: CRDT_type::ORSET,
        update: ApbUpdateOperation::SetOp(apb_set_update),
    }
}

/// Increments the counter under `key` by `inc`; a negative `inc` decrements.
pub fn counter_inc(key: &Key, inc: i64) -> (r: CRDTUpdate)
    ensures
        r.key@ == key@,
        r.crdt_type == CRDT_type::COUNTER,
        r.update == ApbUpdateOperation::CounterOp(ApbCounterUpdate { inc }),
{
    CRDTUpdate {
        key: Key(copy_bytes(&key.0)),
        crdt_type: CRDT_type::COUNTER,
        update: ApbUpdateOperation::CounterOp(ApbCounterUpdate { inc }),
    }
}

/// Writes `value` to the last-writer-wins register under `key`.
pub fn reg_put(key: &Key, value: Vec<u8>) -> (r: CRDTUpdate)
    ensures
        r.key@ == key@,
        r.crdt_type == CRDT_type::LWWREG,
        r.update == ApbUpdateOperation::RegOp(ApbRegUpdate { value }),
{
    CRDTUpdate {
        key: Key(copy_bytes(&key.0)),
        crdt_type: CRDT_type::LWWREG,
        update: ApbUpdateOperation::RegOp(ApbRegUpdate { value }),
    }
}

/// Writes `value` to the multi-value register under `key`.
pub fn mv_reg_put(key: &Key, value: Vec<u8>) -> (r: CRDTUpdate)
    ensures
        r.key@ == key@,
        r.crdt_type == CRDT_type::MVREG,
        r.update == ApbUpdateOperation::RegOp(ApbRegUpdate { value }),
{
    CRDTUpdate {
        key: Key(copy_bytes(&key.0)),
        crdt_type: CRDT_type::MVREG,
        update: ApbUpdateOperation::RegOp(ApbRegUpdate { value }),
    }
}

/// The entries of a map update that a list of updates gives, in its order.
pub open spec fn nested_updates(updates: Seq<CRDTUpdate>) -> Seq<ApbMapNestedUpdate> {
    Seq::new(updates.len(), |i: int| updates[i].nested())
}

/// Updates the entries of the map under `key`, each update in its nested form.
pub fn map_update(key: &Key, updates: Vec<CRDTUpdate>) -> (r: CRDTUpdate)
    ensures
        r.key@ == key@,
        r.crdt_type == CRDT_type::RRMAP,
        r.update matches ApbUpdateOperation::MapOp(m) && m.updates@ == nested_updates(updates@),
{
    let ghost all = updates@;
    let mut rest = reverse_vec(updates);
    let mut nupdates: Vec<ApbMapNestedUpdate> = Vec::new();
    while rest.len() > 0
        invariant
            rest@.len() + nupdates@.len() == all.len(),
            forall|i: int| 0 <= i < rest@.len() ==> rest@[i] == all[all.len() - 1 - i],
            forall|i: int| 0 <= i < nupdates@.len() ==> nupdates@[i] == all[i].nested(),
        decreases rest@.len(),
    {
        match rest.pop() {
            Some(u) => {
                nupdates.push(u.convert_to_nested());
            },
            None => {},
        }
    }
    assert(nupdates@ =~= nested_updates(all));
    CRDTUpdate {
        key: Key(copy_bytes(&key.0)),
        crdt_type: CRDT_type::RRMAP,
        update: ApbUpdateOperation::MapOp(ApbMapUpdate { updates: nupdates }),
    }
}

/// Whether `op` is `u` bound to the bucket of the given name.
pub open spec fn is_top_level_of(op: ApbUpdateOp, u: CRDTUpdate, bucket: Seq<u8>) -> bool {
    &&& op.boundobject.key == u.key.0
    &&& op.boundobject.field_type == u.crdt_type
    &&& op.boundobject.bucket@ == bucket
    &&& op.operation == u.update
}

impl Bucket {
    /// The object of this bucket under `key`, of the kind `crdt_type`.
    pub fn bound_object(&self, key: &Key, crdt_type: CRDT_type) -> (r: ApbBoundObject)
        ensures
            r.bucket@ == self.bucket@,
            r.key@ == key@,
            r.field_type == crdt_type,
    {
        ApbBoundObject {
            key: copy_bytes(&key.0),
            field_type: crdt_type,
            bucket: copy_bytes(&self.bucket),
        }
    }

    /// The request for one object: a list that holds that object alone.
    pub fn read_request(&self, key: &Key, crdt_type: CRDT_type) -> (r: Vec<ApbBoundObject>)
        ensures
            r@.len() == 1,
            r@[0].bucket@ == self.bucket@,
            r@[0].key@ == key@,
            r@[0].field_type == crdt_type,
    {
        let mut objects: Vec<ApbBoundObject> = Vec::new();
        objects.push(self.bound_object(key, crdt_type));
        objects
    }

    /// The updates bound to this bucket, one for each of `updates` and in
    /// their order.
    pub fn update_ops(&self, updates: Vec<CRDTUpdate>) -> (r: Vec<ApbUpdateOp>)
        ensures
            r@.len() == updates@.len(),
            forall|i: int|
                0 <= i < r@.len() ==> is_top_level_of(
                    #[trigger] r@[i],
                    updates@[i],
                    self.bucket@,
                ),
    {
        let ghost all = updates@;
        let mut rest = reverse_vec(updates);
        let mut update_ops: Vec<ApbUpdateOp> = Vec::new();
        while rest.len() > 0
            invariant
                rest@.len() + update_ops@.len() == all.len(),
                forall|i: int| 0 <= i < rest@.len() ==> rest@[i] == all[all.len() - 1 - i],
                forall|i: int|
                    0 <= i < update_ops@.len() ==> is_top_level_of(
                        #[trigger] update_ops@[i],
                        all[i],
                        self.bucket@,
                    ),
            decreases rest@.len(),
        {
            match rest.pop() {
                Some(u) => {
                    update_ops.push(u.convert_to_top_level(copy_bytes(&self.bucket)));
                },
                None => {},
            }
        }
        update_ops
    }
}

/// Whether a read gave at least one object.
pub open spec fn has_first(resp: ApbReadObjectsResp) -> bool {
    resp.objects@.len() > 0
}

/// The counter that a read of one object gave.
pub fn first_counter(resp: &ApbReadObjectsResp) -> (r: Result<i32, ClientError>)
    ensures
        has_first(*resp) ==> r == Ok::<i32, ClientError>(resp.objects@[0].counter),
        !has_first(*resp) ==> r == Err::<i32, ClientError>(ClientError::EmptyResult),
{
    if resp.objects.len() == 0 {
        return Err(ClientError::EmptyResult);
    }
    Ok(resp.objects[0].get_counter())
}

/// The set that a read of one object gave.
pub fn first_set(resp: &ApbReadObjectsResp) -> (r: Result<Vec<Vec<u8>>, ClientError>)
    ensures
        has_first(*resp) ==> r is Ok && bytes_list(r->Ok_0@) == resp.objects@[0].set_value(),
        !has_first(*resp) ==> r == Err::<Vec<Vec<u8>>, ClientError>(ClientError::EmptyResult),
{
    if resp.objects.len() == 0 {
        return Err(ClientError::EmptyResult);
    }
    Ok(resp.objects[0].get_set())
}

/// The register that a read of one object gave.
pub fn first_reg(resp: &ApbReadObjectsResp) -> (r: Result<Vec<u8>, ClientError>)
    ensures
        has_first(*resp) ==> r is Ok && r->Ok_0@ == resp.objects@[0].reg@,
        !has_first(*resp) ==> r == Err::<Vec<u8>, ClientError>(ClientError::EmptyResult),
{
    if resp.objects.len() == 0 {
        return Err(ClientError::EmptyResult);
    }
    Ok(resp.objects[0].get_reg())
}

/// The multi-value register that a read of one object gave.
pub fn first_mv_reg(resp: &ApbReadObjectsResp) -> (r: Result<Vec<Vec<u8>>, ClientError>)
    ensures
        has_first(*resp) ==> r is Ok && bytes_list(r->Ok_0@) == resp.objects@[0].mvreg_values(),
        !has_first(*resp) ==> r == Err::<Vec<Vec<u8>>, ClientError>(ClientError::EmptyResult),
{
    if resp.objects.len() == 0 {
        return Err(ClientError::EmptyResult);
    }
    Ok(resp.objects[0].get_mvreg())
}

/// The map that a read of one object gave.
pub fn first_map(resp: ApbReadObjectsResp) -> (r: Result<MapReadResult, ClientError>)
    ensures
        has_first(resp) ==> r == Ok::<MapReadResult, ClientError>(resp.objects@[0].map),
        !has_first(resp) ==> r == Err::<MapReadResult, ClientError>(ClientError::EmptyResult),
{
    let mut objects = resp.objects;
    if objects.len() == 0 {
        return Err(ClientError::EmptyResult);
    }
    let first = objects.swap_remove(0);
    Ok(first.map)
}

/// Typed reads of the objects of a bucket inside a transaction.
pub trait CRDTReader {
    /// The elements of the set under `key`.
    fn read_set<T: Transaction>(&self, tx: &mut T, key: &Key) -> Result<Vec<Vec<u8>>, ClientError>;

    /// The value of the last-writer-wins register under `key`.
    fn read_reg<T: Transaction>(&self, tx: &mut T, key: &Key) -> Result<Vec<u8>, ClientError>;

    /// The entries of the map under `key`.
    fn read_map<T: Transaction>(&self, tx: &mut T, key: &Key) -> Result<MapReadResult, ClientError>;

    /// The values of the multi-value register under `key`.
    fn read_mv_reg<T: Transaction>(&self, tx: &mut T, key: &Key) -> Result<
        Vec<Vec<u8>>,
        ClientError,
    >;

    /// The value of the counter under `key`.
    fn read_counter<T: Transaction>(&self, tx: &mut T, key: &Key) -> Result<i32, ClientError>;
}

impl CRDTReader for Bucket {
    /// Asks the transaction for the set of this bucket under `key`, that
    /// object alone, and hands out a copy of the elements in the first object
    /// of the answer. A failure of the read is handed on; an answer without
    /// any object is an empty result.
    fn read_set<T: Transaction>(&self, tx: &mut T, key: &Key) -> (r: Result<
        Vec<Vec<u8>>,
        ClientError,
    >)
        ensures
            asked_once(*old(tx), *final(tx)),
            old(tx).records() ==> is_read_of_one(
                final(tx).exchanges().last(),
                self.bucket@,
                key@,
                CRDT_type::ORSET,
            ) && same_values(r, set_in(final(tx).exchanges().last())),
    {
        let objects = self.read_request(key, CRDT_type::ORSET);
        let answer = tx.read(&objects);
        assert(old(tx).records() ==> tx.exchanges().drop_last() =~= old(tx).exchanges());
        match answer {
            Ok(resp) => first_set(&resp),
            Err(e) => Err(e),
        }
    }

    /// Asks the transaction for the last-writer-wins register of this bucket
    /// under `key`, that object alone, and hands out a copy of the value in
    /// the first object of the answer. A failure of the read is handed on; an
    /// answer without any object is an empty result.
    fn read_reg<T: Transaction>(&self, tx: &mut T, key: &Key) -> (r: Result<Vec<u8>, ClientError>)
        ensures
            asked_once(*old(tx), *final(tx)),
            old(tx).records() ==> is_read_of_one(
                final(tx).exchanges().last(),
                self.bucket@,
                key@,
                CRDT_type::LWWREG,
            ) && same_value(r, reg_in(final(tx).exchanges().last())),
    {
        let objects = self.read_request(key, CRDT_type::LWWREG);
        let answer = tx.read(&objects);
        assert(old(tx).records() ==> tx.exchanges().drop_last() =~= old(tx).exchanges());
        match answer {
            Ok(resp) => first_reg(&resp),
            Err(e) => Err(e),
        }
    }

    /// Asks the transaction for the map of this bucket under `key`, that
    /// object alone, and hands out the map in the first object of the answer.
    /// A failure of the read is handed on; an answer without any object is an
    /// empty result.
    fn read_map<T: Transaction>(&self, tx: &mut T, key: &Key) -> (r: Result<
        MapReadResult,
        ClientError,
    >)
        ensures
            asked_once(*old(tx), *final(tx)),
            old(tx).records() ==> is_read_of_one(
                final(tx).exchanges().last(),
                self.bucket@,
                key@,
                CRDT_type::RRMAP,
            ) && r == map_in(final(tx).exchanges().last()),
    {
        let objects = self.read_request(key, CRDT_type::RRMAP);
        let answer = tx.read(&objects);
        assert(old(tx).records() ==> tx.exchanges().drop_last() =~= old(tx).exchanges());
        match answer {
            Ok(resp) => first_map(resp),
            Err(e) => Err(e),
        }
    }

    /// Asks the transaction for the multi-value register of this bucket under
    /// `key`, that object alone, and hands out a copy of the values in the
    /// first object of the answer. A failure of the read is handed on; an
    /// answer without any object is an empty result.
    fn read_mv_reg<T: Transaction>(&self, tx: &mut T, key: &Key) -> (r: Result<
        Vec<Vec<u8>>,
        ClientError,
    >)
        ensures
            asked_once(*old(tx), *final(tx)),
            old(tx).records() ==> is_read_of_one(
                final(tx).exchanges().last(),
                self.bucket@,
                key@,
                CRDT_type::MVREG,
            ) && same_values(r, mv_reg_in(final(tx).exchanges().last())),
    {
        let objects = self.read_request(key, CRDT_type::MVREG);
        let answer = tx.read(&objects);
        assert(old(tx).records() ==> tx.exchanges().drop_last() =~= old(tx).exchanges());
        match answer {
            Ok(resp) => first_mv_reg(&resp),
            Err(e) => Err(e),
        }
    }

    /// Asks the transaction for the counter of this bucket under `key`, that
    /// object alone, and hands out the counter in the first object of the
    /// answer. A failure of the read is handed on; an answer without any
    /// object is an empty result.
    fn read_counter<T: Transaction>(&self, tx: &mut T, key: &Key) -> (r: Result<i32, ClientError>)
        ensures
            asked_once(*old(tx), *final(tx)),
            old(tx).records() ==> is_read_of_one(
                final(tx).exchanges().last(),
                self.bucket@,
                key@,
                CRDT_type::COUNTER,
            ) && r == counter_in(final(tx).exchanges().last()),
    {
        let objects = self.read_request(key, CRDT_type::COUNTER);
        let answer = tx.read(&objects);
        assert(old(tx).records() ==> tx.exchanges().drop_last() =~= old(tx).exchanges());
        match answer {
            Ok(resp) => first_counter(&resp),
            Err(e) => Err(e),
        }
    }
}

/// Updates to the objects of a bucket inside a transaction.
pub trait CRDTUpdater {
    /// Applies the updates to the objects of the bucket, in their order.
    fn update<T: Transaction>(&self, tx: &mut T, updates: Vec<CRDTUpdate>) -> Result<
        (),
        ClientError,
    >;
}

impl CRDTUpdater for Bucket {
    /// Binds each update to this bucket, asks the transaction to apply them
    /// in their order, all in one request, and hands on its answer.
    fn update<T: Transaction>(&self, tx: &mut T, updates: Vec<CRDTUpdate>) -> (r: Result<
        (),
        ClientError,
    >)
        ensures
            asked_once(*old(tx), *final(tx)),
            old(tx).records() ==> is_update_of(
                final(tx).exchanges().last(),
                updates@,
                self.bucket@,
            ) && r == update_in(final(tx).exchanges().last()),
    {
        let update_ops = self.update_ops(updates);
        let answer = tx.update(&update_ops);
        assert(old(tx).records() ==> tx.exchanges().drop_last() =~= old(tx).exchanges());
        answer
    }
}

/// Whether a result is the failure to find the entry of this key and kind.
pub open spec fn is_not_found<T>(r: Result<T, ClientError>, key: Seq<u8>, crdt_type: CRDT_type) -> bool {
    match r {
        Err(ClientError::EntryNotFound { key: k, crdt_type: t }) => k@ == key && t == crdt_type,
        _ => false,
    }
}

impl MapReadResult {
    /// Whether the entry at `i` has this key and this kind.
    pub open spec fn matches_at(self, i: int, key: Seq<u8>, crdt_type: CRDT_type) -> bool {
        &&& 0 <= i < self.map_resp.entries@.len()
        &&& self.map_resp.entries@[i].key.field_type == crdt_type
        &&& self.map_resp.entries@[i].key.key@ == key
    }

    /// The first entry at or after `from` that has this key and this kind.
    pub open spec fn position_from(self, key: Seq<u8>, crdt_type: CRDT_type, from: int) -> Option<int>
        decreases self.map_resp.entries@.len() - from,
    {
        if from < 0 || from >= self.map_resp.entries@.len() {
            None
        } else if self.matches_at(from, key, crdt_type) {
            Some(from)
        } else {
            self.position_from(key, crdt_type, from + 1)
        }
    }

    /// The first entry that has this key and this kind.
    pub open spec fn position(self, key: Seq<u8>, crdt_type: CRDT_type) -> Option<int> {
        self.position_from(key, crdt_type, 0)
    }

    /// What `position_from` finds is a match with no match before it, down to
    /// `from`; where it finds nothing, nothing matches from there on.
    pub proof fn lemma_position_from(self, key: Seq<u8>, crdt_type: CRDT_type, from: int)
        requires
            0 <= from,
        ensures
            match self.position_from(key, crdt_type, from) {
                Some(i) => from <= i && self.matches_at(i, key, crdt_type) && forall|j: int|
                    from <= j < i ==> !self.matches_at(j, key, crdt_type),
                None => forall|j: int| from <= j ==> !self.matches_at(j, key, crdt_type),
            },
        decreases self.map_resp.entries@.len() - from,
    {
        if from < self.map_resp.entries@.len() && !self.matches_at(from, key, crdt_type) {
            self.lemma_position_from(key, crdt_type, from + 1);
        }
    }

    /// Every entry of the map is found under its own key and kind: at its own
    /// place, or at an earlier entry of the same key and kind.
    pub proof fn lemma_entry_is_found(self, i: int)
        requires
            0 <= i < self.map_resp.entries@.len(),
        ensures
            self.position(
                self.map_resp.entries@[i].key.key@,
                self.map_resp.entries@[i].key.field_type,
            ) matches Some(j) && 0 <= j <= i && self.matches_at(
                j,
                self.map_resp.entries@[i].key.key@,
                self.map_resp.entries@[i].key.field_type,
            ),
    {
        let key = self.map_resp.entries@[i].key.key@;
        let kind = self.map_resp.entries@[i].key.field_type;
        self.lemma_position_from(key, kind, 0);
        assert(self.matches_at(i, key, kind));
    }

    /// Finds the first entry that has this key and this kind.
    pub fn find(&self, key: &Key, crdt_type: CRDT_type) -> (r: Result<usize, ClientError>)
        ensures
            match self.position(key@, crdt_type) {
                Some(i) => r is Ok && r->Ok_0 as int == i && 0 <= i < self.map_resp.entries@.len(),
                None => is_not_found(r, key@, crdt_type),
            },
    {
        proof {
            self.lemma_position_from(key@, crdt_type, 0);
        }
        let mut i: usize = 0;
        while i < self.map_resp.entries.len()
            invariant
                i <= self.map_resp.entries@.len(),
                self.position(key@, crdt_type) == self.position_from(key@, crdt_type, i as int),
            decreases self.map_resp.entries@.len() - i,
        {
            let me = &self.map_resp.entries[i];
            if me.key.field_type == crdt_type && bytes_equal(&me.key.key, &key.0) {
                return Ok(i);
            }
            i = i + 1;
        }
        Err(ClientError::EntryNotFound { key: copy_bytes(&key.0), crdt_type })
    }
}

/// Where a map that was read holds one entry for each update of a map
/// update, under that update's key and kind, every one of these keys is found
/// again under its kind, at or before the place of its update.
pub proof fn lemma_nested_keys_are_found(updates: Seq<CRDTUpdate>, read: MapReadResult, i: int)
    requires
        read.map_resp.entries@.len() == updates.len(),
        forall|k: int|
            0 <= k < updates.len() ==> (#[trigger] read.map_resp.entries@[k]).key.key@
                == nested_updates(updates)[k].key.key@ && read.map_resp.entries@[k].key.field_type
                == nested_updates(updates)[k].key.field_type,
        0 <= i < updates.len(),
    ensures
        read.position(updates[i].key@, updates[i].crdt_type) matches Some(j) && 0 <= j <= i,
{
    assert(read.map_resp.entries@[i].key.key@ == updates[i].key@);
    read.lemma_entry_is_found(i);
}

/// Access to the entries of a map that was read, by key and by kind.
pub trait MapReadResultExtractor {
    /// The set under `key`.
    fn set(&self, key: &Key) -> Result<Vec<Vec<u8>>, ClientError>;

    /// The last-writer-wins register under `key`.
    fn reg(&self, key: &Key) -> Result<Vec<u8>, ClientError>;

    /// The map under `key`.
    fn map(&self, key: &Key) -> Result<&MapReadResult, ClientError>;

    /// The multi-value register under `key`.
    fn mv_reg(&self, key: &Key) -> Result<Vec<Vec<u8>>, ClientError>;

    /// The counter under `key`.
    fn counter(&self, key: &Key) -> Result<i32, ClientError>;

    /// Key and kind of every entry, in the order of the entries.
    fn list_map_keys(&self) -> Vec<MapEntryKey>;
}

impl MapReadResultExtractor for MapReadResult {
    /// The set under `key`.
    fn set(&self, key: &Key) -> (r: Result<Vec<Vec<u8>>, ClientError>)
        ensures
            match self.position(key@, CRDT_type::ORSET) {
                Some(i) => r is Ok && bytes_list(r->Ok_0@)
                    == self.map_resp.entries@[i].value.set_value(),
                None => is_not_found(r, key@, CRDT_type::ORSET),
            },
    {
        match self.find(key, CRDT_type::ORSET) {
            Ok(i) => Ok(self.map_resp.entries[i].value.get_set()),
            Err(e) => Err(e),
        }
    }

    /// The last-writer-wins register under `key`.
    fn reg(&self, key: &Key) -> (r: Result<Vec<u8>, ClientError>)
        ensures
            match self.position(key@, CRDT_type::LWWREG) {
                Some(i) => r is Ok && r->Ok_0@ == self.map_resp.entries@[i].value.reg@,
                None => is_not_found(r, key@, CRDT_type::LWWREG),
            },
    {
        match self.find(key, CRDT_type::LWWREG) {
            Ok(i) => Ok(self.map_resp.entries[i].value.get_reg()),
            Err(e) => Err(e),
        }
    }

    /// The map under `key`.
    fn map(&self, key: &Key) -> (r: Result<&MapReadResult, ClientError>)
        ensures
            match self.position(key@, CRDT_type::RRMAP) {
                Some(i) => r is Ok && *r->Ok_0 == self.map_resp.entries@[i].value.map,
                None => is_not_found(r, key@, CRDT_type::RRMAP),
            },
    {
        match self.find(key, CRDT_type::RRMAP) {
            Ok(i) => Ok(self.map_resp.entries[i].value.get_map()),
            Err(e) => Err(e),
        }
    }

    /// The multi-value register under `key`.
    fn mv_reg(&self, key: &Key) -> (r: Result<Vec<Vec<u8>>, ClientError>)
        ensures
            match self.position(key@, CRDT_type::MVREG) {
                Some(i) => r is Ok && bytes_list(r->Ok_0@)
                    == self.map_resp.entries@[i].value.mvreg_values(),
                None => is_not_found(r, key@, CRDT_type::MVREG),
            },
    {
        match self.find(key, CRDT_type::MVREG) {
            Ok(i) => Ok(self.map_resp.entries[i].value.get_mvreg()),
            Err(e) => Err(e),
        }
    }

    /// The counter under `key`.
    fn counter(&self, key: &Key) -> (r: Result<i32, ClientError>)
        ensures
            match self.position(key@, CRDT_type::COUNTER) {
                Some(i) => r == Ok::<i32, ClientError>(self.map_resp.entries@[i].value.counter),
                None => is_not_found(r, key@, CRDT_type::COUNTER),
            },
    {
        match self.find(key, CRDT_type::COUNTER) {
            Ok(i) => Ok(self.map_resp.entries[i].value.get_counter()),
            Err(e) => Err(e),
        }
    }

    /// Key and kind of every entry, in the order of the entries.
    fn list_map_keys(&self) -> (r: Vec<MapEntryKey>)
        ensures
            r@.len() == self.map_resp.entries@.len(),
            forall|i: int|
                0 <= i < r@.len() ==> (#[trigger] r@[i]).key@ == self.map_resp.entries@[i].key.key@
                    && r@[i].crdt_type == self.map_resp.entries@[i].key.field_type,
    {
        let mut key_list: Vec<MapEntryKey> = Vec::new();
        let mut i: usize = 0;
        while i < self.map_resp.entries.len()
            invariant
                i <= self.map_resp.entries@.len(),
                key_list@.len() == i,
                forall|j: int|
                    0 <= j < i ==> (#[trigger] key_list@[j]).key@
                        == self.map_resp.entries@[j].key.key@ && key_list@[j].crdt_type
                        == self.map_resp.entries@[j].key.field_type,
            decreases self.map_resp.entries@.len() - i,
        {
            let me = &self.map_resp.entries[i];
            key_list.push(
                MapEntryKey { key: copy_bytes(&me.key.key), crdt_type: me.key.field_type },
            );
            i = i + 1;
        }
        key_list
    }
}


/// What an acknowledgement means: success, or the server's error code.
pub open spec fn ack(success: bool, errorcode: u32) -> Result<(), ClientError> {
    if success {
        Ok(())
    } else {
        Err(ClientError::Operation { errorcode })
    }
}

/// Reads an acknowledgement: a refusal becomes an error that carries the
/// server's error code.
pub fn check_ack(success: bool, errorcode: u32) -> (r: Result<(), ClientError>)
    ensures
        r == ack(success, errorcode),
{
    if success {
        Ok(())
    } else {
        Err(ClientError::Operation { errorcode })
    }
}

/// A transaction that the server keeps open until it is committed or
/// aborted. The descriptor is the server's name for it and goes with every
/// request. Once committed or aborted the transaction is terminal:
/// `committed` is set, and a further commit or abort does nothing.
pub struct InteractiveTransaction {
    pub tx_id: Vec<u8>,
    pub committed: bool,
}

impl InteractiveTransaction {
    /// The frame that asks for the updates inside this transaction.
    pub fn update_request(&self, updates: &Vec<ApbUpdateOp>) -> (r: Result<Vec<u8>, ClientError>)
        ensures
            same_bytes(
                r,
                encoded(
                    118,
                    (ApbUpdateObjects {
                        updates: *updates,
                        transaction_descriptor: self.tx_id,
                    }).wire(),
                ),
            ),
    {
        let mut payload = write_update_ops(1, updates);
        append_bytes(&mut payload, encode_bytes_field(2, &self.tx_id));
        encode_msg(&payload, CODE_UPDATE_OBJECTS)
    }

    /// What the answer to an update means.
    pub fn update_reply(&self, resp: &ApbOperationResp) -> (r: Result<(), ClientError>)
        ensures
            r == ack(resp.success, resp.errorcode),
    {
        check_ack(resp.success, resp.errorcode)
    }

    /// The frame that asks for the objects inside this transaction.
    pub fn read_request(&self, objects: &Vec<ApbBoundObject>) -> (r: Result<Vec<u8>, ClientError>)
        ensures
            same_bytes(
                r,
                encoded(
                    116,
                    (ApbReadObjects {
                        boundobjects: *objects,
                        transaction_descriptor: self.tx_id,
                    }).wire(),
                ),
            ),
    {
        let mut payload = write_bound_objects(1, objects);
        append_bytes(&mut payload, encode_bytes_field(2, &self.tx_id));
        encode_msg(&payload, CODE_READ_OBJECTS)
    }

    /// The frame that commits this transaction; none where it is terminal
    /// already, and nothing is to be sent.
    pub fn commit_request(&self) -> (r: Option<Result<Vec<u8>, ClientError>>)
        ensures
            self.committed ==> r is None,
            !self.committed ==> r is Some && same_bytes(
                r->Some_0,
                encoded(121, (ApbCommitTransaction { transaction_descriptor: self.tx_id }).wire()),
            ),
    {
        if self.committed {
            None
        } else {
            let payload = encode_bytes_field(1, &self.tx_id);
            Some(encode_msg(&payload, CODE_COMMIT_TRANSACTION))
        }
    }

    /// The frame that aborts this transaction; none where it is terminal
    /// already, and nothing is to be sent.
    pub fn abort_request(&self) -> (r: Option<Result<Vec<u8>, ClientError>>)
        ensures
            self.committed ==> r is None,
            !self.committed ==> r is Some && same_bytes(
                r->Some_0,
                encoded(120, (ApbAbortTransaction { transaction_descriptor: self.tx_id }).wire()),
            ),
    {
        if self.committed {
            None
        } else {
            let payload = encode_bytes_field(1, &self.tx_id);
            Some(encode_msg(&payload, CODE_ABORT_TRANSACTION))
        }
    }

    /// Takes the answer to a commit. On a terminal transaction it does
    /// nothing. On an open one a success makes it terminal; a refusal leaves
    /// it open and gives the server's error code.
    pub fn commit(&mut self, resp: &ApbCommitResp) -> (r: Result<(), ClientError>)
        ensures
            (*final(self), r) == terminal_step(*old(self), resp.success, resp.errorcode),
    {
        if self.committed {
            return Ok(());
        }
        match check_ack(resp.success, resp.errorcode) {
            Ok(()) => {
                self.committed = true;
                Ok(())
            },
            Err(e) => Err(e),
        }
    }

    /// Takes the answer to an abort. On a terminal transaction it does
    /// nothing. On an open one a success makes it terminal; a refusal leaves
    /// it open and gives the server's error code.
    pub fn abort(&mut self, resp: &ApbOperationResp) -> (r: Result<(), ClientError>)
        ensures
            (*final(self), r) == terminal_step(*old(self), resp.success, resp.errorcode),
    {
        if self.committed {
            return Ok(());
        }
        match check_ack(resp.success, resp.errorcode) {
            Ok(()) => {
                self.committed = true;
                Ok(())
            },
            Err(e) => Err(e),
        }
    }
}

/// The transaction after the answer to a commit or an abort, and the result
/// of that commit or abort. A terminal transaction stays as it is and the
/// answer is not looked at; an open one becomes terminal on success and stays
/// open on a refusal, which is reported with the server's error code.
pub open spec fn terminal_step(tx: InteractiveTransaction, success: bool, errorcode: u32) -> (
    InteractiveTransaction,
    Result<(), ClientError>,
) {
    if tx.committed {
        (tx, Ok(()))
    } else {
        (InteractiveTransaction { tx_id: tx.tx_id, committed: success }, ack(success, errorcode))
    }
}

/// Once a commit or an abort has succeeded, every later commit and abort
/// succeeds and changes nothing, whatever answer it is given.
pub proof fn lemma_terminal_is_final(
    tx: InteractiveTransaction,
    errorcode: u32,
    later_success: bool,
    later_errorcode: u32,
)
    requires
        !tx.committed,
    ensures
        terminal_step(tx, true, errorcode).1 == Ok::<(), ClientError>(()),
        terminal_step(tx, true, errorcode).0.committed,
        terminal_step(terminal_step(tx, true, errorcode).0, later_success, later_errorcode) == (
            terminal_step(tx, true, errorcode).0,
            Ok::<(), ClientError>(()),
        ),
{
}

/// A refused commit or abort leaves the transaction open under its
/// descriptor, so that it can be tried again.
pub proof fn lemma_refusal_keeps_open(tx: InteractiveTransaction, errorcode: u32)
    requires
        !tx.committed,
    ensures
        terminal_step(tx, false, errorcode) == (
            tx,
            Err::<(), ClientError>(ClientError::Operation { errorcode }),
        ),
{
}

/// Reads and updates that each run in a transaction of their own, which the
/// server opens and commits around the one operation.
pub struct StaticTransaction {
}

impl StaticTransaction {
    /// The opening that goes with every static operation: default properties.
    pub open spec fn opening() -> ApbStartTransaction {
        ApbStartTransaction {
            properties: Some(ApbTxnProperties { read_write: None, red_blue: None }),
        }
    }

    /// The frame that applies the updates in a transaction of their own.
    pub fn update_request(&self, updates: &Vec<ApbUpdateOp>) -> (r: Result<Vec<u8>, ClientError>)
        ensures
            same_bytes(
                r,
                encoded(
                    122,
                    (ApbStaticUpdateObjects {
                        transaction: Self::opening(),
                        updates: *updates,
                    }).wire(),
                ),
            ),
    {
        let opening = ApbStartTransaction {
            properties: Some(ApbTxnProperties { read_write: None, red_blue: None }),
        };
        let mut payload = encode_bytes_field(1, &opening.write_to_bytes());
        append_bytes(&mut payload, write_update_ops(2, updates));
        encode_msg(&payload, CODE_STATIC_UPDATE_OBJECTS)
    }

    /// What the answer to a static update means.
    pub fn update_reply(&self, resp: &ApbCommitResp) -> (r: Result<(), ClientError>)
        ensures
            r == ack(resp.success, resp.errorcode),
    {
        check_ack(resp.success, resp.errorcode)
    }

    /// The frame that reads the objects in a transaction of their own.
    pub fn read_request(&self, objects: &Vec<ApbBoundObject>) -> (r: Result<Vec<u8>, ClientError>)
        ensures
            same_bytes(
                r,
                encoded(
                    123,
                    (ApbStaticReadObjects {
                        transaction: Self::opening(),
                        objects: *objects,
                    }).wire(),
                ),
            ),
    {
        let opening = ApbStartTransaction {
            properties: Some(ApbTxnProperties { read_write: None, red_blue: None }),
        };
        let mut payload = encode_bytes_field(1, &opening.write_to_bytes());
        append_bytes(&mut payload, write_bound_objects(2, objects));
        encode_msg(&payload, CODE_STATIC_READ_OBJECTS)
    }

    /// The values in the answer to a static read.
    pub fn read_reply(&self, resp: ApbStaticReadObjectsResp) -> (r: ApbReadObjectsResp)
        ensures
            r == resp.objects,
    {
        resp.objects
    }
}

} // verus!
