use arc::antidote_pb::{
    ApbCommitResp, ApbConnectToDCsResp, ApbCounterUpdate, ApbCreateDCResp,
    ApbGetConnectionDescriptorResp, ApbGetMapResp, ApbMapEntry, ApbMapKey, ApbOperationResp,
    ApbReadObjectResp, ApbReadObjectsResp, ApbRegUpdate, ApbSetUpdate_SetOpType,
    ApbStartTransactionResp, ApbUpdateOperation, CRDT_type,
};
use arc::r2d2_adapter::{
    AntidoteConnectionManager, ConnectStep, PoolError, CONNECT_RETRY_PERIOD, MAX_POOL_SIZE,
};
use arc::transactions::{
    check_ack, counter_inc, first_counter, first_map, first_mv_reg, first_reg, first_set,
    map_update, mv_reg_put, reg_put, reverse_vec, set_add, set_remove, Bucket,
    InteractiveTransaction, Key, MapEntryKey, MapReadResult, MapReadResultExtractor,
};
use arc::{new_client, ClientError, Host};

fn empty_map() -> MapReadResult {
    MapReadResult { map_resp: ApbGetMapResp { entries: Vec::new() } }
}

fn object() -> ApbReadObjectResp {
    ApbReadObjectResp {
        counter: 0,
        set: Vec::new(),
        reg: Vec::new(),
        mvreg: Vec::new(),
        map: empty_map(),
    }
}

fn entry(key: &[u8], kind: CRDT_type, value: ApbReadObjectResp) -> ApbMapEntry {
    ApbMapEntry { key: ApbMapKey { key: key.to_vec(), field_type: kind }, value }
}

#[test]
fn builders_tag_the_update_with_its_kind() {
    let key = Key(b"k".to_vec());
    let u = counter_inc(&key, -5);
    assert_eq!(u.key.0, b"k".to_vec());
    assert_eq!(u.crdt_type, CRDT_type::COUNTER);
    assert!(matches!(u.update, ApbUpdateOperation::CounterOp(ApbCounterUpdate { inc: -5 })));

    let u = reg_put(&key, vec![1, 2]);
    assert_eq!(u.crdt_type, CRDT_type::LWWREG);
    assert!(matches!(&u.update, ApbUpdateOperation::RegOp(ApbRegUpdate { value }) if *value == vec![1, 2]));

    let u = mv_reg_put(&key, vec![3]);
    assert_eq!(u.crdt_type, CRDT_type::MVREG);
    assert!(matches!(&u.update, ApbUpdateOperation::RegOp(ApbRegUpdate { value }) if *value == vec![3]));

    let u = set_add(&key, vec![vec![1], vec![2]]);
    assert_eq!(u.crdt_type, CRDT_type::ORSET);
    match &u.update {
        ApbUpdateOperation::SetOp(s) => {
            assert_eq!(s.optype, ApbSetUpdate_SetOpType::ADD);
            assert_eq!(s.adds, vec![vec![1], vec![2]]);
            assert!(s.rems.is_empty());
        }
        _ => panic!("a set update was expected"),
    }

    let u = set_remove(&key, vec![vec![1]]);
    assert_eq!(u.crdt_type, CRDT_type::ORSET);
    match &u.update {
        ApbUpdateOperation::SetOp(s) => {
            assert_eq!(s.optype, ApbSetUpdate_SetOpType::REMOVE);
            assert_eq!(s.rems, vec![vec![1]]);
            assert!(s.adds.is_empty());
        }
        _ => panic!("a set update was expected"),
    }
}

#[test]
fn map_update_nests_its_children_in_order() {
    let key = Key(b"m".to_vec());
    let u = map_update(
        &key,
        vec![counter_inc(&Key(b"a".to_vec()), 1), reg_put(&Key(b"b".to_vec()), vec![9])],
    );
    assert_eq!(u.key.0, b"m".to_vec());
    assert_eq!(u.crdt_type, CRDT_type::RRMAP);
    match &u.update {
        ApbUpdateOperation::MapOp(m) => {
            assert_eq!(m.updates.len(), 2);
            assert_eq!(m.updates[0].key.key, b"a".to_vec());
            assert_eq!(m.updates[0].key.field_type, CRDT_type::COUNTER);
            assert_eq!(m.updates[1].key.key, b"b".to_vec());
            assert_eq!(m.updates[1].key.field_type, CRDT_type::LWWREG);
        }
        _ => panic!("a map update was expected"),
    }
    // the operation holds the nested form of the children, one field for each
    assert_eq!(u.update.write_to_bytes(), expected_map_bytes());
}

fn expected_map_bytes() -> Vec<u8> {
    let counter = vec![0x0A, 5, 0x0A, 1, b'a', 0x10, 3, 0x12, 4, 0x0A, 2, 0x08, 2];
    let reg = vec![0x0A, 5, 0x0A, 1, b'b', 0x10, 5, 0x12, 5, 0x1A, 3, 0x0A, 1, 9];
    let mut inner = vec![0x0A, counter.len() as u8];
    inner.extend(counter);
    inner.push(0x0A);
    inner.push(reg.len() as u8);
    inner.extend(reg);
    let mut out = vec![0x2A, inner.len() as u8];
    out.extend(inner);
    out
}

#[test]
fn top_level_form_binds_the_update_to_the_bucket() {
    let bucket = Bucket { bucket: b"bkt".to_vec() };
    let ops = bucket.update_ops(vec![
        counter_inc(&Key(b"a".to_vec()), 2),
        set_add(&Key(b"s".to_vec()), vec![vec![7]]),
    ]);
    assert_eq!(ops.len(), 2);
    assert_eq!(ops[0].boundobject.bucket, b"bkt".to_vec());
    assert_eq!(ops[0].boundobject.key, b"a".to_vec());
    assert_eq!(ops[0].boundobject.field_type, CRDT_type::COUNTER);
    assert_eq!(ops[1].boundobject.key, b"s".to_vec());
    assert_eq!(ops[1].boundobject.field_type, CRDT_type::ORSET);
    assert_eq!(
        ops[0].write_to_bytes(),
        vec![0x0A, 10, 0x0A, 1, b'a', 0x10, 3, 0x1A, 3, b'b', b'k', b't', 0x12, 4, 0x0A, 2, 0x08, 4]
    );
    let nested = counter_inc(&Key(b"a".to_vec()), 2).convert_to_nested();
    assert_eq!(nested.key.key, b"a".to_vec());
    assert_eq!(
        nested.write_to_bytes(),
        vec![0x0A, 5, 0x0A, 1, b'a', 0x10, 3, 0x12, 4, 0x0A, 2, 0x08, 4]
    );
    let top = counter_inc(&Key(b"a".to_vec()), 2).convert_to_top_level(b"x".to_vec());
    assert_eq!(top.boundobject.bucket, b"x".to_vec());
}

#[test]
fn read_request_names_one_object() {
    let bucket = Bucket { bucket: b"bkt".to_vec() };
    let objects = bucket.read_request(&Key(b"k".to_vec()), CRDT_type::MVREG);
    assert_eq!(objects.len(), 1);
    assert_eq!(objects[0].bucket, b"bkt".to_vec());
    assert_eq!(objects[0].key, b"k".to_vec());
    assert_eq!(objects[0].field_type, CRDT_type::MVREG);
}

#[test]
fn reverse_vec_reverses() {
    assert_eq!(reverse_vec(vec![1, 2, 3]), vec![3, 2, 1]);
    assert_eq!(reverse_vec(Vec::<u8>::new()), Vec::<u8>::new());
}

#[test]
fn entries_are_found_by_key_and_kind() {
    let mut counter = object();
    counter.counter = 7;
    let mut reg = object();
    reg.reg = vec![1, 2, 3];
    let mut set = object();
    set.set = vec![vec![1], vec![2]];
    let mut mvreg = object();
    mvreg.mvreg = vec![vec![4]];
    let mut second = object();
    second.counter = 99;
    let mut inner_counter = object();
    inner_counter.counter = -1;
    let mut map = object();
    map.map = MapReadResult {
        map_resp: ApbGetMapResp { entries: vec![entry(b"in", CRDT_type::COUNTER, inner_counter)] },
    };
    let result = MapReadResult {
        map_resp: ApbGetMapResp {
            entries: vec![
                entry(b"k", CRDT_type::LWWREG, reg),
                entry(b"k", CRDT_type::COUNTER, counter),
                entry(b"k", CRDT_type::ORSET, set),
                entry(b"k", CRDT_type::MVREG, mvreg),
                entry(b"k", CRDT_type::COUNTER, second),
                entry(b"k", CRDT_type::RRMAP, map),
            ],
        },
    };
    let key = Key(b"k".to_vec());
    assert_eq!(result.counter(&key), Ok(7));
    assert_eq!(result.reg(&key), Ok(vec![1, 2, 3]));
    assert_eq!(result.set(&key), Ok(vec![vec![1], vec![2]]));
    assert_eq!(result.mv_reg(&key), Ok(vec![vec![4]]));
    assert_eq!(result.map(&key).unwrap().counter(&Key(b"in".to_vec())), Ok(-1));
    assert_eq!(result.find(&key, CRDT_type::COUNTER), Ok(1));
    let keys = result.list_map_keys();
    assert_eq!(keys.len(), 6);
    assert_eq!(keys[0], MapEntryKey { key: b"k".to_vec(), crdt_type: CRDT_type::LWWREG });
    assert_eq!(keys[5], MapEntryKey { key: b"k".to_vec(), crdt_type: CRDT_type::RRMAP });
}

#[test]
fn missing_entry_names_key_and_kind() {
    let result = MapReadResult {
        map_resp: ApbGetMapResp { entries: vec![entry(b"k", CRDT_type::LWWREG, object())] },
    };
    let key = Key(b"k".to_vec());
    let other = Key(b"other".to_vec());
    assert_eq!(
        result.counter(&key),
        Err(ClientError::EntryNotFound { key: b"k".to_vec(), crdt_type: CRDT_type::COUNTER })
    );
    assert_eq!(
        result.reg(&other),
        Err(ClientError::EntryNotFound { key: b"other".to_vec(), crdt_type: CRDT_type::LWWREG })
    );
    assert_eq!(
        result.set(&key),
        Err(ClientError::EntryNotFound { key: b"k".to_vec(), crdt_type: CRDT_type::ORSET })
    );
    assert_eq!(
        result.mv_reg(&key),
        Err(ClientError::EntryNotFound { key: b"k".to_vec(), crdt_type: CRDT_type::MVREG })
    );
    assert_eq!(
        result.map(&key).err(),
        Some(ClientError::EntryNotFound { key: b"k".to_vec(), crdt_type: CRDT_type::RRMAP })
    );
    assert!(empty_map().list_map_keys().is_empty());
}

#[test]
fn typed_reads_take_the_first_object() {
    let mut first = object();
    first.counter = 5;
    first.set = vec![vec![1]];
    first.reg = vec![2];
    first.mvreg = vec![vec![3]];
    let mut second = object();
    second.counter = 6;
    let resp = ApbReadObjectsResp { success: true, objects: vec![first, second], errorcode: 0 };
    assert_eq!(first_counter(&resp), Ok(5));
    assert_eq!(first_set(&resp), Ok(vec![vec![1]]));
    assert_eq!(first_reg(&resp), Ok(vec![2]));
    assert_eq!(first_mv_reg(&resp), Ok(vec![vec![3]]));
    assert!(first_map(resp).unwrap().map_resp.entries.is_empty());
}

#[test]
fn read_without_objects_is_an_empty_result() {
    let resp = ApbReadObjectsResp { success: true, objects: Vec::new(), errorcode: 0 };
    assert_eq!(first_counter(&resp), Err(ClientError::EmptyResult));
    assert_eq!(first_set(&resp), Err(ClientError::EmptyResult));
    assert_eq!(first_reg(&resp), Err(ClientError::EmptyResult));
    assert_eq!(first_mv_reg(&resp), Err(ClientError::EmptyResult));
    assert_eq!(first_map(resp).err(), Some(ClientError::EmptyResult));
}

#[test]
fn refused_acknowledgement_carries_the_error_code() {
    assert_eq!(check_ack(true, 17), Ok(()));
    assert_eq!(check_ack(false, 17), Err(ClientError::Operation { errorcode: 17 }));
    let tx = InteractiveTransaction { tx_id: vec![1], committed: false };
    assert_eq!(
        tx.update_reply(&ApbOperationResp { success: false, errorcode: 3 }),
        Err(ClientError::Operation { errorcode: 3 })
    );
    assert_eq!(tx.update_reply(&ApbOperationResp { success: true, errorcode: 3 }), Ok(()));
}

#[test]
fn commit_marks_the_transaction_terminal() {
    let refused = ApbCommitResp { success: false, commit_time: Vec::new(), errorcode: 8 };
    let granted = ApbCommitResp { success: true, commit_time: vec![1], errorcode: 0 };
    let mut tx = InteractiveTransaction { tx_id: vec![1, 2], committed: false };
    assert_eq!(
        tx.commit_request().unwrap().unwrap(),
        vec![0, 0, 0, 5, 121, 0x0A, 2, 1, 2]
    );
    assert_eq!(
        tx.abort_request().unwrap().unwrap(),
        vec![0, 0, 0, 5, 120, 0x0A, 2, 1, 2]
    );
    assert_eq!(tx.commit(&refused), Err(ClientError::Operation { errorcode: 8 }));
    assert!(!tx.committed);
    assert_eq!(tx.commit(&granted), Ok(()));
    assert!(tx.committed);
    assert_eq!(tx.commit(&refused), Ok(()));
    assert_eq!(tx.abort(&ApbOperationResp { success: false, errorcode: 1 }), Ok(()));
    assert!(tx.committed);
    assert_eq!(tx.tx_id, vec![1, 2]);
    assert!(tx.commit_request().is_none());
    assert!(tx.abort_request().is_none());
}

#[test]
fn abort_marks_the_transaction_terminal() {
    let mut tx = InteractiveTransaction { tx_id: vec![1], committed: false };
    assert_eq!(
        tx.abort(&ApbOperationResp { success: false, errorcode: 2 }),
        Err(ClientError::Operation { errorcode: 2 })
    );
    assert!(!tx.committed);
    assert_eq!(tx.abort(&ApbOperationResp { success: true, errorcode: 0 }), Ok(()));
    assert!(tx.committed);
    let granted = ApbCommitResp { success: true, commit_time: Vec::new(), errorcode: 0 };
    assert_eq!(tx.commit(&granted), Ok(()));
}

#[test]
fn requests_carry_the_descriptor() {
    let tx = InteractiveTransaction { tx_id: vec![9], committed: false };
    let bucket = Bucket { bucket: b"b".to_vec() };
    let objects = bucket.read_request(&Key(b"k".to_vec()), CRDT_type::COUNTER);
    assert_eq!(
        tx.read_request(&objects).unwrap(),
        vec![0, 0, 0, 14, 116, 0x0A, 8, 0x0A, 1, b'k', 0x10, 3, 0x1A, 1, b'b', 0x12, 1, 9]
    );
    let ops = bucket.update_ops(vec![counter_inc(&Key(b"k".to_vec()), 1)]);
    assert_eq!(tx.update_request(&ops).unwrap(), expected_update_frame());
}

fn expected_update_frame() -> Vec<u8> {
    // operation { counterop { inc: 1 } }
    let operation = vec![0x0A, 2, 0x08, 2];
    let object = vec![0x0A, 1, b'k', 0x10, 3, 0x1A, 1, b'b'];
    let mut op = vec![0x0A, object.len() as u8];
    op.extend(object);
    op.push(0x12);
    op.push(operation.len() as u8);
    op.extend(operation);
    let mut payload = vec![0x0A, op.len() as u8];
    payload.extend(op);
    payload.extend(vec![0x12, 1, 9]);
    let mut frame = vec![0, 0, 0, payload.len() as u8 + 1, 118];
    frame.extend(payload);
    frame
}

#[test]
fn client_takes_the_first_host() {
    let none = new_client(Vec::new()).unwrap();
    assert_eq!(none.select_pool(), Err(ClientError::NoHost));
    let two = new_client(vec![
        Host { name: String::from("a"), port: 8087 },
        Host { name: String::from("b"), port: 8087 },
    ])
    .unwrap();
    assert_eq!(two.select_pool(), Ok(0));
    assert_eq!(two.hosts[1].name, "b");
    assert_eq!(
        two.start_transaction_request().unwrap(),
        vec![0, 0, 0, 7, 119, 0x12, 4, 0x08, 0, 0x10, 0]
    );
    assert_eq!(two.get_connection_descriptor_request().unwrap(), vec![0, 0, 0, 1, 133]);
    assert_eq!(
        two.create_dc_request(&vec![String::from("n")]).unwrap(),
        vec![0, 0, 0, 4, 129, 0x0A, 1, b'n']
    );
    assert_eq!(
        two.connect_to_dcs_request(&vec![vec![5]]).unwrap(),
        vec![0, 0, 0, 4, 131, 0x0A, 1, 5]
    );
    assert!(two.create_static_transaction().is_ok());
}

#[test]
fn administrative_answers_carry_the_error_code() {
    let client = new_client(Vec::new()).unwrap();
    assert_eq!(client.create_dc(&ApbCreateDCResp { success: true, errorcode: 0 }), Ok(()));
    assert_eq!(
        client.create_dc(&ApbCreateDCResp { success: false, errorcode: 4 }),
        Err(ClientError::Operation { errorcode: 4 })
    );
    assert_eq!(
        client.connect_to_dcs(&ApbConnectToDCsResp { success: false, errorcode: 5 }),
        Err(ClientError::Operation { errorcode: 5 })
    );
    assert_eq!(
        client.get_connection_descriptor(ApbGetConnectionDescriptorResp {
            success: true,
            descriptor: vec![1, 2],
            errorcode: 0
        }),
        Ok(vec![1, 2])
    );
    assert_eq!(
        client.get_connection_descriptor(ApbGetConnectionDescriptorResp {
            success: false,
            descriptor: vec![1, 2],
            errorcode: 6
        }),
        Err(ClientError::Operation { errorcode: 6 })
    );
    let tx = client.start_transaction(ApbStartTransactionResp {
        success: true,
        transaction_descriptor: vec![3],
        errorcode: 0,
    });
    assert_eq!(tx.tx_id, vec![3]);
    assert!(!tx.committed);
}

#[test]
fn refused_connect_is_retried_after_the_fixed_period() {
    let manager = AntidoteConnectionManager::new(String::from("127.0.0.1:8087"));
    assert_eq!(manager.addr, "127.0.0.1:8087");
    assert_eq!(manager.after_attempt(true, false), ConnectStep::Connected);
    assert_eq!(manager.after_attempt(true, true), ConnectStep::Connected);
    assert_eq!(manager.after_attempt(false, false), ConnectStep::RetryAfter { millis: 1000 });
    assert_eq!(manager.after_attempt(false, true), ConnectStep::Abandoned);
    let patient = AntidoteConnectionManager::with_retry_period(String::from("h:1"), 250);
    assert_eq!(patient.after_attempt(false, false), ConnectStep::RetryAfter { millis: 250 });
    assert!(manager.is_valid().is_ok());
    assert!(!manager.has_broken());
    assert_eq!(CONNECT_RETRY_PERIOD, 1000);
    assert_eq!(MAX_POOL_SIZE, 50);
    assert_eq!(PoolError::new("down").message, "down");
}

#[test]
fn kinds_keep_their_numbers() {
    let kinds = [
        (CRDT_type::COUNTER, 3),
        (CRDT_type::ORSET, 4),
        (CRDT_type::LWWREG, 5),
        (CRDT_type::MVREG, 6),
        (CRDT_type::RRMAP, 11),
    ];
    for (kind, number) in kinds {
        assert_eq!(kind.value(), number);
        assert_eq!(CRDT_type::from_i32(number), Some(kind));
    }
    assert_eq!(CRDT_type::from_i32(0), None);
    assert_eq!(CRDT_type::from_i32(7), None);
    assert_eq!(ApbSetUpdate_SetOpType::ADD.value(), 1);
    assert_eq!(ApbSetUpdate_SetOpType::REMOVE.value(), 2);
}
