use arc::antidote_pb::{
    ApbBoundObject, ApbCommitTransaction, ApbConnectToDCs, ApbCounterUpdate, ApbCreateDC,
    ApbCreateDCResp, ApbGetConnectionDescriptor, ApbOperationResp, ApbReadObjects, ApbRegUpdate,
    ApbStartTransaction, ApbTxnProperties, CRDT_type,
};
use arc::coder::{
    decode_apb_connect_to_dcs_resp, decode_apb_create_dc_resp,
    decode_apb_get_connection_descriptor_resp, decode_commit_resp, decode_operation_resp,
    decode_read_objects_resp, decode_start_transaction_resp, decode_static_read_objects_resp,
    decode_typed, encode_msg, read_msg_raw, read_step, response_code,
};
use arc::parse::{parse_object, scan_fields};
use arc::ClientError;

#[test]
fn frame_of_empty_record_is_length_one_and_code() {
    let frame = ApbGetConnectionDescriptor {}.encode().unwrap();
    assert_eq!(frame, vec![0, 0, 0, 1, 133]);
}

#[test]
fn frame_holds_length_code_and_payload() {
    let frame = encode_msg(&vec![9, 8, 7], 118).unwrap();
    assert_eq!(frame, vec![0, 0, 0, 4, 118, 9, 8, 7]);
}

#[test]
fn frame_length_is_big_endian() {
    let payload = vec![0u8; 0x0102_03];
    let frame = encode_msg(&payload, 116).unwrap();
    assert_eq!(&frame[0..5], &[0x00, 0x01, 0x02, 0x04, 116]);
    assert_eq!(frame.len(), 5 + 0x0102_03);
    assert_eq!(read_msg_raw(&frame).unwrap().len(), 1 + 0x0102_03);
}

#[test]
fn frame_read_back_gives_code_and_payload() {
    let frame = encode_msg(&vec![1, 2, 3, 4, 5], 127).unwrap();
    let body = read_msg_raw(&frame).unwrap();
    assert_eq!(body, vec![127, 1, 2, 3, 4, 5]);
    assert_eq!(decode_typed(&body, 127), Ok(vec![1, 2, 3, 4, 5]));
}

#[test]
fn frame_cut_short_is_an_io_error() {
    let mut frame = encode_msg(&vec![1, 2, 3, 4, 5], 127).unwrap();
    frame.pop();
    assert_eq!(read_msg_raw(&frame), Err(ClientError::Io));
    assert_eq!(read_msg_raw(&vec![0, 0, 0]), Err(ClientError::Io));
}

#[test]
fn reader_asks_for_the_length_then_for_the_body() {
    let frame = encode_msg(&vec![1, 2, 3], 111).unwrap();
    assert_eq!(read_step(&Vec::new(), None), Ok(4));
    assert_eq!(read_step(&frame[0..1].to_vec(), Some(1)), Ok(3));
    assert_eq!(read_step(&frame[0..4].to_vec(), Some(3)), Ok(4));
    assert_eq!(read_step(&frame[0..6].to_vec(), Some(2)), Ok(2));
    assert_eq!(read_step(&frame, Some(2)), Ok(0));
    assert_eq!(read_step(&frame, Some(0)), Ok(0));
}

#[test]
fn read_of_nothing_while_bytes_are_missing_is_an_io_error() {
    let frame = encode_msg(&vec![1, 2, 3], 111).unwrap();
    assert_eq!(read_step(&Vec::new(), Some(0)), Err(ClientError::Io));
    assert_eq!(read_step(&frame[0..6].to_vec(), Some(0)), Err(ClientError::Io));
}

#[test]
fn bytes_field_is_tag_length_value() {
    let bytes = ApbRegUpdate { value: vec![0xAA, 0xBB] }.write_to_bytes();
    assert_eq!(bytes, vec![0x0A, 2, 0xAA, 0xBB]);
    let frame = ApbCommitTransaction { transaction_descriptor: vec![7] }.encode().unwrap();
    assert_eq!(frame, vec![0, 0, 0, 4, 121, 0x0A, 1, 7]);
}

#[test]
fn signed_field_is_zigzag_varint() {
    assert_eq!(ApbCounterUpdate { inc: 1 }.write_to_bytes(), vec![0x08, 2]);
    assert_eq!(ApbCounterUpdate { inc: -1 }.write_to_bytes(), vec![0x08, 1]);
    assert_eq!(ApbCounterUpdate { inc: 150 }.write_to_bytes(), vec![0x08, 0xAC, 0x02]);
}

#[test]
fn unsigned_field_is_varint() {
    let both = ApbTxnProperties { read_write: Some(0), red_blue: Some(300) };
    assert_eq!(both.write_to_bytes(), vec![0x08, 0, 0x10, 0xAC, 0x02]);
    let none = ApbTxnProperties { read_write: None, red_blue: None };
    assert_eq!(none.write_to_bytes(), Vec::<u8>::new());
    let start = ApbStartTransaction { properties: Some(both) };
    assert_eq!(start.encode().unwrap(), vec![0, 0, 0, 8, 119, 0x12, 5, 0x08, 0, 0x10, 0xAC, 0x02]);
}

#[test]
fn enum_field_holds_the_number_of_the_kind() {
    let object =
        ApbBoundObject { key: vec![b'k'], field_type: CRDT_type::RRMAP, bucket: vec![b'b'] };
    assert_eq!(object.write_to_bytes(), vec![0x0A, 1, b'k', 0x10, 11, 0x1A, 1, b'b']);
    let read = ApbReadObjects { boundobjects: vec![object], transaction_descriptor: vec![9] };
    assert_eq!(
        read.encode().unwrap(),
        vec![0, 0, 0, 14, 116, 0x0A, 8, 0x0A, 1, b'k', 0x10, 11, 0x1A, 1, b'b', 0x12, 1, 9]
    );
}

#[test]
fn text_field_holds_the_text_in_utf8() {
    let create = ApbCreateDC { nodes: vec![String::from("n1"), String::from("é")] };
    assert_eq!(create.write_to_bytes(), vec![0x0A, 2, b'n', b'1', 0x0A, 2, 0xC3, 0xA9]);
    assert_eq!(create.encode().unwrap()[0..5], [0, 0, 0, 9, 129]);
}

#[test]
fn repeated_bytes_keep_their_order() {
    let connect = ApbConnectToDCs { descriptors: vec![vec![1], vec![], vec![2, 3]] };
    assert_eq!(connect.write_to_bytes(), vec![0x0A, 1, 1, 0x0A, 0, 0x0A, 2, 2, 3]);
    assert_eq!(connect.encode().unwrap()[0..5], [0, 0, 0, 10, 131]);
}

#[test]
fn every_request_code_has_its_response_code() {
    assert_eq!(response_code(116), Some(111));
    assert_eq!(response_code(118), Some(111));
    assert_eq!(response_code(119), Some(124));
    assert_eq!(response_code(120), Some(111));
    assert_eq!(response_code(121), Some(127));
    assert_eq!(response_code(122), Some(127));
    assert_eq!(response_code(123), Some(128));
    assert_eq!(response_code(129), Some(130));
    assert_eq!(response_code(131), Some(132));
    assert_eq!(response_code(133), Some(134));
    assert_eq!(response_code(111), None);
}

#[test]
fn answer_under_another_code_is_a_protocol_mismatch() {
    let body = vec![127, 0x08, 0x01];
    assert_eq!(
        decode_operation_resp(&body),
        Err(ClientError::ProtocolMismatch { observed: 127, expected: 111 })
    );
    assert_eq!(
        decode_start_transaction_resp(&body),
        Err(ClientError::ProtocolMismatch { observed: 127, expected: 124 })
    );
    assert_eq!(
        decode_read_objects_resp(&body).err(),
        Some(ClientError::ProtocolMismatch { observed: 127, expected: 111 })
    );
    assert_eq!(
        decode_static_read_objects_resp(&body).err(),
        Some(ClientError::ProtocolMismatch { observed: 127, expected: 128 })
    );
    assert_eq!(
        decode_apb_create_dc_resp(&body),
        Err(ClientError::ProtocolMismatch { observed: 127, expected: 130 })
    );
    assert_eq!(
        decode_apb_connect_to_dcs_resp(&body),
        Err(ClientError::ProtocolMismatch { observed: 127, expected: 132 })
    );
    assert_eq!(
        decode_apb_get_connection_descriptor_resp(&body),
        Err(ClientError::ProtocolMismatch { observed: 127, expected: 134 })
    );
    assert_eq!(
        decode_commit_resp(&vec![111, 0x08, 0x01]),
        Err(ClientError::ProtocolMismatch { observed: 111, expected: 127 })
    );
}

#[test]
fn empty_frame_has_no_code() {
    assert_eq!(decode_operation_resp(&Vec::new()), Err(ClientError::EmptyFrame));
    assert_eq!(decode_typed(&Vec::new(), 0), Err(ClientError::EmptyFrame));
}

#[test]
fn acknowledgement_is_read_from_its_fields() {
    assert_eq!(
        decode_operation_resp(&vec![111, 0x08, 0x01]),
        Ok(ApbOperationResp { success: true, errorcode: 0 })
    );
    assert_eq!(
        decode_operation_resp(&vec![111, 0x08, 0x00, 0x10, 0xAC, 0x02]),
        Ok(ApbOperationResp { success: false, errorcode: 300 })
    );
    assert_eq!(
        decode_operation_resp(&vec![111]),
        Ok(ApbOperationResp { success: false, errorcode: 0 })
    );
    assert_eq!(
        decode_apb_create_dc_resp(&vec![130, 0x10, 7, 0x08, 1, 0x10, 9]),
        Ok(ApbCreateDCResp { success: true, errorcode: 9 })
    );
}

#[test]
fn answers_with_bytes_are_read_from_their_fields() {
    let start = decode_start_transaction_resp(&vec![124, 0x08, 1, 0x12, 2, 5, 6]).unwrap();
    assert!(start.success);
    assert_eq!(start.transaction_descriptor, vec![5, 6]);
    assert_eq!(start.errorcode, 0);
    let commit = decode_commit_resp(&vec![127, 0x08, 0, 0x18, 4]).unwrap();
    assert!(!commit.success);
    assert_eq!(commit.commit_time, Vec::<u8>::new());
    assert_eq!(commit.errorcode, 4);
    let descriptor =
        decode_apb_get_connection_descriptor_resp(&vec![134, 0x08, 1, 0x12, 1, 42]).unwrap();
    assert_eq!(descriptor.descriptor, vec![42]);
}

#[test]
fn cut_or_unknown_fields_are_malformed() {
    // a varint that never ends
    assert_eq!(decode_operation_resp(&vec![111, 0x08, 0x80]), Err(ClientError::Malformed));
    // a length that reaches past the end
    assert_eq!(decode_commit_resp(&vec![127, 0x12, 5, 1]), Err(ClientError::Malformed));
    // field number 0
    assert_eq!(decode_operation_resp(&vec![111, 0x00, 0x01]), Err(ClientError::Malformed));
    // a fixed field cut short
    assert_eq!(decode_operation_resp(&vec![111, 0x0D, 1, 2, 3]), Err(ClientError::Malformed));
    // a group, which no record of the protocol has
    assert_eq!(decode_operation_resp(&vec![111, 0x0B, 0x0C]), Err(ClientError::Malformed));
    assert!(scan_fields(&vec![0x08]).is_none());
}

#[test]
fn fields_are_scanned_in_order() {
    let fields = scan_fields(&vec![0x08, 0x96, 0x01, 0x12, 2, 7, 8]).unwrap();
    assert_eq!(fields.len(), 2);
    assert_eq!((fields[0].number, fields[0].wire_type, fields[0].value), (1, 0, 150));
    assert_eq!((fields[1].number, fields[1].wire_type), (2, 2));
    assert_eq!(fields[1].bytes, vec![7, 8]);
}

#[test]
fn unknown_fields_are_passed_over() {
    // a 32-bit and a 64-bit fixed field and an unknown varint around the flag
    let body = vec![
        111, 0x25, 1, 2, 3, 4, 0x08, 1, 0x29, 1, 2, 3, 4, 5, 6, 7, 8, 0x38, 9, 0x10, 6,
    ];
    assert_eq!(
        decode_operation_resp(&body),
        Ok(ApbOperationResp { success: true, errorcode: 6 })
    );
    let fields = scan_fields(&body[1..].to_vec()).unwrap();
    assert_eq!(fields.len(), 5);
    assert_eq!((fields[0].number, fields[0].wire_type), (4, 5));
    assert_eq!(fields[0].bytes, vec![1, 2, 3, 4]);
    assert_eq!((fields[2].number, fields[2].wire_type), (5, 1));
    assert_eq!(fields[2].bytes.len(), 8);
}

#[test]
fn last_occurrence_of_a_field_counts() {
    assert_eq!(
        decode_operation_resp(&vec![111, 0x08, 1, 0x10, 3, 0x08, 0, 0x10, 4]),
        Ok(ApbOperationResp { success: false, errorcode: 4 })
    );
}

#[test]
fn counter_value_is_zigzag_decoded() {
    // counter { value: -3 }
    let o = parse_object(&vec![0x0A, 2, 0x08, 5], 4).unwrap();
    assert_eq!(o.counter, -3);
    let o = parse_object(&vec![0x0A, 2, 0x08, 6], 4).unwrap();
    assert_eq!(o.counter, 3);
    let o = parse_object(&Vec::new(), 0).unwrap();
    assert_eq!(o.counter, 0);
    assert!(o.set.is_empty() && o.reg.is_empty() && o.mvreg.is_empty());
    assert!(o.map.map_resp.entries.is_empty());
}

#[test]
fn map_nested_too_deep_is_refused() {
    // map { entries { key { key: "k", type: COUNTER }, value { counter { value: 1 } } } }
    let entry = vec![0x0A, 5, 0x0A, 1, b'k', 0x10, 3, 0x12, 4, 0x0A, 2, 0x08, 2];
    let mut map = vec![0x0A, entry.len() as u8];
    map.extend(entry);
    let mut object = vec![0x32, map.len() as u8];
    object.extend(map);
    assert!(parse_object(&object, 0).is_none());
    let o = parse_object(&object, 1).unwrap();
    assert_eq!(o.map.map_resp.entries.len(), 1);
    assert_eq!(o.map.map_resp.entries[0].key.key, vec![b'k']);
    assert_eq!(o.map.map_resp.entries[0].key.field_type, CRDT_type::COUNTER);
    assert_eq!(o.map.map_resp.entries[0].value.counter, 1);
}

#[test]
fn map_entry_of_unknown_kind_is_refused() {
    let entry = vec![0x0A, 5, 0x0A, 1, b'k', 0x10, 9, 0x12, 0];
    let mut map = vec![0x0A, entry.len() as u8];
    map.extend(entry);
    let mut object = vec![0x32, map.len() as u8];
    object.extend(map);
    assert!(parse_object(&object, 3).is_none());
    let mut payload = vec![0x08, 1, 0x12, object.len() as u8];
    payload.extend(object);
    let mut body = vec![111];
    body.extend(payload);
    assert_eq!(decode_read_objects_resp(&body).err(), Some(ClientError::Malformed));
}
