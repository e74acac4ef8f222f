use event_dispatch::codec::{
    decode_payload, decode_request, encode_payload, encode_response, Payload, PayloadTag,
};

#[test]
fn encode_id_exact_bytes() {
    let bytes = encode_payload(&Payload::Id(258));
    assert_eq!(bytes, vec![1, 2, 1, 0, 0, 0, 0, 0, 0]);
}

#[test]
fn encode_data_exact_bytes() {
    let bytes = encode_payload(&Payload::Data(vec![9, 8]));
    assert_eq!(bytes, vec![2, 2, 0, 0, 0, 0, 0, 0, 0, 9, 8]);
}

#[test]
fn encode_record_exact_bytes() {
    let bytes = encode_payload(&Payload::Record { id: 7, data: vec![5] });
    assert_eq!(
        bytes,
        vec![3, 7, 0, 0, 0, 0, 0, 0, 0, 1, 0, 0, 0, 0, 0, 0, 0, 5]
    );
}

#[test]
fn round_trip_id() {
    let p = Payload::Id(u64::MAX);
    assert_eq!(decode_payload(&encode_payload(&p)), Some(p));
}

#[test]
fn round_trip_data() {
    let p = Payload::Data(vec![0, 1, 2, 255]);
    assert_eq!(decode_payload(&encode_payload(&p)), Some(p));
}

#[test]
fn round_trip_empty_data() {
    let p = Payload::Data(Vec::new());
    assert_eq!(decode_payload(&encode_payload(&p)), Some(p));
}

#[test]
fn round_trip_record() {
    let p = Payload::Record { id: 3, data: vec![10, 20, 30] };
    assert_eq!(decode_payload(&encode_payload(&p)), Some(p));
}

#[test]
fn decode_rejects_truncated() {
    assert_eq!(decode_payload(&vec![1, 2, 3]), None);
    assert_eq!(decode_payload(&Vec::new()), None);
}

#[test]
fn decode_rejects_unknown_tag() {
    assert_eq!(decode_payload(&vec![9, 0, 0, 0, 0, 0, 0, 0, 0]), None);
}

#[test]
fn decode_rejects_trailing_bytes_on_id() {
    let mut bytes = encode_payload(&Payload::Id(4));
    bytes.push(0);
    assert_eq!(decode_payload(&bytes), None);
}

#[test]
fn decode_rejects_wrong_length_field() {
    // Data encoding whose length field says one byte but carries two.
    let bytes = vec![2, 1, 0, 0, 0, 0, 0, 0, 0, 9, 9];
    assert_eq!(decode_payload(&bytes), None);
}

#[test]
fn response_round_trip_through_declared_shape() {
    let resp = Some(Payload::Record { id: 1, data: vec![42] });
    let bytes = encode_response(resp.clone());
    assert_eq!(
        decode_request(Some(PayloadTag::Record), &bytes),
        Some(resp)
    );
}

#[test]
fn empty_response_round_trip() {
    let bytes = encode_response(None);
    assert_eq!(bytes, Vec::<u8>::new());
    assert_eq!(decode_request(None, &bytes), Some(None));
}

#[test]
fn decode_request_rejects_payload_where_none_declared() {
    let bytes = encode_payload(&Payload::Id(1));
    assert_eq!(decode_request(None, &bytes), None);
}

#[test]
fn decode_request_rejects_mismatched_shape() {
    let bytes = encode_payload(&Payload::Id(1));
    assert_eq!(decode_request(Some(PayloadTag::Data), &bytes), None);
}
