use std::collections::BTreeMap;

use polywrap::msgpack::encode::value_to_vec;
use polywrap::msgpack::generic_map::{
    generic_map_ext, generic_map_payload, generic_map_value, GenericMap, GenericMapError,
    GENERIC_MAP_EXT_TYPE,
};
use polywrap::msgpack::value::Value;

const ENCODED: [u8; 17] = [
    199, 14, 1, 129, 163, 107, 101, 121, 129, 163, 102, 111, 111, 163, 98, 97, 114,
];

fn nested_entries(map: &BTreeMap<String, BTreeMap<String, String>>) -> Vec<(Value, Value)> {
    let mut entries = Vec::new();
    for (k, inner) in map {
        let mut inner_entries = Vec::new();
        for (ik, iv) in inner {
            inner_entries.push((Value::from_str(ik), Value::from_str(iv)));
        }
        entries.push((Value::from_str(k), Value::Object(inner_entries)));
    }
    entries
}

fn decode_generic_map(bytes: &[u8]) -> GenericMap<String, BTreeMap<String, String>> {
    let mut reader = bytes;
    let value = rmpv::decode::read_value(&mut reader).unwrap();
    match value {
        rmpv::Value::Ext(tag, data) => {
            let payload = generic_map_payload(tag, data).unwrap();
            GenericMap(rmp_serde::from_slice(&payload).unwrap())
        }
        _ => panic!("expected an extension value"),
    }
}

#[test]
fn from_msgpack_to_generic_map() {
    let mut map = BTreeMap::new();
    let mut map2 = BTreeMap::new();

    map2.insert("foo".to_string(), "bar".to_string());
    map.insert("key".to_string(), map2);

    let expected = GenericMap(map);
    let actual: GenericMap<String, BTreeMap<String, String>> = decode_generic_map(&ENCODED);

    assert_eq!(expected, actual)
}

#[test]
fn from_generic_map_to_msgpack() {
    let mut map = BTreeMap::new();
    let mut map2 = BTreeMap::new();

    map2.insert("foo".to_string(), "bar".to_string());
    map.insert("key".to_string(), map2);

    let generic_map = GenericMap(map);
    let actual = value_to_vec(&generic_map_value(nested_entries(&generic_map.0)));
    assert_eq!(ENCODED.to_vec(), actual)
}

#[test]
fn from_msgpack_to_json() {
    let map: GenericMap<String, BTreeMap<String, String>> = decode_generic_map(&ENCODED);
    let json_str = serde_json::to_string(&map.0).unwrap();

    assert_eq!(json_str, "{\"key\":{\"foo\":\"bar\"}}")
}

#[test]
fn from_json_to_msgpack() {
    let json_str = "{\"key\":{\"foo\":\"bar\"}}";
    let map: BTreeMap<String, BTreeMap<String, String>> = serde_json::from_str(&json_str).unwrap();
    let map: GenericMap<String, BTreeMap<String, String>> = GenericMap(map);

    let actual = value_to_vec(&generic_map_value(nested_entries(&map.0)));
    assert_eq!(ENCODED.to_vec(), actual)
}

#[test]
fn generic_map_payload_refuses_other_tags() {
    assert_eq!(
        generic_map_payload(2, vec![0x80]),
        Err(GenericMapError::UnexpectedExtType(2))
    );
    assert_eq!(
        generic_map_payload(-1, vec![]),
        Err(GenericMapError::UnexpectedExtType(-1))
    );
    assert_eq!(generic_map_payload(1, vec![0x80, 1]), Ok(vec![0x80, 1]));
}

#[test]
fn generic_map_ext_frames_payload_and_reads_back() {
    let (tag, payload) = generic_map_ext(vec![0x81, 0xa1, 0x61, 0x01]);
    assert_eq!(tag, GENERIC_MAP_EXT_TYPE);
    assert_eq!(tag, 1);
    assert_eq!(generic_map_payload(tag, payload), Ok(vec![0x81, 0xa1, 0x61, 0x01]));
}

#[test]
fn generic_map_conversions_keep_the_map() {
    let mut map = BTreeMap::new();
    map.insert(1u32, "one".to_string());
    let generic: GenericMap<u32, String> = GenericMap::from(map.clone());
    assert_eq!(generic.0, map);
    let back: BTreeMap<u32, String> = BTreeMap::from(generic);
    assert_eq!(back, map);
}

#[test]
fn sample_struct_with_generic_map_to_vec() {
    let payload = generic_map_value(vec![(
        Value::from_str("features"),
        Value::Array(vec![Value::from_str("serde"), Value::from_str("msgpack")]),
    )]);
    let value = Value::Object(vec![
        (Value::from_str("code"), Value::from_i64(200)),
        (Value::from_str("success"), Value::Boolean(true)),
        (Value::from_str("payload"), payload),
    ]);
    let expected: [u8; 53] = [
        131, 164, 99, 111, 100, 101, 204, 200, 167, 115, 117, 99, 99, 101, 115, 115, 195, 167,
        112, 97, 121, 108, 111, 97, 100, 199, 25, 1, 129, 168, 102, 101, 97, 116, 117, 114, 101,
        115, 146, 165, 115, 101, 114, 100, 101, 167, 109, 115, 103, 112, 97, 99, 107,
    ];
    assert_eq!(value_to_vec(&value), expected.to_vec());
}
