use polywrap::msgpack::encode::value_to_vec;
use polywrap::msgpack::value::Value;

fn sample_value() -> Value {
    Value::Object(vec![
        (Value::from_str("code"), Value::from_i64(200)),
        (Value::from_str("success"), Value::Boolean(true)),
        (
            Value::from_str("payload"),
            Value::Object(vec![(
                Value::from_str("features"),
                Value::Array(vec![Value::from_str("serde"), Value::from_str("msgpack")]),
            )]),
        ),
    ])
}

#[test]
fn msgpack_to_vec() {
    let value = value_to_vec(&sample_value());

    assert_eq!(
        value,
        [
            131, 164, 99, 111, 100, 101, 204, 200, 167, 115, 117, 99, 99, 101, 115, 115, 195,
            167, 112, 97, 121, 108, 111, 97, 100, 129, 168, 102, 101, 97, 116, 117, 114, 101,
            115, 146, 165, 115, 101, 114, 100, 101, 167, 109, 115, 103, 112, 97, 99, 107
        ]
    )
}

#[test]
fn encodes_scalars_in_shortest_form() {
    assert_eq!(value_to_vec(&Value::Nil), vec![0xc0]);
    assert_eq!(value_to_vec(&Value::Boolean(false)), vec![0xc2]);
    assert_eq!(value_to_vec(&Value::Boolean(true)), vec![0xc3]);
    assert_eq!(value_to_vec(&Value::UInt(0)), vec![0x00]);
    assert_eq!(value_to_vec(&Value::UInt(127)), vec![0x7f]);
    assert_eq!(value_to_vec(&Value::UInt(128)), vec![0xcc, 0x80]);
    assert_eq!(value_to_vec(&Value::UInt(256)), vec![0xcd, 0x01, 0x00]);
    assert_eq!(value_to_vec(&Value::UInt(65536)), vec![0xce, 0x00, 0x01, 0x00, 0x00]);
    assert_eq!(
        value_to_vec(&Value::UInt(u64::MAX)),
        vec![0xcf, 0xff, 0xff, 0xff, 0xff, 0xff, 0xff, 0xff, 0xff]
    );
    assert_eq!(value_to_vec(&Value::Int(-1)), vec![0xff]);
    assert_eq!(value_to_vec(&Value::Int(-32)), vec![0xe0]);
    assert_eq!(value_to_vec(&Value::Int(-33)), vec![0xd0, 0xdf]);
    assert_eq!(value_to_vec(&Value::Int(-129)), vec![0xd1, 0xff, 0x7f]);
    assert_eq!(value_to_vec(&Value::Int(-32769)), vec![0xd2, 0xff, 0xff, 0x7f, 0xff]);
    assert_eq!(
        value_to_vec(&Value::Int(i64::MIN)),
        vec![0xd3, 0x80, 0, 0, 0, 0, 0, 0, 0]
    );
    assert_eq!(value_to_vec(&Value::Int(5)), vec![0x05]);
}

#[test]
fn from_i64_keeps_non_negative_as_unsigned() {
    assert_eq!(value_to_vec(&Value::from_i64(200)), vec![0xcc, 200]);
    assert_eq!(value_to_vec(&Value::from_i64(-200)), vec![0xd1, 0xff, 0x38]);
    match Value::from_i64(7) {
        Value::UInt(n) => assert_eq!(n, 7),
        _ => panic!("expected an unsigned value"),
    }
    match Value::from_i64(-7) {
        Value::Int(n) => assert_eq!(n, -7),
        _ => panic!("expected a signed value"),
    }
}

#[test]
fn encodes_strings_and_binaries_with_length_headers() {
    assert_eq!(value_to_vec(&Value::from_str("")), vec![0xa0]);
    assert_eq!(value_to_vec(&Value::from_str("é")), vec![0xa2, 0xc3, 0xa9]);
    let long = "x".repeat(32);
    let mut expected = vec![0xd9, 32];
    expected.extend(std::iter::repeat(b'x').take(32));
    assert_eq!(value_to_vec(&Value::from_str(&long)), expected);
    let longer = "y".repeat(300);
    let encoded = value_to_vec(&Value::from_str(&longer));
    assert_eq!(&encoded[..3], &[0xda, 0x01, 0x2c]);
    assert_eq!(encoded.len(), 303);
    assert_eq!(value_to_vec(&Value::Binary(vec![1, 2, 3])), vec![0xc4, 3, 1, 2, 3]);
    let big = vec![7u8; 256];
    let encoded = value_to_vec(&Value::Binary(big));
    assert_eq!(&encoded[..3], &[0xc5, 0x01, 0x00]);
    assert_eq!(encoded.len(), 259);
}

#[test]
fn encodes_collections_and_extensions() {
    assert_eq!(value_to_vec(&Value::Array(vec![])), vec![0x90]);
    assert_eq!(value_to_vec(&Value::Object(vec![])), vec![0x80]);
    let items: Vec<Value> = (0..16).map(|i| Value::UInt(i)).collect();
    let encoded = value_to_vec(&Value::Array(items));
    assert_eq!(&encoded[..3], &[0xdc, 0x00, 0x10]);
    assert_eq!(encoded.len(), 19);
    let entries: Vec<(Value, Value)> = (0..16).map(|i| (Value::UInt(i), Value::Nil)).collect();
    let encoded = value_to_vec(&Value::Object(entries));
    assert_eq!(&encoded[..3], &[0xde, 0x00, 0x10]);
    assert_eq!(encoded.len(), 35);
    assert_eq!(value_to_vec(&Value::Ext(5, vec![9])), vec![0xd4, 5, 9]);
    assert_eq!(value_to_vec(&Value::Ext(-2, vec![1, 2])), vec![0xd5, 0xfe, 1, 2]);
    assert_eq!(value_to_vec(&Value::Ext(1, vec![0; 4]))[..2], [0xd6, 1]);
    assert_eq!(value_to_vec(&Value::Ext(1, vec![0; 8]))[..2], [0xd7, 1]);
    assert_eq!(value_to_vec(&Value::Ext(1, vec![0; 16]))[..2], [0xd8, 1]);
    assert_eq!(value_to_vec(&Value::Ext(1, vec![0; 3]))[..3], [0xc7, 3, 1]);
    assert_eq!(value_to_vec(&Value::Ext(1, vec![])), vec![0xc7, 0, 1]);
}

#[test]
fn encoding_matches_rmpv() {
    let value = sample_value();
    let ours = value_to_vec(&value);
    let mut reader = &ours[..];
    let decoded = rmpv::decode::read_value(&mut reader).unwrap();
    assert!(reader.is_empty());
    let mut theirs = Vec::new();
    rmpv::encode::write_value(&mut theirs, &decoded).unwrap();
    assert_eq!(ours, theirs);
}

#[test]
fn write_value_appends_to_existing_bytes() {
    let mut buf = vec![1, 2];
    polywrap::msgpack::encode::write_value(&mut buf, &Value::Boolean(true));
    assert_eq!(buf, vec![1, 2, 0xc3]);
}
