use vstd::prelude::*;
use crate::msgpack::value::Value;
use vstd::utf8::encode_utf8;

verus! {

/// The last `k` bytes of the two's complement of `n`, most significant first.
pub open spec fn be_bytes(n: int, k: nat) -> Seq<u8>
    decreases k,
{
    if k == 0 {
        Seq::empty()
    } else {
        be_bytes(n / 256, (k - 1) as nat).push((n % 256) as u8)
    }
}

/// The msgpack encoding of a non-negative integer in the fewest bytes.
pub open spec fn uint_bytes(n: int) -> Seq<u8> {
    if n < 128 {
        seq![n as u8]
    } else if n < 256 {
        seq![0xccu8] + be_bytes(n, 1)
    } else if n < 65536 {
        seq![0xcdu8] + be_bytes(n, 2)
    } else if n < 0x1_0000_0000 {
        seq![0xceu8] + be_bytes(n, 4)
    } else {
        seq![0xcfu8] + be_bytes(n, 8)
    }
}

/// The msgpack encoding of a signed integer in the fewest bytes.
pub open spec fn sint_bytes(n: int) -> Seq<u8> {
    if n >= 0 {
        uint_bytes(n)
    } else if n >= -32 {
        be_bytes(n, 1)
    } else if n >= -128 {
        seq![0xd0u8] + be_bytes(n, 1)
    } else if n >= -32768 {
        seq![0xd1u8] + be_bytes(n, 2)
    } else if n >= -0x8000_0000 {
        seq![0xd2u8] + be_bytes(n, 4)
    } else {
        seq![0xd3u8] + be_bytes(n, 8)
    }
}

/// Header of a string of `len` bytes.
pub open spec fn str_header(len: int) -> Seq<u8> {
    if len < 32 {
        seq![(0xa0 + len) as u8]
    } else if len < 256 {
        seq![0xd9u8] + be_bytes(len, 1)
    } else if len < 65536 {
        seq![0xdau8] + be_bytes(len, 2)
    } else {
        seq![0xdbu8] + be_bytes(len, 4)
    }
}

/// A string as msgpack holds it: its header, then its UTF-8 bytes.
pub open spec fn str_bytes(s: Seq<char>) -> Seq<u8> {
    str_header(len32(encode_utf8(s).len() as int)) + encode_utf8(s)
}

/// Header of a byte array of `len` bytes.
pub open spec fn bin_header(len: int) -> Seq<u8> {
    if len < 256 {
        seq![0xc4u8] + be_bytes(len, 1)
    } else if len < 65536 {
        seq![0xc5u8] + be_bytes(len, 2)
    } else {
        seq![0xc6u8] + be_bytes(len, 4)
    }
}

/// Header of an array of `len` values.
pub open spec fn array_header(len: int) -> Seq<u8> {
    if len < 16 {
        seq![(0x90 + len) as u8]
    } else if len < 65536 {
        seq![0xdcu8] + be_bytes(len, 2)
    } else {
        seq![0xddu8] + be_bytes(len, 4)
    }
}

/// Header of a map of `len` pairs.
pub open spec fn map_header(len: int) -> Seq<u8> {
    if len < 16 {
        seq![(0x80 + len) as u8]
    } else if len < 65536 {
        seq![0xdeu8] + be_bytes(len, 2)
    } else {
        seq![0xdfu8] + be_bytes(len, 4)
    }
}

/// Header of an extension value of type `ty` with a payload of `len` bytes.
pub open spec fn ext_header(len: int, ty: i8) -> Seq<u8> {
    let lead = if len == 1 {
        seq![0xd4u8]
    } else if len == 2 {
        seq![0xd5u8]
    } else if len == 4 {
        seq![0xd6u8]
    } else if len == 8 {
        seq![0xd7u8]
    } else if len == 16 {
        seq![0xd8u8]
    } else if len < 256 {
        seq![0xc7u8] + be_bytes(len, 1)
    } else if len < 65536 {
        seq![0xc8u8] + be_bytes(len, 2)
    } else {
        seq![0xc9u8] + be_bytes(len, 4)
    };
    lead + be_bytes(ty as int, 1)
}

/// A length as the 32-bit length field of msgpack holds it.
pub open spec fn len32(n: int) -> int {
    n % 0x1_0000_0000
}

/// The msgpack encoding of `v`.
pub open spec fn encoding(v: Value) -> Seq<u8>
    decreases v,
{
    match v {
        Value::Nil => seq![0xc0u8],
        Value::Boolean(b) => if b {
            seq![0xc3u8]
        } else {
            seq![0xc2u8]
        },
        Value::UInt(n) => uint_bytes(n as int),
        Value::Int(n) => sint_bytes(n as int),
        Value::String(s) => str_bytes(s@),
        Value::Binary(b) => bin_header(len32(b@.len() as int)) + b@,
        Value::Array(items) => array_header(len32(items@.len() as int)) + encoding_seq(items@),
        Value::Object(entries) => map_header(len32(entries@.len() as int)) + encoding_pairs(entries@),
        Value::Ext(ty, data) => ext_header(len32(data@.len() as int), ty) + data@,
    }
}

/// The encodings of `items`, one after the other.
pub open spec fn encoding_seq(items: Seq<Value>) -> Seq<u8>
    decreases items,
{
    if items.len() == 0 {
        Seq::empty()
    } else {
        encoding_seq(items.drop_last()) + encoding(items.last())
    }
}

/// The encodings of each key followed by its value, pair after pair.
pub open spec fn encoding_pairs(entries: Seq<(Value, Value)>) -> Seq<u8>
    decreases entries,
{
    if entries.len() == 0 {
        Seq::empty()
    } else {
        encoding_pairs(entries.drop_last()) + encoding(entries.last().0) + encoding(entries.last().1)
    }
}

/// Writes the nil marker with `rmp::encode::write_nil`. The contract claims the
/// byte that the msgpack format gives; writing to a `Vec` does not fail.
#[verifier::external_body]
fn rmp_write_nil(buf: &mut Vec<u8>)
    ensures
        final(buf)@ == old(buf)@ + seq![0xc0u8],
{
    rmp::encode::write_nil(buf).unwrap();
}

/// Writes a boolean with `rmp::encode::write_bool`: the contract claims the
/// marker byte for `true` or `false`.
#[verifier::external_body]
fn rmp_write_bool(buf: &mut Vec<u8>, b: bool)
    ensures
        final(buf)@ == old(buf)@ + if b { seq![0xc3u8] } else { seq![0xc2u8] },
{
    rmp::encode::write_bool(buf, b).unwrap();
}

/// Writes an unsigned integer with `rmp::encode::write_uint`, which picks the
/// shortest msgpack form; the contract claims that form.
#[verifier::external_body]
fn rmp_write_uint(buf: &mut Vec<u8>, n: u64)
    ensures
        final(buf)@ == old(buf)@ + uint_bytes(n as int),
{
    rmp::encode::write_uint(buf, n).unwrap();
}

/// Writes a signed integer with `rmp::encode::write_sint`, which picks the
/// shortest msgpack form; the contract claims that form.
#[verifier::external_body]
fn rmp_write_sint(buf: &mut Vec<u8>, n: i64)
    ensures
        final(buf)@ == old(buf)@ + sint_bytes(n as int),
{
    rmp::encode::write_sint(buf, n).unwrap();
}

/// Writes a string with `rmp::encode::write_str`: the contract claims a header
/// for the UTF-8 length, cut to 32 bits, then the UTF-8 bytes.
#[verifier::external_body]
fn rmp_write_str(buf: &mut Vec<u8>, s: &str)
    ensures
        final(buf)@ == old(buf)@ + str_bytes(s@),
{
    rmp::encode::write_str(buf, s).unwrap();
}

/// Writes a byte array with `rmp::encode::write_bin`: the contract claims a
/// header for the length, cut to 32 bits, then the bytes.
#[verifier::external_body]
fn rmp_write_bin(buf: &mut Vec<u8>, data: &[u8])
    ensures
        final(buf)@ == old(buf)@ + bin_header(len32(data@.len() as int)) + data@,
{
    rmp::encode::write_bin(buf, data).unwrap();
}

/// Writes an array header with `rmp::encode::write_array_len`; the contract
/// claims the shortest header form.
#[verifier::external_body]
fn rmp_write_array_len(buf: &mut Vec<u8>, len: u32)
    ensures
        final(buf)@ == old(buf)@ + array_header(len as int),
{
    rmp::encode::write_array_len(buf, len).unwrap();
}

/// Writes a map header with `rmp::encode::write_map_len`; the contract claims
/// the shortest header form.
#[verifier::external_body]
fn rmp_write_map_len(buf: &mut Vec<u8>, len: u32)
    ensures
        final(buf)@ == old(buf)@ + map_header(len as int),
{
    rmp::encode::write_map_len(buf, len).unwrap();
}

/// Writes an extension header with `rmp::encode::write_ext_meta`; the contract
/// claims the header form for the payload length and the type byte.
#[verifier::external_body]
fn rmp_write_ext_meta(buf: &mut Vec<u8>, len: u32, ty: i8)
    ensures
        final(buf)@ == old(buf)@ + ext_header(len as int, ty),
{
    rmp::encode::write_ext_meta(buf, len, ty).unwrap();
}

/// A length cut to the 32 bits of a msgpack length field.
fn length_field(n: usize) -> (res: u32)
    ensures
        res == len32(n as int),
{
    let r = ((n as u64) % 0x1_0000_0000u64) as u32;
    r
}

/// Appends the bytes of `data` to `buf`.
fn append_bytes(buf: &mut Vec<u8>, data: &Vec<u8>)
    ensures
        final(buf)@ == old(buf)@ + data@,
{
    let ghost start = buf@;
    let mut i: usize = 0;
    while i < data.len()
        invariant
            i <= data.len(),
            buf@ == start + data@.take(i as int),
        decreases data.len() - i,
    {
        buf.push(data[i]);
        i = i + 1;
        assert(buf@ =~= start + data@.take(i as int));
    }
    assert(data@.take(data.len() as int) == data@);
}

/// Appends the msgpack encoding of `v` to `buf`.
pub fn write_value(buf: &mut Vec<u8>, v: &Value)
    ensures
        final(buf)@ == old(buf)@ + encoding(*v),
    decreases v,
{
    let ghost start = buf@;
    match v {
        Value::Nil => rmp_write_nil(buf),
        Value::Boolean(b) => rmp_write_bool(buf, *b),
        Value::UInt(n) => rmp_write_uint(buf, *n),
        Value::Int(n) => rmp_write_sint(buf, *n),
        Value::String(s) => rmp_write_str(buf, s.as_str()),
        Value::Binary(b) => rmp_write_bin(buf, b.as_slice()),
        Value::Array(items) => {
            rmp_write_array_len(buf, length_field(items.len()));
            let ghost head = buf@;
            let mut i: usize = 0;
            while i < items.len()
                invariant
                    i <= items.len(),
                    *v == Value::Array(*items),
                    buf@ == head + encoding_seq(items@.take(i as int)),
                decreases items.len() - i,
            {
                proof {
                    assert(decreases_to!(*v => (*v)->Array_0));
                    assert(decreases_to!(*items => items[i as int]));
                }
                write_value(buf, &items[i]);
                i = i + 1;
                assert(items@.take(i as int).drop_last() == items@.take(i - 1));
            }
            assert(items@.take(items.len() as int) == items@);
        },
        Value::Object(entries) => {
            rmp_write_map_len(buf, length_field(entries.len()));
            let ghost head = buf@;
            let mut i: usize = 0;
            while i < entries.len()
                invariant
                    i <= entries.len(),
                    *v == Value::Object(*entries),
                    buf@ == head + encoding_pairs(entries@.take(i as int)),
                decreases entries.len() - i,
            {
                let entry = &entries[i];
                proof {
                    assert(decreases_to!(*v => (*v)->Object_0));
                    assert(decreases_to!(*entries => entries[i as int]));
                    assert(decreases_to!(entries[i as int] => entries[i as int].0));
                    assert(decreases_to!(entries[i as int] => entries[i as int].1));
                }
                write_value(buf, &entry.0);
                write_value(buf, &entry.1);
                i = i + 1;
                assert(entries@.take(i as int).drop_last() == entries@.take(i - 1));
            }
            assert(entries@.take(entries.len() as int) == entries@);
        },
        Value::Ext(ty, data) => {
            rmp_write_ext_meta(buf, length_field(data.len()), *ty);
            append_bytes(buf, data);
        },
    }
}

/// The msgpack encoding of `v`.
pub fn value_to_vec(v: &Value) -> (res: Vec<u8>)
    ensures
        res@ == encoding(*v),
{
    let mut buf: Vec<u8> = Vec::new();
    write_value(&mut buf, v);
    assert(buf@ =~= encoding(*v));
    buf
}

} // verus!

