use vstd::prelude::*;
use std::collections::BTreeMap;
use crate::msgpack::encode::value_to_vec;
use crate::msgpack::value::Value;

verus! {

/// A map that travels in msgpack as an extension value: the type tag
/// `GENERIC_MAP_EXT_TYPE` and the msgpack encoding of the map as payload.
#[derive(Debug, PartialEq, Clone)]
pub struct GenericMap<K, V>(pub BTreeMap<K, V>);

/// The extension type tag of a generic map.
pub const GENERIC_MAP_EXT_TYPE: i8 = 1;

/// A generic map could not be read from an extension value.
#[derive(Debug, PartialEq, Eq, Clone, Copy, Structural)]
pub enum GenericMapError {
    /// The extension value carries another type tag than a generic map's.
    UnexpectedExtType(i8),
}

impl<K, V> From<BTreeMap<K, V>> for GenericMap<K, V> {
    fn from(value: BTreeMap<K, V>) -> (res: GenericMap<K, V>) {
        GenericMap(value)
    }
}

impl<K, V> vstd::std_specs::convert::FromSpecImpl<BTreeMap<K, V>> for GenericMap<K, V> {
    open spec fn obeys_from_spec() -> bool {
        true
    }

    open spec fn from_spec(v: BTreeMap<K, V>) -> GenericMap<K, V> {
        GenericMap(v)
    }
}

impl<K, V> From<GenericMap<K, V>> for BTreeMap<K, V> {
    fn from(value: GenericMap<K, V>) -> (res: BTreeMap<K, V>) {
        value.0
    }
}

impl<K, V> vstd::std_specs::convert::FromSpecImpl<GenericMap<K, V>> for BTreeMap<K, V> {
    open spec fn obeys_from_spec() -> bool {
        true
    }

    open spec fn from_spec(v: GenericMap<K, V>) -> BTreeMap<K, V> {
        v.0
    }
}

/// The extension value that frames the map encoding `payload`: the generic
/// map type tag and the payload.
pub open spec fn ext_frame(payload: Seq<u8>) -> (i8, Seq<u8>) {
    (GENERIC_MAP_EXT_TYPE, payload)
}

/// The map encoding an extension value carries, or the refused type tag.
pub open spec fn ext_payload(tag: i8, data: Seq<u8>) -> Result<Seq<u8>, i8> {
    if tag == GENERIC_MAP_EXT_TYPE {
        Ok(data)
    } else {
        Err(tag)
    }
}

/// The extension value that carries a map whose msgpack encoding is `payload`.
pub fn generic_map_ext(payload: Vec<u8>) -> (res: (i8, Vec<u8>))
    ensures
        (res.0, res.1@) == ext_frame(payload@),
{
    (GENERIC_MAP_EXT_TYPE, payload)
}

/// The payload of an extension value that carries a generic map; another type
/// tag is refused.
pub fn generic_map_payload(tag: i8, data: Vec<u8>) -> (res: Result<Vec<u8>, GenericMapError>)
    ensures
        match ext_payload(tag, data@) {
            Ok(p) => res matches Ok(d) && d@ == p,
            Err(t) => res matches Err(GenericMapError::UnexpectedExtType(u)) && u == t,
        },
{
    if tag == GENERIC_MAP_EXT_TYPE {
        Ok(data)
    } else {
        Err(GenericMapError::UnexpectedExtType(tag))
    }
}

/// Reading back the extension value that frames a map encoding gives that
/// encoding.
pub proof fn lemma_ext_frame_roundtrip(payload: Seq<u8>)
    ensures
        ext_payload(ext_frame(payload).0, ext_frame(payload).1) == Ok::<Seq<u8>, i8>(payload),
{
}

/// Only extension values of type 1, the generic map type, are read: their
/// payload comes back as it is, and any other type tag is refused with that
/// tag, whatever the payload.
pub proof fn lemma_only_generic_map_tag_is_read(tag: i8, data: Seq<u8>)
    ensures
        tag == 1 ==> ext_payload(tag, data) == Ok::<Seq<u8>, i8>(data),
        tag != 1 ==> ext_payload(tag, data) == Err::<Seq<u8>, i8>(tag),
        GENERIC_MAP_EXT_TYPE == 1,
{
}

/// The msgpack value of a generic map whose entries are `entries`: an
/// extension value of the generic map type whose payload is the encoding of the
/// map.
pub fn generic_map_value(entries: Vec<(Value, Value)>) -> (res: Value)
    ensures
        res matches Value::Ext(tag, payload) && tag == GENERIC_MAP_EXT_TYPE && payload@
            == crate::msgpack::encode::encoding(Value::Object(entries)),
{
    let payload = value_to_vec(&Value::Object(entries));
    let (tag, payload) = generic_map_ext(payload);
    Value::Ext(tag, payload)
}

} // verus!
