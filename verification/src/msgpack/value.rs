use vstd::prelude::*;

verus! {

/// A msgpack value, as the msgpack value model of `rmpv` holds it (floating
/// point values aside).
#[derive(Debug)]
pub enum Value {
    Nil,
    Boolean(bool),
    /// A non-negative integer.
    UInt(u64),
    /// A signed integer.
    Int(i64),
    String(String),
    Binary(Vec<u8>),
    Array(Vec<Value>),
    /// A map: its key/value pairs in order.
    Object(Vec<(Value, Value)>),
    /// An extension value: its type tag and its payload.
    Ext(i8, Vec<u8>),
}

impl Value {
    /// The value of a signed integer: non-negative integers are kept as
    /// unsigned ones.
    pub fn from_i64(n: i64) -> (res: Value)
        ensures
            n >= 0 ==> res == Value::UInt(n as u64),
            n < 0 ==> res == Value::Int(n),
    {
        if n >= 0 {
            Value::UInt(n as u64)
        } else {
            Value::Int(n)
        }
    }

    /// The string value holding the characters of `s`.
    pub fn from_str(s: &str) -> (res: Value)
        ensures
            res matches Value::String(t) && t@ == s@,
    {
        Value::String(String::from_str(s))
    }
}

} // verus!
