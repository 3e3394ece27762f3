use vstd::prelude::*;
use vstd::arithmetic::div_mod::{lemma_fundamental_div_mod, lemma_fundamental_div_mod_converse};
use crate::msgpack::encode::{be_bytes, encoding};
use crate::msgpack::value::Value;

verus! {

/// `256` to the power `k`.
pub open spec fn pow256(k: nat) -> nat
    decreases k,
{
    if k == 0 {
        1
    } else {
        256 * pow256((k - 1) as nat)
    }
}

/// The unsigned number that the bytes `s` spell, most significant first.
pub open spec fn be_value(s: Seq<u8>) -> nat
    decreases s.len(),
{
    if s.len() == 0 {
        0
    } else {
        be_value(s.drop_last()) * 256 + s.last() as nat
    }
}

/// The two's complement reading of the `k`-byte unsigned number `u`.
pub open spec fn signed_of(u: nat, k: nat) -> int {
    if u * 2 >= pow256(k) {
        u - pow256(k)
    } else {
        u as int
    }
}

/// The integer that the msgpack bytes `b` hold, read by their marker byte, or
/// `None` when `b` is not exactly one msgpack integer.
pub open spec fn decode_int(b: Seq<u8>) -> Option<int> {
    if b.len() == 0 {
        None
    } else {
        let m = b[0];
        let rest = b.drop_first();
        if m < 0x80 && b.len() == 1 {
            Some(m as int)
        } else if m >= 0xe0 && b.len() == 1 {
            Some(m - 256)
        } else if m == 0xcc && b.len() == 2 {
            Some(be_value(rest) as int)
        } else if m == 0xcd && b.len() == 3 {
            Some(be_value(rest) as int)
        } else if m == 0xce && b.len() == 5 {
            Some(be_value(rest) as int)
        } else if m == 0xcf && b.len() == 9 {
            Some(be_value(rest) as int)
        } else if m == 0xd0 && b.len() == 2 {
            Some(signed_of(be_value(rest), 1))
        } else if m == 0xd1 && b.len() == 3 {
            Some(signed_of(be_value(rest), 2))
        } else if m == 0xd2 && b.len() == 5 {
            Some(signed_of(be_value(rest), 4))
        } else if m == 0xd3 && b.len() == 9 {
            Some(signed_of(be_value(rest), 8))
        } else {
            None
        }
    }
}

proof fn lemma_pow256_values()
    ensures
        pow256(0) == 1,
        pow256(1) == 256,
        pow256(2) == 0x1_0000,
        pow256(4) == 0x1_0000_0000,
        pow256(8) == 0x1_0000_0000_0000_0000,
{
    reveal_with_fuel(pow256, 9);
}

proof fn lemma_pow256_positive(k: nat)
    ensures
        pow256(k) > 0,
    decreases k,
{
    if k > 0 {
        lemma_pow256_positive((k - 1) as nat);
    }
}

proof fn lemma_mod_split(x: int, z: int)
    requires
        z > 0,
    ensures
        x % (256 * z) == 256 * ((x / 256) % z) + x % 256,
{
    let q = x / 256;
    let r = x % 256;
    lemma_fundamental_div_mod(x, 256);
    lemma_fundamental_div_mod(q, z);
    let t = q / z;
    let s = q % z;
    assert(0 <= s < z);
    assert(0 <= r < 256);
    assert(x == t * (256 * z) + (256 * s + r)) by (nonlinear_arith)
        requires
            x == 256 * q + r,
            q == z * t + s,
    ;
    assert(0 <= 256 * s + r < 256 * z) by (nonlinear_arith)
        requires
            0 <= s < z,
            0 <= r < 256,
    ;
    lemma_fundamental_div_mod_converse(x, 256 * z, t, 256 * s + r);
}

/// The bytes of `be_bytes(n, k)` spell `n` modulo `256^k`.
proof fn lemma_be_bytes_value(n: int, k: nat)
    ensures
        be_bytes(n, k).len() == k,
        be_value(be_bytes(n, k)) == n % (pow256(k) as int),
    decreases k,
{
    if k == 0 {
        assert(n % 1 == 0);
    } else {
        let p = pow256((k - 1) as nat);
        lemma_pow256_positive((k - 1) as nat);
        lemma_be_bytes_value(n / 256, (k - 1) as nat);
        let s = be_bytes(n, k);
        assert(s.drop_last() == be_bytes(n / 256, (k - 1) as nat));
        assert(0 <= n % 256 < 256);
        assert(s.last() as int == n % 256);
        lemma_mod_split(n, p as int);
        let a = (n / 256) % (p as int);
        assert(a * 256 + n % 256 == 256 * a + n % 256) by (nonlinear_arith);
    }
}

/// The number that `s` spells is below `256` to the power of its length.
proof fn lemma_be_value_bound(s: Seq<u8>)
    ensures
        be_value(s) < pow256(s.len()),
    decreases s.len(),
{
    if s.len() > 0 {
        let t = s.drop_last();
        lemma_be_value_bound(t);
        let v = be_value(t);
        let p = pow256(t.len());
        assert(v * 256 + s.last() < 256 * p) by (nonlinear_arith)
            requires
                v < p,
                s.last() < 256,
        ;
    }
}

/// `n` modulo `p` for `n` in `[-p/2, p)`.
proof fn lemma_small_mod(n: int, p: int)
    requires
        p > 0,
        -p <= n < p,
    ensures
        n % p == if n >= 0 {
            n
        } else {
            n + p
        },
{
    if n >= 0 {
        lemma_fundamental_div_mod_converse(n, p, 0, n);
    } else {
        lemma_fundamental_div_mod_converse(n, p, -1, n + p);
    }
}

/// Reading back a marker byte followed by the `k` bytes of `n`.
proof fn lemma_marked(marker: u8, n: int, k: nat)
    ensures
        (seq![marker] + be_bytes(n, k))[0] == marker,
        (seq![marker] + be_bytes(n, k)).drop_first() == be_bytes(n, k),
        (seq![marker] + be_bytes(n, k)).len() == k + 1,
{
    lemma_be_bytes_value(n, k);
    assert((seq![marker] + be_bytes(n, k)).drop_first() =~= be_bytes(n, k));
}

/// The msgpack encoding of an unsigned integer reads back as that integer.
pub proof fn lemma_uint_encoding_decodes(n: u64)
    ensures
        decode_int(encoding(Value::UInt(n))) == Some(n as int),
{
    lemma_pow256_values();
    let x = n as int;
    if x < 128 {
    } else if x < 256 {
        lemma_marked(0xccu8, x, 1);
        lemma_be_bytes_value(x, 1);
        lemma_small_mod(x, 256);
    } else if x < 65536 {
        lemma_marked(0xcdu8, x, 2);
        lemma_be_bytes_value(x, 2);
        lemma_small_mod(x, 65536);
    } else if x < 0x1_0000_0000 {
        lemma_marked(0xceu8, x, 4);
        lemma_be_bytes_value(x, 4);
        lemma_small_mod(x, 0x1_0000_0000);
    } else {
        lemma_marked(0xcfu8, x, 8);
        lemma_be_bytes_value(x, 8);
        lemma_small_mod(x, 0x1_0000_0000_0000_0000);
    }
}

/// The msgpack encoding of a signed integer reads back as that integer.
pub proof fn lemma_int_encoding_decodes(n: i64)
    ensures
        decode_int(encoding(Value::Int(n))) == Some(n as int),
{
    lemma_pow256_values();
    let x = n as int;
    if x >= 0 {
        lemma_uint_encoding_decodes(n as u64);
    } else if x >= -32 {
        lemma_be_bytes_value(x, 1);
        lemma_small_mod(x, 256);
        let b = be_bytes(x, 1);
        assert(be_value(b) == be_value(b.drop_last()) * 256 + b.last() as nat);
        assert(b.drop_last().len() == 0);
        assert(b[0] as int == x + 256);
    } else if x >= -128 {
        lemma_marked(0xd0u8, x, 1);
        lemma_be_bytes_value(x, 1);
        lemma_small_mod(x, 256);
    } else if x >= -32768 {
        lemma_marked(0xd1u8, x, 2);
        lemma_be_bytes_value(x, 2);
        lemma_small_mod(x, 65536);
    } else if x >= -0x8000_0000 {
        lemma_marked(0xd2u8, x, 4);
        lemma_be_bytes_value(x, 4);
        lemma_small_mod(x, 0x1_0000_0000);
    } else {
        lemma_marked(0xd3u8, x, 8);
        lemma_be_bytes_value(x, 8);
        lemma_small_mod(x, 0x1_0000_0000_0000_0000);
    }
}

/// A non-negative signed integer is written exactly as the unsigned integer of
/// the same value.
pub proof fn lemma_non_negative_int_encodes_as_uint(n: i64)
    requires
        n >= 0,
    ensures
        encoding(Value::Int(n)) == encoding(Value::UInt(n as u64)),
{
}

/// How many bytes msgpack needs at least for the integer `n`: one for
/// `-32 <= n < 128`, then two, three, five or nine as the one-, two-, four- or
/// eight-byte forms reach.
pub open spec fn shortest_int_len(n: int) -> nat {
    if -32 <= n < 128 {
        1
    } else if -128 <= n < 256 {
        2
    } else if -32768 <= n < 65536 {
        3
    } else if -0x8000_0000 <= n < 0x1_0000_0000 {
        5
    } else {
        9
    }
}

proof fn lemma_uint_encoding_len(n: u64)
    ensures
        encoding(Value::UInt(n)).len() == shortest_int_len(n as int),
{
    lemma_be_bytes_value(n as int, 1);
    lemma_be_bytes_value(n as int, 2);
    lemma_be_bytes_value(n as int, 4);
    lemma_be_bytes_value(n as int, 8);
}

proof fn lemma_int_encoding_len(n: i64)
    ensures
        encoding(Value::Int(n)).len() == shortest_int_len(n as int),
{
    if n >= 0 {
        lemma_uint_encoding_len(n as u64);
    } else {
        lemma_be_bytes_value(n as int, 1);
        lemma_be_bytes_value(n as int, 2);
        lemma_be_bytes_value(n as int, 4);
        lemma_be_bytes_value(n as int, 8);
    }
}

/// Any msgpack integer bytes `b` that read as `n` are at least as long as the
/// shortest form of `n`.
proof fn lemma_decoded_len(b: Seq<u8>, n: int)
    requires
        decode_int(b) == Some(n),
    ensures
        shortest_int_len(n) <= b.len(),
{
    lemma_pow256_values();
    let rest = b.drop_first();
    lemma_be_value_bound(rest);
    let u = be_value(rest);
    assert(rest.len() == b.len() - 1);
}

/// The msgpack encoding of an unsigned integer is its shortest form: no bytes
/// that read back as the same integer are shorter.
pub proof fn lemma_uint_encoding_is_shortest(n: u64, b: Seq<u8>)
    requires
        decode_int(b) == Some(n as int),
    ensures
        encoding(Value::UInt(n)).len() <= b.len(),
{
    lemma_uint_encoding_len(n);
    lemma_decoded_len(b, n as int);
}

/// The msgpack encoding of a signed integer is its shortest form: no bytes that
/// read back as the same integer are shorter.
pub proof fn lemma_int_encoding_is_shortest(n: i64, b: Seq<u8>)
    requires
        decode_int(b) == Some(n as int),
    ensures
        encoding(Value::Int(n)).len() <= b.len(),
{
    lemma_int_encoding_len(n);
    lemma_decoded_len(b, n as int);
}

} // verus!
