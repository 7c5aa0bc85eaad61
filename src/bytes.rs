//! Big-endian marshalling of fixed-width integers.
use vstd::prelude::*;

verus! {

/// 256 to the power `n`: how many values `n` bytes can hold.
pub open spec fn byte_range(n: nat) -> nat
    decreases n,
{
    if n == 0 {
        1
    } else {
        256 * byte_range((n - 1) as nat)
    }
}

/// The value of `s` read as an unsigned big-endian number.
pub open spec fn be_value(s: Seq<u8>) -> nat
    decreases s.len(),
{
    if s.len() == 0 {
        0
    } else {
        (be_value(s.drop_last()) * 256 + s.last()) as nat
    }
}

/// The `n` low-order bytes of `v`, most significant first.
pub open spec fn be_bytes(v: nat, n: nat) -> Seq<u8>
    decreases n,
{
    if n == 0 {
        Seq::empty()
    } else {
        be_bytes(v / 256, (n - 1) as nat).push((v % 256) as u8)
    }
}

pub proof fn lemma_be_bytes_len(v: nat, n: nat)
    ensures
        be_bytes(v, n).len() == n,
    decreases n,
{
    if n > 0 {
        lemma_be_bytes_len(v / 256, (n - 1) as nat);
    }
}

/// A big-endian number of `s.len()` bytes is below `byte_range(s.len())`.
pub proof fn lemma_be_value_bound(s: Seq<u8>)
    ensures
        be_value(s) < byte_range(s.len()),
    decreases s.len(),
{
    if s.len() > 0 {
        lemma_be_value_bound(s.drop_last());
    }
}

/// Reading back the `n` bytes of a value that fits in them gives the value.
pub proof fn lemma_be_round_trip(v: nat, n: nat)
    requires
        v < byte_range(n),
    ensures
        be_value(be_bytes(v, n)) == v,
    decreases n,
{
    if n > 0 {
        let hi = v / 256;
        let rest = (n - 1) as nat;
        assert(hi < byte_range(rest)) by (nonlinear_arith)
            requires
                v < 256 * byte_range(rest),
                hi == v / 256,
        ;
        lemma_be_round_trip(hi, rest);
        let s = be_bytes(hi, rest).push((v % 256) as u8);
        assert(s.drop_last() =~= be_bytes(hi, rest));
    }
}

/// The `len` low-order bytes of `value`, most significant first.
pub fn encode_be(value: u64, len: usize) -> (r: Vec<u8>)
    ensures
        r@ == be_bytes(value as nat, len as nat),
    decreases len,
{
    if len == 0 {
        Vec::new()
    } else {
        let mut r = encode_be(value / 256, len - 1);
        r.push((value % 256) as u8);
        r
    }
}

/// The big-endian number held by at most eight bytes.
pub fn decode_be(bytes: &[u8]) -> (r: u64)
    requires
        bytes@.len() <= 8,
    ensures
        r == be_value(bytes@),
{
    let mut acc: u64 = 0;
    let mut i: usize = 0;
    while i < bytes.len()
        invariant
            i <= bytes@.len() <= 8,
            acc == be_value(bytes@.take(i as int)),
        decreases bytes@.len() - i,
    {
        proof {
            lemma_be_value_bound(bytes@.take(i as int));
            assert(bytes@.take(i as int).len() == i);
            assert(byte_range(8) == 0x1_0000_0000_0000_0000) by {
                reveal_with_fuel(byte_range, 9);
            }
            lemma_byte_range_monotone(i as nat, 7);
            assert(bytes@.take(i + 1).drop_last() =~= bytes@.take(i as int));
        }
        acc = acc * 256 + bytes[i] as u64;
        i = i + 1;
    }
    assert(bytes@.take(i as int) =~= bytes@);
    acc
}

proof fn lemma_byte_range_monotone(a: nat, b: nat)
    requires
        a <= b,
    ensures
        byte_range(a) <= byte_range(b),
    decreases b,
{
    if a < b {
        lemma_byte_range_monotone(a, (b - 1) as nat);
    }
}

} // verus!
