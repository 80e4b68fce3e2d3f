//! Fixed-width big-endian byte form of unsigned integers: the binary
//! layout of identifiers, radix 256 with the most significant byte first.

use vstd::prelude::*;

verus! {

use crate::radix::{
    lemma_radix_digits_in_range, lemma_radix_digits_len, lemma_radix_value_bound,
    lemma_radix_value_small, radix_digits, radix_digits_in_range, radix_value,
};
use vstd::arithmetic::power::{lemma_pow_increases, pow};

/// The `w` big-endian bytes of `v`.
pub open spec fn be_encoding(v: nat, w: nat) -> Seq<u8> {
    radix_digits(v, w, 256).map_values(|d: nat| d as u8)
}

/// The value denoted by a big-endian byte string.
pub open spec fn be_value(s: Seq<u8>) -> nat {
    radix_value(s.map_values(|b: u8| b as nat), 256)
}

/// A fixed-width byte encoding of `v < 256^w` has width `w` and denotes `v`.
pub proof fn lemma_be_encoding_props(v: nat, w: nat)
    requires
        v < pow(256, w),
    ensures
        be_encoding(v, w).len() == w,
        be_value(be_encoding(v, w)) == v,
{
    let digs = radix_digits(v, w, 256);
    let enc = be_encoding(v, w);
    lemma_radix_digits_len(v, w, 256);
    lemma_radix_digits_in_range(v, w, 256);
    assert(enc.map_values(|b: u8| b as nat) =~= digs);
    lemma_radix_value_small(v, w, 256);
}

/// A byte string denotes a value below `256^len`.
pub proof fn lemma_be_value_bound(s: Seq<u8>)
    ensures
        be_value(s) < pow(256, s.len()),
{
    let m = s.map_values(|b: u8| b as nat);
    assert(radix_digits_in_range(m, 256));
    lemma_radix_value_bound(m, 256);
}

/// `256^8` is one past the largest `u64`.
pub proof fn lemma_pow256_8()
    ensures
        pow(256, 8) == 0x10000000000000000,
{
    reveal_with_fuel(pow, 9);
}

/// `256^16` is one past the largest `u128`.
pub proof fn lemma_pow256_16()
    ensures
        pow(256, 16) == 0x100000000000000000000000000000000,
{
    reveal_with_fuel(pow, 17);
}

/// Appends the fixed-width big-endian form of `v` to `out`.
pub fn be_push_fixed(v: u128, w: usize, out: &mut Vec<u8>)
    ensures
        final(out)@ == old(out)@ + be_encoding(v as nat, w as nat),
    decreases w,
{
    if w == 0 {
        assert(final(out)@ =~= old(out)@ + be_encoding(v as nat, 0));
    } else {
        be_push_fixed(v / 256, w - 1, out);
        let d: u8 = (v % 256) as u8;
        out.push(d);
        proof {
            assert(be_encoding(v as nat, w as nat) =~= be_encoding(
                (v / 256) as nat,
                (w - 1) as nat,
            ).push((v % 256) as u8));
            assert(final(out)@ =~= old(out)@ + be_encoding(v as nat, w as nat));
        }
    }
}

/// Reads the `w` bytes of `b` starting at `start` as one big-endian number.
pub fn be_read_fixed(b: &[u8], start: usize, w: usize) -> (r: u128)
    requires
        start + w <= usize::MAX,
        start + w <= b@.len(),
        w <= 16,
    ensures
        r as nat == be_value(b@.subrange(start as int, (start + w) as int)),
{
    let ghost chunk = b@.subrange(start as int, (start + w) as int);
    let mut acc: u128 = 0;
    let mut i: usize = 0;
    while i < w
        invariant
            start + w <= usize::MAX,
            start + w <= b@.len(),
            0 <= i <= w <= 16,
            chunk == b@.subrange(start as int, (start + w) as int),
            acc as nat == be_value(chunk.take(i as int)),
        decreases w - i,
    {
        let d = b[start + i];
        assert(d == chunk[i as int]);
        let ghost m = chunk.map_values(|x: u8| x as nat);
        proof {
            assert(m.take(i as int) =~= chunk.take(i as int).map_values(|x: u8| x as nat));
            assert(m.take(i + 1) =~= chunk.take(i + 1).map_values(|x: u8| x as nat));
            assert(m.take(i + 1).drop_last() =~= m.take(i as int));
            assert(m.take(i + 1).last() == d as nat);
            assert(be_value(chunk.take(i + 1)) == be_value(chunk.take(i as int)) * 256 + d as nat);
            lemma_be_value_bound(chunk.take(i as int));
            lemma_pow_increases(256, i as nat, 15);
            lemma_pow256_16();
            assert(pow(256, 16) == 256 * pow(256, 15)) by {
                reveal_with_fuel(pow, 2);
                lemma_pow256_16();
                assert(pow(256, 16) == 256 * pow(256, (16 - 1) as nat));
            }
        }
        acc = acc * 256 + (d as u128);
        i = i + 1;
    }
    assert(chunk.take(w as int) =~= chunk);
    acc
}

} // verus!
