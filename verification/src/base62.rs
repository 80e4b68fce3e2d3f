//! Fixed-width base62 text form of unsigned integers.
//!
//! Digits are `0-9`, then `A-Z`, then `a-z`, most significant first, and a
//! value is always written with a fixed number of digits so that every
//! encoded identifier of one resource type has the same length and is
//! ordered like its numeric value.

use vstd::prelude::*;

verus! {

use crate::radix::{
    lemma_radix_digits_in_range, lemma_radix_digits_len, lemma_radix_value_bound,
    lemma_radix_value_prefix_le, lemma_radix_value_small, radix_digits, radix_digits_in_range,
    radix_value,
};
use vstd::arithmetic::power::pow;

/// The character written for digit value `d`.
pub open spec fn b62_char_of(d: nat) -> char
    recommends
        d < 62,
{
    if d < 10 {
        ((48 + d) as u8) as char
    } else if d < 36 {
        ((55 + d) as u8) as char
    } else {
        ((61 + d) as u8) as char
    }
}

/// Whether `c` is a base62 digit.
pub open spec fn is_b62_char(c: char) -> bool {
    let u = c as u32;
    (48 <= u && u <= 57) || (65 <= u && u <= 90) || (97 <= u && u <= 122)
}

/// The digit value of a base62 character.
pub open spec fn b62_char_val(c: char) -> nat
    recommends
        is_b62_char(c),
{
    let u = c as u32;
    if 48 <= u && u <= 57 {
        (u - 48) as nat
    } else if 65 <= u && u <= 90 {
        (u - 55) as nat
    } else {
        (u - 61) as nat
    }
}

/// The `w`-character base62 form of `v`.
pub open spec fn b62_encoding(v: nat, w: nat) -> Seq<char> {
    radix_digits(v, w, 62).map_values(|d: nat| b62_char_of(d))
}

/// Every character of `s` is a base62 digit.
pub open spec fn b62_valid(s: Seq<char>) -> bool {
    forall|i: int| 0 <= i < s.len() ==> is_b62_char(#[trigger] s[i])
}

/// The value denoted by a base62 character string.
pub open spec fn b62_value(s: Seq<char>) -> nat {
    radix_value(s.map_values(|c: char| b62_char_val(c)), 62)
}

/// Digit characters decode back to the digit they were written for.
proof fn lemma_b62_char_roundtrip(d: nat)
    requires
        d < 62,
    ensures
        is_b62_char(b62_char_of(d)),
        b62_char_val(b62_char_of(d)) == d,
{
}

/// A fixed-width encoding of `v < 62^w` has width `w`, holds only base62
/// digits, and denotes `v`.
pub proof fn lemma_b62_encoding_props(v: nat, w: nat)
    requires
        v < pow(62, w),
    ensures
        b62_encoding(v, w).len() == w,
        b62_valid(b62_encoding(v, w)),
        b62_value(b62_encoding(v, w)) == v,
{
    let digs = radix_digits(v, w, 62);
    let enc = b62_encoding(v, w);
    lemma_radix_digits_len(v, w, 62);
    lemma_radix_digits_in_range(v, w, 62);
    assert forall|i: int| 0 <= i < enc.len() implies is_b62_char(#[trigger] enc[i]) by {
        lemma_b62_char_roundtrip(digs[i]);
    }
    assert(enc.map_values(|c: char| b62_char_val(c)) =~= digs) by {
        assert forall|i: int| 0 <= i < digs.len() implies enc.map_values(|c: char| b62_char_val(c))[i]
            == digs[i] by {
            lemma_b62_char_roundtrip(digs[i]);
        }
    }
    lemma_radix_value_small(v, w, 62);
}

/// A string of base62 digits denotes a value below `62^len`.
pub proof fn lemma_b62_value_bound(s: Seq<char>)
    requires
        b62_valid(s),
    ensures
        b62_value(s) < pow(62, s.len()),
{
    let m = s.map_values(|c: char| b62_char_val(c));
    assert(radix_digits_in_range(m, 62));
    lemma_radix_value_bound(m, 62);
}

/// `62^22` exceeds every `u128`, so 22 digits always suffice.
pub proof fn lemma_pow62_22()
    ensures
        pow(62, 22) == 2707803647802660400290261537185326956544,
{
    reveal_with_fuel(pow, 23);
}

/// `62^11` exceeds every `u64`, so 11 digits always suffice.
pub proof fn lemma_pow62_11()
    ensures
        pow(62, 11) == 52036560683837093888,
{
    reveal_with_fuel(pow, 12);
}

/// Relies on std's String::push: appends exactly the one character.
#[verifier::external_body]
pub(crate) fn string_push(s: &mut String, c: char)
    ensures
        final(s)@ == old(s)@.push(c),
{
    s.push(c);
}

/// The character for one digit value.
fn b62_digit_char(d: u128) -> (c: char)
    requires
        d < 62,
    ensures
        c == b62_char_of(d as nat),
        is_b62_char(c),
{
    let b: u8 = if d < 10 {
        48 + (d as u8)
    } else if d < 36 {
        55 + (d as u8)
    } else {
        61 + (d as u8)
    };
    proof {
        lemma_b62_char_roundtrip(d as nat);
    }
    b as char
}

/// Appends the fixed-width base62 form of `v` to `out`.
pub fn b62_push_fixed(v: u128, w: usize, out: &mut String)
    ensures
        final(out)@ == old(out)@ + b62_encoding(v as nat, w as nat),
    decreases w,
{
    if w == 0 {
        assert(final(out)@ =~= old(out)@ + b62_encoding(v as nat, 0));
    } else {
        b62_push_fixed(v / 62, w - 1, out);
        let c = b62_digit_char(v % 62);
        string_push(out, c);
        proof {
            assert(b62_encoding(v as nat, w as nat) =~= b62_encoding(
                (v / 62) as nat,
                (w - 1) as nat,
            ).push(b62_char_of((v % 62) as nat)));
            assert(final(out)@ =~= old(out)@ + b62_encoding(v as nat, w as nat));
        }
    }
}

/// The digit value of one character, or `None` for a non-digit.
fn b62_char_value(c: char) -> (r: Option<u8>)
    ensures
        match r {
            Some(d) => is_b62_char(c) && d < 62 && d as nat == b62_char_val(c),
            None => !is_b62_char(c),
        },
{
    let u = c as u32;
    if 48 <= u && u <= 57 {
        Some((u - 48) as u8)
    } else if 65 <= u && u <= 90 {
        Some((u - 55) as u8)
    } else if 97 <= u && u <= 122 {
        Some((u - 61) as u8)
    } else {
        None
    }
}

/// Reads the `w` characters of `s` starting at `start` as a base62 number.
/// Fails exactly when a character is not a base62 digit or the denoted
/// value does not fit in a `u128`.
pub fn b62_decode_fixed(s: &str, start: usize, w: usize) -> (r: Option<u128>)
    requires
        start + w <= usize::MAX,
        start + w <= s@.len(),
    ensures
        ({
            let chunk = s@.subrange(start as int, (start + w) as int);
            match r {
                Some(x) => b62_valid(chunk) && x as nat == b62_value(chunk),
                None => !(b62_valid(chunk) && b62_value(chunk) <= u128::MAX as nat),
            }
        }),
{
    let ghost chunk = s@.subrange(start as int, (start + w) as int);
    let mut acc: u128 = 0;
    let mut i: usize = 0;
    while i < w
        invariant
            start + w <= usize::MAX,
            start + w <= s@.len(),
            0 <= i <= w,
            chunk == s@.subrange(start as int, (start + w) as int),
            b62_valid(chunk.take(i as int)),
            acc as nat == b62_value(chunk.take(i as int)),
        decreases w - i,
    {
        let c = s.get_char(start + i);
        assert(c == chunk[i as int]);
        let ghost m = chunk.map_values(|ch: char| b62_char_val(ch));
        let ghost prefix_next = chunk.take(i + 1);
        proof {
            assert(m.take(i as int) =~= chunk.take(i as int).map_values(
                |ch: char| b62_char_val(ch),
            ));
            assert(m.take(i + 1) =~= prefix_next.map_values(|ch: char| b62_char_val(ch)));
            assert(m.take(i + 1).drop_last() =~= m.take(i as int));
            assert(m.take(i + 1).last() == b62_char_val(c));
            assert(b62_value(prefix_next) == b62_value(chunk.take(i as int)) * 62 + b62_char_val(
                c,
            ));
        }
        match b62_char_value(c) {
            None => {
                return None;
            },
            Some(d) => {
                let shifted = match acc.checked_mul(62) {
                    Some(x) => x,
                    None => {
                        proof {
                            lemma_radix_value_prefix_le(m, 62, i + 1);
                            assert(b62_value(chunk) == radix_value(m, 62));
                            assert(b62_value(prefix_next) > u128::MAX as nat);
                        }
                        return None;
                    },
                };
                let next = match shifted.checked_add(d as u128) {
                    Some(x) => x,
                    None => {
                        proof {
                            lemma_radix_value_prefix_le(m, 62, i + 1);
                            assert(b62_value(prefix_next) > u128::MAX as nat);
                        }
                        return None;
                    },
                };
                acc = next;
                assert(b62_valid(prefix_next));
            },
        }
        i = i + 1;
    }
    assert(chunk.take(w as int) =~= chunk);
    Some(acc)
}

} // verus!
