//! Fixed-width positional number representations.
//!
//! Both identifier codecs are instances of one scheme: a non-negative
//! integer written as exactly `w` digits in radix `b`, most significant
//! digit first. The binary identifier layout uses radix 256 (big-endian
//! bytes), the printable identifier layout uses radix 62.

use vstd::prelude::*;

verus! {

use vstd::arithmetic::div_mod::{
    lemma_breakdown, lemma_fundamental_div_mod, lemma_mod_division_less_than_divisor,
    lemma_small_mod,
};
use vstd::arithmetic::mul::{lemma_mul_inequality, lemma_mul_is_distributive_add_other_way};
use vstd::arithmetic::power::{lemma_pow_positive, pow};

/// `b^(e+1) == b * b^e`, the head step of the opaque `pow`.
proof fn lemma_pow_unfold(b: int, e: nat)
    ensures
        pow(b, (e + 1) as nat) == b * pow(b, e),
{
    reveal(pow);
}

/// `b^0 == 1` for the opaque `pow`.
proof fn lemma_pow_zero(b: int)
    ensures
        pow(b, 0) == 1,
{
    reveal(pow);
}

/// The `w` radix-`b` digits of `v`, most significant first.
/// High bits of `v` beyond `b^w` are discarded.
pub open spec fn radix_digits(v: nat, w: nat, b: nat) -> Seq<nat>
    recommends
        b >= 2,
    decreases w,
{
    if w == 0 {
        Seq::empty()
    } else {
        radix_digits(v / b, (w - 1) as nat, b).push(v % b)
    }
}

/// The integer denoted by a digit sequence in radix `b` (Horner form,
/// most significant digit first).
pub open spec fn radix_value(s: Seq<nat>, b: nat) -> nat
    recommends
        b >= 2,
    decreases s.len(),
{
    if s.len() == 0 {
        0
    } else {
        radix_value(s.drop_last(), b) * b + s.last()
    }
}

/// All digits of `s` are in range for radix `b`.
pub open spec fn radix_digits_in_range(s: Seq<nat>, b: nat) -> bool {
    forall|i: int| 0 <= i < s.len() ==> s[i] < b
}

pub proof fn lemma_radix_digits_len(v: nat, w: nat, b: nat)
    requires
        b >= 2,
    ensures
        radix_digits(v, w, b).len() == w,
    decreases w,
{
    if w > 0 {
        lemma_radix_digits_len(v / b, (w - 1) as nat, b);
    }
}

pub proof fn lemma_radix_digits_in_range(v: nat, w: nat, b: nat)
    requires
        b >= 2,
    ensures
        radix_digits_in_range(radix_digits(v, w, b), b),
    decreases w,
{
    if w > 0 {
        lemma_radix_digits_in_range(v / b, (w - 1) as nat, b);
        lemma_mod_division_less_than_divisor(v as int, b as int);
        lemma_radix_digits_len(v / b, (w - 1) as nat, b);
        let s = radix_digits(v, w, b);
        let t = radix_digits(v / b, (w - 1) as nat, b);
        assert forall|i: int| 0 <= i < s.len() implies s[i] < b by {
            if i < w - 1 {
                assert(s[i] == t[i]);
            }
        }
    }
}

/// Reading back the fixed-width representation recovers `v` modulo `b^w`.
pub proof fn lemma_radix_value_of_digits(v: nat, w: nat, b: nat)
    requires
        b >= 2,
    ensures
        radix_value(radix_digits(v, w, b), b) == (v as int) % pow(b as int, w),
    decreases w,
{
    lemma_pow_positive(b as int, w);
    if w == 0 {
        lemma_pow_zero(b as int);
        assert(v % 1 == 0) by {
            lemma_fundamental_div_mod(v as int, 1);
            lemma_mod_division_less_than_divisor(v as int, 1);
        }
    } else {
        let w1 = (w - 1) as nat;
        let t = radix_digits(v / b, w1, b);
        lemma_radix_digits_len(v / b, w1, b);
        assert(radix_digits(v, w, b).drop_last() =~= t);
        lemma_radix_value_of_digits(v / b, w1, b);
        lemma_pow_positive(b as int, w1);
        lemma_breakdown(v as int, b as int, pow(b as int, w1));
        lemma_pow_unfold(b as int, w1);
    }
}

/// A value below `b^w` round-trips exactly through its `w`-digit form.
pub proof fn lemma_radix_value_small(v: nat, w: nat, b: nat)
    requires
        b >= 2,
        v < pow(b as int, w),
    ensures
        radix_value(radix_digits(v, w, b), b) == v,
{
    lemma_radix_value_of_digits(v, w, b);
    lemma_small_mod(v, pow(b as int, w) as nat);
}

/// A digit sequence in range denotes a value below `b^len`.
pub proof fn lemma_radix_value_bound(s: Seq<nat>, b: nat)
    requires
        b >= 2,
        radix_digits_in_range(s, b),
    ensures
        radix_value(s, b) < pow(b as int, s.len()),
    decreases s.len(),
{
    lemma_pow_positive(b as int, s.len());
    if s.len() > 0 {
        let d = s.drop_last();
        let last = s.last();
        assert forall|i: int| 0 <= i < d.len() implies d[i] < b by {
            assert(s[i] < b);
        }
        lemma_radix_value_bound(d, b);
        let vd = radix_value(d, b);
        let p1 = pow(b as int, d.len()) as nat;
        assert(radix_value(s, b) == vd * b + last);
        assert(last < b) by {
            assert(s[s.len() - 1] < b);
        }
        // vd <= p1 - 1, so vd * b + last < p1 * b == b^len
        lemma_mul_inequality(vd as int, p1 - 1, b as int);
        assert((p1 - 1) * b == p1 * b - b) by {
            lemma_mul_is_distributive_add_other_way(b as int, p1 as int - 1, 1);
        }
        assert(vd * b + last < p1 * b);
        lemma_pow_unfold(b as int, d.len());
        assert(pow(b as int, s.len()) == b * p1);
        assert(b * p1 == p1 * b) by (nonlinear_arith);
    }
}

/// Splitting a digit string splits its value: the prefix is scaled by
/// the weight of the remaining positions.
pub proof fn lemma_radix_value_split(s: Seq<nat>, b: nat, j: int)
    requires
        b >= 2,
        0 <= j <= s.len(),
    ensures
        radix_value(s, b) == radix_value(s.take(j), b) * pow(
            b as int,
            (s.len() - j) as nat,
        ) + radix_value(s.skip(j), b),
    decreases s.len(),
{
    if j == s.len() {
        assert(s.take(j) =~= s);
        assert(s.skip(j) =~= Seq::<nat>::empty());
        lemma_pow_zero(b as int);
    } else {
        let d = s.drop_last();
        let last = s.last();
        lemma_radix_value_split(d, b, j);
        assert(d.take(j) =~= s.take(j));
        assert(s.skip(j).drop_last() =~= d.skip(j));
        assert(s.skip(j).last() == last);
        assert(s.skip(j).len() == s.len() - j);
        let p1 = pow(b as int, (d.len() - j) as nat);
        lemma_pow_unfold(b as int, (d.len() - j) as nat);
        assert(pow(b as int, (s.len() - j) as nat) == b * p1);
        let vt = radix_value(s.take(j), b);
        let vd = radix_value(d.skip(j), b);
        assert(radix_value(s, b) == (vt * p1 + vd) * b + last);
        assert((vt * p1 + vd) * b == vt * p1 * b + vd * b) by {
            lemma_mul_is_distributive_add_other_way(b as int, (vt * p1) as int, vd as int);
        }
        assert(vt * p1 * b == vt * (b * p1)) by (nonlinear_arith);
    }
}

/// Extending a digit string to the right never decreases its value.
pub proof fn lemma_radix_value_prefix_le(s: Seq<nat>, b: nat, j: int)
    requires
        b >= 2,
        0 <= j <= s.len(),
    ensures
        radix_value(s.take(j), b) <= radix_value(s, b),
{
    lemma_radix_value_split(s, b, j);
    let vt = radix_value(s.take(j), b);
    let p = pow(b as int, (s.len() - j) as nat);
    lemma_pow_positive(b as int, (s.len() - j) as nat);
    lemma_mul_inequality(1, p, vt as int);
    assert(vt * p == p * vt) by (nonlinear_arith);
}

} // verus!
