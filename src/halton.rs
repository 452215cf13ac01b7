//! The Halton low-discrepancy sequence, computed exactly as fractions.

use vstd::prelude::*;

verus! {

/// Denominator of the radical inverse of `index` in `base`: `base` raised to
/// the number of digits of `index`.
pub open spec fn halton_den(index: nat, base: nat) -> nat
    decreases index
    via halton_den_decreases
{
    if index == 0 || base < 2 {
        1
    } else {
        base * halton_den(index / base, base)
    }
}

/// Numerator of the radical inverse of `index` in `base`: the digits of
/// `index`, least significant first, read as a fraction after the point.
/// The value is `halton_num / halton_den`, and it equals
/// `(index % base) / base + halton(index / base) / base`.
pub open spec fn halton_num(index: nat, base: nat) -> nat
    decreases index
    via halton_num_decreases
{
    if index == 0 || base < 2 {
        0
    } else {
        (index % base) * halton_den(index / base, base) + halton_num(index / base, base)
    }
}

#[via_fn]
proof fn halton_den_decreases(index: nat, base: nat) {
    if index != 0 && base >= 2 {
        lemma_quotient_smaller(index, base);
    }
}

#[via_fn]
proof fn halton_num_decreases(index: nat, base: nat) {
    if index != 0 && base >= 2 {
        lemma_quotient_smaller(index, base);
    }
}

proof fn lemma_quotient_smaller(index: nat, base: nat)
    requires
        index > 0,
        base >= 2,
    ensures
        index / base < index,
{
    assert(index / base < index) by (nonlinear_arith)
        requires
            index > 0,
            base >= 2,
    ;
}

/// The Halton value lies in `[0, 1)`, and its denominator stays below
/// `index * base`.
pub proof fn lemma_halton_bounds(index: nat, base: nat)
    requires
        base >= 2,
    ensures
        halton_den(index, base) >= 1,
        halton_num(index, base) < halton_den(index, base),
        index >= 1 ==> halton_den(index, base) <= index * base,
        index >= 1 ==> halton_den(index, base) >= base,
    decreases index,
{
    if index > 0 {
        let q = index / base;
        let d = index % base;
        lemma_quotient_smaller(index, base);
        lemma_halton_bounds(q, base);
        let den_q = halton_den(q, base);
        let num_q = halton_num(q, base);
        assert(d < base);
        assert(d * den_q + num_q < base * den_q) by (nonlinear_arith)
            requires
                d < base,
                num_q < den_q,
        ;
        assert(base * den_q >= base) by (nonlinear_arith)
            requires
                den_q >= 1,
        ;
        assert(q * base <= index) by (nonlinear_arith)
            requires
                q == index / base,
                base >= 2,
        ;
        if q >= 1 {
            assert(base * den_q <= index * base) by (nonlinear_arith)
                requires
                    den_q <= q * base,
                    q * base <= index,
                    base >= 2,
            ;
        } else {
            assert(den_q == 1);
            assert(base * den_q <= index * base) by (nonlinear_arith)
                requires
                    den_q == 1,
                    index >= 1,
            ;
        }
    }
}

/// The Halton sequence value for `index` in `base`, as
/// `(numerator, denominator)`: starting from `f = 1`, repeatedly divide `f`
/// by the base, add `f * (index % base)`, and divide the index by the base
/// until it reaches zero.
pub fn halton_sequence(index: u32, base: u32) -> (r: (u64, u64))
    requires
        base >= 2,
    ensures
        r.0 == halton_num(index as nat, base as nat),
        r.1 == halton_den(index as nat, base as nat),
{
    let ghost b = base as nat;
    let ghost i = index as nat;
    let mut rest: u32 = index;
    let mut num: u64 = 0;
    let mut den: u64 = 1;
    proof {
        lemma_halton_bounds(i, b);
        assert(i * b <= u32::MAX * u32::MAX) by (nonlinear_arith)
            requires
                i <= u32::MAX,
                b <= u32::MAX,
        ;
    }
    while rest > 0
        invariant
            b == base,
            i == index,
            b >= 2,
            num * halton_den(rest as nat, b) + halton_num(rest as nat, b) == halton_num(i, b),
            den * halton_den(rest as nat, b) == halton_den(i, b),
            i >= 1 ==> halton_den(i, b) <= i * b,
            i * b <= u32::MAX * u32::MAX,
            halton_num(i, b) < halton_den(i, b),
        decreases rest,
    {
        let ghost r = rest as nat;
        let ghost q = r / b;
        let d: u32 = rest % base;
        proof {
            lemma_quotient_smaller(r, b);
            lemma_halton_bounds(r, b);
            lemma_halton_bounds(q, b);
            let den_r = halton_den(r, b);
            let den_q = halton_den(q, b);
            let num_q = halton_num(q, b);
            assert(den_r == b * den_q);
            assert(i >= 1) by {
                if i == 0 {
                    assert(halton_den(i, b) == 1);
                    assert(den * den_r >= b) by (nonlinear_arith)
                        requires
                            den_r >= b,
                            den >= 1 || den == 0,
                            den * den_r == 1,
                    ;
                }
            }
            assert(den * b * den_q == halton_den(i, b)) by (nonlinear_arith)
                requires
                    den * den_r == halton_den(i, b),
                    den_r == b * den_q,
            ;
            assert(den * b <= den * b * den_q) by (nonlinear_arith)
                requires
                    den_q >= 1,
            ;
            assert(num * b + d < den * b) by (nonlinear_arith)
                requires
                    num * den_r + halton_num(r, b) == halton_num(i, b),
                    halton_num(i, b) < halton_den(i, b),
                    den * den_r == halton_den(i, b),
                    den_r == b * den_q,
                    d < b,
                    den_q >= 1,
            ;
            assert((num * b + d) * den_q + num_q == halton_num(i, b)) by (nonlinear_arith)
                requires
                    num * den_r + halton_num(r, b) == halton_num(i, b),
                    halton_num(r, b) == d * den_q + num_q,
                    den_r == b * den_q,
            ;
        }
        num = num * base as u64 + d as u64;
        den = den * base as u64;
        rest = rest / base;
    }
    proof {
        let den_rest = halton_den(rest as nat, b);
        assert(den_rest == 1 && halton_num(rest as nat, b) == 0);
        assert(num * den_rest == num && den * den_rest == den) by (nonlinear_arith)
            requires
                den_rest == 1,
        ;
    }
    (num, den)
}

} // verus!
