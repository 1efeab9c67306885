use vstd::prelude::*;
use vstd::arithmetic::div_mod::lemma_div_is_ordered;
use vstd::arithmetic::div_mod::lemma_div_is_ordered_by_denominator;
use vstd::arithmetic::div_mod::lemma_fundamental_div_mod;
use vstd::arithmetic::mul::lemma_mul_upper_bound;

verus! {

/// Fixed-point denominator of the price formulas.
pub const SCALE: u64 = 1_000_000;

/// Denominator of the per-unit rates of the reserve curve.
pub const RATE_SCALE: u64 = 1_000;

/// Denominator of the second-order term of the quadratic rate.
pub const BOOST_SCALE: u64 = 10_000;

/// Share of the quoted proceeds, in thousandths, that a sale on the
/// quadratic curve pays out.
pub const QUADRATIC_SELL_RATE: u64 = 950;

/// The largest value of the integer logarithm on 64-bit inputs.
pub const LN_MAX: u64 = 44;

/// A mathematical integer clamped into the range of `u64`.
pub open spec fn clamp(x: int) -> int {
    if x < 0 {
        0
    } else if x > u64::MAX as int {
        u64::MAX as int
    } else {
        x
    }
}

/// Saturating product.
pub open spec fn mul_sat(a: int, b: int) -> int {
    clamp(a * b)
}

/// Saturating sum.
pub open spec fn add_sat(a: int, b: int) -> int {
    clamp(a + b)
}

/// Saturating difference.
pub open spec fn sub_sat(a: int, b: int) -> int {
    clamp(a - b)
}

/// `a * b / d` with a saturating product: the building block of every quote.
pub open spec fn mul_div(a: int, b: int, d: int) -> int
    recommends
        d != 0,
{
    mul_sat(a, b) / d
}

/// The product of two values, clamped to `u64::MAX` when it does not fit.
pub fn saturating_mul(a: u64, b: u64) -> (r: u64)
    ensures
        r == mul_sat(a as int, b as int),
{
    match a.checked_mul(b) {
        Some(v) => v,
        None => u64::MAX,
    }
}

/// `a * b / d`, the product clamped to `u64::MAX` when it does not fit.
pub fn saturating_mul_div(a: u64, b: u64, d: u64) -> (r: u64)
    requires
        d != 0,
    ensures
        r == mul_div(a as int, b as int, d as int),
{
    saturating_mul(a, b) / d
}

/// A saturating product grows with either factor.
pub proof fn lemma_mul_sat_monotone(a1: int, b1: int, a2: int, b2: int)
    requires
        0 <= a1 <= a2,
        0 <= b1 <= b2,
    ensures
        mul_sat(a1, b1) <= mul_sat(a2, b2),
{
    lemma_mul_upper_bound(a1, a2, b1, b2);
}

/// A saturating product never exceeds the exact one.
pub proof fn lemma_mul_sat_le(a: int, b: int)
    requires
        0 <= a,
        0 <= b,
    ensures
        0 <= mul_sat(a, b) <= a * b,
{
    assert(0 <= a * b) by (nonlinear_arith)
        requires
            0 <= a,
            0 <= b,
    ;
}

/// `mul_div` grows with either factor.
pub proof fn lemma_mul_div_monotone(a1: int, b1: int, a2: int, b2: int, d: int)
    requires
        0 <= a1 <= a2,
        0 <= b1 <= b2,
        0 < d,
    ensures
        0 <= mul_div(a1, b1, d) <= mul_div(a2, b2, d) <= u64::MAX,
{
    lemma_mul_sat_monotone(a1, b1, a2, b2);
    lemma_mul_sat_le(a1, b1);
    lemma_div_is_ordered(mul_sat(a1, b1), mul_sat(a2, b2), d);
    lemma_div_is_ordered(0, mul_sat(a1, b1), d);
    lemma_div_is_ordered(mul_sat(a2, b2), u64::MAX as int, d);
    lemma_div_is_ordered_by_denominator(u64::MAX as int, 1, d);
}

/// A quotient shrinks as the denominator grows.
pub proof fn lemma_div_antitone(x: int, d1: int, d2: int)
    requires
        0 <= x,
        0 < d1 <= d2,
    ensures
        0 <= x / d2 <= x / d1 <= x,
{
    lemma_div_is_ordered_by_denominator(x, d1, d2);
    lemma_div_is_ordered_by_denominator(x, 1, d1);
    lemma_div_is_ordered(0, x, d2);
}

/// A floored quotient times its denominator does not exceed the numerator.
pub proof fn lemma_div_mul_le(x: int, d: int)
    requires
        0 <= x,
        0 < d,
    ensures
        0 <= (x / d) * d <= x,
{
    lemma_fundamental_div_mod(x, d);
    assert(0 <= x % d < d) by (nonlinear_arith)
        requires
            0 < d,
    ;
    assert((x / d) * d == d * (x / d)) by (nonlinear_arith);
    lemma_div_is_ordered(0, x, d);
    assert(0 <= (x / d) * d) by (nonlinear_arith)
        requires
            0 <= x / d,
            0 < d,
    ;
}

/// The least integer that is not below `e` to the power `k`, for every `k`
/// whose power fits in 64 bits; 1 elsewhere.
pub open spec fn exp_ceil(k: nat) -> nat {
    if k == 1 {
        3
    } else if k == 2 {
        8
    } else if k == 3 {
        21
    } else if k == 4 {
        55
    } else if k == 5 {
        149
    } else if k == 6 {
        404
    } else if k == 7 {
        1_097
    } else if k == 8 {
        2_981
    } else if k == 9 {
        8_104
    } else if k == 10 {
        22_027
    } else if k == 11 {
        59_875
    } else if k == 12 {
        162_755
    } else if k == 13 {
        442_414
    } else if k == 14 {
        1_202_605
    } else if k == 15 {
        3_269_018
    } else if k == 16 {
        8_886_111
    } else if k == 17 {
        24_154_953
    } else if k == 18 {
        65_659_970
    } else if k == 19 {
        178_482_301
    } else if k == 20 {
        485_165_196
    } else if k == 21 {
        1_318_815_735
    } else if k == 22 {
        3_584_912_847
    } else if k == 23 {
        9_744_803_447
    } else if k == 24 {
        26_489_122_130
    } else if k == 25 {
        72_004_899_338
    } else if k == 26 {
        195_729_609_429
    } else if k == 27 {
        532_048_240_602
    } else if k == 28 {
        1_446_257_064_292
    } else if k == 29 {
        3_931_334_297_145
    } else if k == 30 {
        10_686_474_581_525
    } else if k == 31 {
        29_048_849_665_248
    } else if k == 32 {
        78_962_960_182_681
    } else if k == 33 {
        214_643_579_785_917
    } else if k == 34 {
        583_461_742_527_455
    } else if k == 35 {
        1_586_013_452_313_431
    } else if k == 36 {
        4_311_231_547_115_196
    } else if k == 37 {
        11_719_142_372_802_612
    } else if k == 38 {
        31_855_931_757_113_757
    } else if k == 39 {
        86_593_400_423_993_747
    } else if k == 40 {
        235_385_266_837_019_986
    } else if k == 41 {
        639_843_493_530_054_950
    } else if k == 42 {
        1_739_274_941_520_501_048
    } else if k == 43 {
        4_727_839_468_229_346_562
    } else if k == 44 {
        12_851_600_114_359_308_276
    } else {
        1
    }
}

/// The largest `j <= k` with `exp_ceil(j) <= n`, or 0 if there is none.
pub open spec fn ln_floor_upto(n: nat, k: nat) -> nat
    decreases k,
{
    if k == 0 {
        0
    } else if exp_ceil(k) <= n {
        k
    } else {
        ln_floor_upto(n, (k - 1) as nat)
    }
}

/// The integer part of the natural logarithm of `n`, for `1 <= n < 2^64`:
/// the `k` with `e^k <= n < e^(k+1)`.
pub open spec fn ln_floor(n: nat) -> nat {
    ln_floor_upto(n, LN_MAX as nat)
}

/// The integer logarithm brackets its argument between two neighbouring
/// powers of `e`: it is the one `k` with `exp_ceil(k) <= n < exp_ceil(k + 1)`.
pub proof fn lemma_ln_floor_brackets(n: nat)
    requires
        1 <= n <= u64::MAX,
    ensures
        ln_floor(n) <= LN_MAX,
        exp_ceil(ln_floor(n)) <= n,
        ln_floor(n) < LN_MAX ==> n < exp_ceil(ln_floor(n) + 1),
        forall|k: nat| k <= LN_MAX && exp_ceil(k) <= n ==> k <= ln_floor(n),
{
    lemma_ln_floor_upto(n, LN_MAX as nat);
    lemma_exp_ceil_increasing();
    assert forall|k: nat| k <= LN_MAX && exp_ceil(k) <= n implies k <= ln_floor(n) by {
        if k > ln_floor(n) {
            assert(n < exp_ceil(k));
        }
    }
}

/// The integer logarithm never falls as its argument grows.
pub proof fn lemma_ln_floor_monotone(a: nat, b: nat)
    requires
        1 <= a <= b <= u64::MAX,
    ensures
        ln_floor(a) <= ln_floor(b),
{
    lemma_ln_floor_brackets(a);
    lemma_ln_floor_brackets(b);
    assert(exp_ceil(ln_floor(a)) <= b);
}

proof fn lemma_ln_floor_upto(n: nat, k: nat)
    requires
        1 <= n,
        k <= LN_MAX,
    ensures
        ln_floor_upto(n, k) <= k,
        exp_ceil(ln_floor_upto(n, k)) <= n,
        forall|j: nat| ln_floor_upto(n, k) < j <= k ==> n < exp_ceil(j),
    decreases k,
{
    if k > 0 && exp_ceil(k) > n {
        lemma_ln_floor_upto(n, (k - 1) as nat);
    }
}

proof fn lemma_exp_ceil_increasing()
    ensures
        forall|j: nat, k: nat| j <= k <= LN_MAX ==> exp_ceil(j) <= exp_ceil(k),
{
}

fn exp_ceil_at(k: u64) -> (r: u64)
    requires
        k <= LN_MAX,
    ensures
        r == exp_ceil(k as nat),
{
    if k == 1 {
        3
    } else if k == 2 {
        8
    } else if k == 3 {
        21
    } else if k == 4 {
        55
    } else if k == 5 {
        149
    } else if k == 6 {
        404
    } else if k == 7 {
        1_097
    } else if k == 8 {
        2_981
    } else if k == 9 {
        8_104
    } else if k == 10 {
        22_027
    } else if k == 11 {
        59_875
    } else if k == 12 {
        162_755
    } else if k == 13 {
        442_414
    } else if k == 14 {
        1_202_605
    } else if k == 15 {
        3_269_018
    } else if k == 16 {
        8_886_111
    } else if k == 17 {
        24_154_953
    } else if k == 18 {
        65_659_970
    } else if k == 19 {
        178_482_301
    } else if k == 20 {
        485_165_196
    } else if k == 21 {
        1_318_815_735
    } else if k == 22 {
        3_584_912_847
    } else if k == 23 {
        9_744_803_447
    } else if k == 24 {
        26_489_122_130
    } else if k == 25 {
        72_004_899_338
    } else if k == 26 {
        195_729_609_429
    } else if k == 27 {
        532_048_240_602
    } else if k == 28 {
        1_446_257_064_292
    } else if k == 29 {
        3_931_334_297_145
    } else if k == 30 {
        10_686_474_581_525
    } else if k == 31 {
        29_048_849_665_248
    } else if k == 32 {
        78_962_960_182_681
    } else if k == 33 {
        214_643_579_785_917
    } else if k == 34 {
        583_461_742_527_455
    } else if k == 35 {
        1_586_013_452_313_431
    } else if k == 36 {
        4_311_231_547_115_196
    } else if k == 37 {
        11_719_142_372_802_612
    } else if k == 38 {
        31_855_931_757_113_757
    } else if k == 39 {
        86_593_400_423_993_747
    } else if k == 40 {
        235_385_266_837_019_986
    } else if k == 41 {
        639_843_493_530_054_950
    } else if k == 42 {
        1_739_274_941_520_501_048
    } else if k == 43 {
        4_727_839_468_229_346_562
    } else if k == 44 {
        12_851_600_114_359_308_276
    } else {
        1
    }
}

/// The integer part of the natural logarithm.
pub fn integer_ln(n: u64) -> (r: u64)
    requires
        n >= 1,
    ensures
        r == ln_floor(n as nat),
        r <= LN_MAX,
        exp_ceil(r as nat) <= n,
{
    let mut k: u64 = LN_MAX;
    while k > 0
        invariant
            k <= LN_MAX,
            ln_floor(n as nat) == ln_floor_upto(n as nat, k as nat),
        decreases k,
    {
        if exp_ceil_at(k) <= n {
            return k;
        }
        k = k - 1;
    }
    0
}

} // verus!
