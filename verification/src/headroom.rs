//! The 20% of spare room that a composition surface is given over its window.
//!
//! The factor is applied in IEEE 754 single precision and the product is cut to a whole number
//! of pixels. Both roundings are reproduced here on integers, so the size of a surface is a
//! plain integer function of the size of the window.

use vstd::prelude::*;

verus! {

/// The first of `unit`, `2 * unit`, `4 * unit`, ... into which `n` goes fewer than
/// 2^24 times: as many integers as a single precision significand can hold.
pub open spec fn spacing_from(n: nat, unit: nat) -> nat
    decreases n - unit,
{
    if unit == 0 || n / unit < 0x100_0000 {
        unit
    } else {
        proof {
            assert(2 * unit <= n) by (nonlinear_arith)
                requires
                    n / unit >= 0x100_0000,
                    unit > 0,
            ;
        }
        spacing_from(n, 2 * unit)
    }
}

/// The distance between the single precision numbers around the integer `n`.
pub open spec fn spacing(n: nat) -> nat {
    spacing_from(n, 1)
}

/// The single precision number nearest to the integer `n`; of two that are equally near, the one
/// with the even significand.
pub open spec fn nearest_single(n: nat) -> nat {
    let unit = spacing(n);
    let below = n / unit;
    let rest = n % unit;
    if 2 * rest > unit || (2 * rest == unit && below % 2 == 1) {
        (below + 1) * unit
    } else {
        below * unit
    }
}

/// `width * 1.2` in single precision, cut to an integer. The single precision number nearest to
/// 1.2 is `10_066_330 / 8_388_608`.
pub open spec fn scaled(width: nat) -> nat {
    nearest_single(nearest_single(width) * 10_066_330) / 8_388_608
}

proof fn lemma_spacing_from(n: nat, unit: nat)
    requires
        unit >= 1,
    ensures
        spacing_from(n, unit) >= unit,
        n / spacing_from(n, unit) < 0x100_0000,
        spacing_from(n, unit) == unit || (spacing_from(n, unit) % 2 == 0 && n / (spacing_from(
            n,
            unit,
        ) / 2) >= 0x100_0000),
    decreases n - unit,
{
    if n / unit < 0x100_0000 {
    } else {
        assert(2 * unit <= n) by (nonlinear_arith)
            requires
                n / unit >= 0x100_0000,
                unit >= 1,
        ;
        lemma_spacing_from(n, 2 * unit);
    }
}

/// Rounding to single precision moves an integer by at most half the distance to the next single
/// precision number, which is at most one part in 2^24.
pub proof fn lemma_nearest_single_is_near(n: nat)
    ensures
        2 * nearest_single(n) <= 2 * n + spacing(n),
        2 * nearest_single(n) + spacing(n) >= 2 * n,
        nearest_single(n) * 0x100_0000 >= n * 0xff_ffff,
        nearest_single(n) * 0x100_0000 <= n * 0x100_0001,
{
    lemma_spacing_from(n, 1);
    let unit = spacing(n);
    let below = n / unit;
    let rest = n % unit;
    vstd::arithmetic::div_mod::lemma_fundamental_div_mod(n as int, unit as int);
    assert((below + 1) * unit == unit * below + unit) by (nonlinear_arith);
    assert(below * unit == unit * below) by (nonlinear_arith);
    if unit > 1 {
        let half = unit / 2;
        assert(unit == 2 * half);
        assert(half * 0x100_0000 <= n) by (nonlinear_arith)
            requires
                n / half >= 0x100_0000,
                half >= 1,
        ;
        assert(nearest_single(n) <= n + half);
        assert(nearest_single(n) + half >= n);
    }
}

/// Rounds an integer to single precision.
pub fn round_to_single(n: u64) -> (r: u64)
    requires
        n < 0x80_0000_0000_0000,
    ensures
        r == nearest_single(n as nat),
        r < 0x100_0000_0000_0000,
{
    let mut unit: u64 = 1;
    while n / unit >= 0x100_0000
        invariant
            unit >= 1,
            unit <= n || unit == 1,
            n < 0x80_0000_0000_0000,
            spacing_from(n as nat, unit as nat) == spacing(n as nat),
        decreases n - unit,
    {
        assert(2 * unit <= n) by (nonlinear_arith)
            requires
                n / unit >= 0x100_0000,
                unit >= 1,
        ;
        unit = unit * 2;
    }
    let below: u64 = n / unit;
    let rest: u64 = n % unit;
    proof {
        vstd::arithmetic::div_mod::lemma_fundamental_div_mod(n as int, unit as int);
        assert((below + 1) * unit == unit * below + unit) by (nonlinear_arith);
        assert(below * unit == unit * below) by (nonlinear_arith);
    }
    if 2 * rest > unit || (2 * rest == unit && below % 2 == 1) {
        (below + 1) * unit
    } else {
        below * unit
    }
}

/// Scales a number of pixels by 1.2 in single precision and cuts the product to an integer.
pub fn scale(width: u32) -> (r: u32)
    requires
        width <= 0x7fff_ffff,
    ensures
        r == scaled(width as nat),
        width <= r <= 0xc000_0000,
{
    proof {
        lemma_scaled_is_at_least(width as nat);
        lemma_nearest_single_is_near(width as nat);
        lemma_nearest_single_is_near(nearest_single(width as nat) * 10_066_330);
    }
    let whole: u64 = round_to_single(width as u64);
    let product: u64 = round_to_single(whole * 10_066_330);
    (product / 8_388_608) as u32
}

/// What `scaled` yields is never less than what it is given.
pub proof fn lemma_scaled_is_at_least(width: nat)
    ensures
        scaled(width) >= width,
{
    let whole = nearest_single(width);
    lemma_nearest_single_is_near(width);
    lemma_nearest_single_is_near(whole * 10_066_330);
}

/// What `scaled` yields leaves room for blocks of 128 pixels.
pub proof fn lemma_scaled_is_at_most(width: nat)
    requires
        width <= 0x7fff_ffff,
    ensures
        scaled(width) <= 0xc000_0000,
{
    let whole = nearest_single(width);
    lemma_nearest_single_is_near(width);
    lemma_nearest_single_is_near(whole * 10_066_330);
}

/// The two powers of two whose product is 2^23.
spec fn are_factors(unit: nat, times: nat) -> bool {
    ||| unit == 0x1 && times == 0x800000 || unit == 0x2 && times == 0x400000
    ||| unit == 0x4 && times == 0x200000 || unit == 0x8 && times == 0x100000
    ||| unit == 0x10 && times == 0x80000 || unit == 0x20 && times == 0x40000
    ||| unit == 0x40 && times == 0x20000 || unit == 0x80 && times == 0x10000
    ||| unit == 0x100 && times == 0x8000 || unit == 0x200 && times == 0x4000
    ||| unit == 0x400 && times == 0x2000 || unit == 0x800 && times == 0x1000
    ||| unit == 0x1000 && times == 0x800 || unit == 0x2000 && times == 0x400
    ||| unit == 0x4000 && times == 0x200 || unit == 0x8000 && times == 0x100
    ||| unit == 0x10000 && times == 0x80 || unit == 0x20000 && times == 0x40
    ||| unit == 0x40000 && times == 0x20 || unit == 0x80000 && times == 0x10
    ||| unit == 0x100000 && times == 0x8 || unit == 0x200000 && times == 0x4
    ||| unit == 0x400000 && times == 0x2 || unit == 0x800000 && times == 0x1
}

proof fn lemma_spacing_is_a_factor(n: nat, unit: nat, times: nat) -> (left: nat)
    requires
        n < 0x8000_0000_0000,
        are_factors(unit, times),
    ensures
        are_factors(spacing_from(n, unit), left),
    decreases times,
{
    if n / unit >= 0x100_0000 {
        assert(n / 0x80_0000 < 0x100_0000);
        lemma_spacing_is_a_factor(n, 2 * unit, times / 2)
    } else {
        times
    }
}

proof fn lemma_whole_numbers_are_multiples(whole: nat, unit: nat, times: nat)
    requires
        are_factors(unit, times),
    ensures
        (whole * 8_388_608) % unit == 0,
{
    assert(unit * times == 8_388_608) by (nonlinear_arith)
        requires
            are_factors(unit, times),
    ;
    assert(whole * 8_388_608 == (whole * times) * unit) by (nonlinear_arith)
        requires
            unit * times == 8_388_608,
    ;
    vstd::arithmetic::div_mod::lemma_mod_multiples_basic((whole * times) as int, unit as int);
}

/// A number that is not above another one, and can be divided by `unit`, is not above the other
/// one rounded down to a multiple of `unit`.
proof fn lemma_rounded_down(m: nat, n: nat, unit: nat)
    requires
        m <= n,
        unit >= 1,
        m % unit == 0,
    ensures
        (n / unit) * unit >= m,
        (n / unit + 1) * unit >= m,
{
    vstd::arithmetic::div_mod::lemma_fundamental_div_mod(m as int, unit as int);
    vstd::arithmetic::div_mod::lemma_div_is_ordered(m as int, n as int, unit as int);
    assert((n / unit) * unit >= (m / unit) * unit) by (nonlinear_arith)
        requires
            n / unit >= m / unit,
    ;
    assert((m / unit) * unit == unit * (m / unit)) by (nonlinear_arith);
    assert((n / unit + 1) * unit == (n / unit) * unit + unit) by (nonlinear_arith);
}

/// Where single precision numbers are at most one apart, `scaled` yields six fifths, cut to an
/// integer, or one more.
pub proof fn lemma_scaled_is_six_fifths(width: nat)
    requires
        1 <= width <= 13_981_012,
    ensures
        width * 6 / 5 <= scaled(width) <= width * 6 / 5 + 1,
{
    assert(nearest_single(width) == width) by {
        assert(spacing(width) == 1);
    }
    let n = width * 10_066_330;
    let whole = (width * 6 / 5) as nat;
    let times = lemma_spacing_is_a_factor(n, 1, 0x80_0000);
    lemma_nearest_single_is_near(n);
    assert(nearest_single(n) >= whole * 8_388_608) by {
        lemma_whole_numbers_are_multiples(whole, spacing(n), times);
        lemma_rounded_down(whole * 8_388_608, n, spacing(n));
    }
}

} // verus!
