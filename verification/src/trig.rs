//! Fixed-point trigonometry for rotation angles.
//!
//! Angles are measured in thousandths of a degree.  Sine and cosine values
//! are fixed-point numbers scaled by [`TRIG_ONE`]: the sine of a whole degree
//! comes from a table, and angles between whole degrees are interpolated
//! linearly between the two neighbouring table entries.

use vstd::arithmetic::div_mod::{
    lemma_div_is_ordered, lemma_div_multiples_vanish, lemma_div_multiples_vanish_fancy,
};
use vstd::arithmetic::mul::lemma_mul_inequality;
use vstd::prelude::*;

use crate::MAX_UM;

verus! {

/// One million: the fixed-point unit of a sine or cosine value.
pub const TRIG_ONE: u64 = 1_000_000;

/// The sine of `d` whole degrees, scaled by one million and rounded to the
/// nearest integer, for `d` between 0 and 90.  Arguments at or below 0 give
/// 0 and arguments at or above 90 give one million.
pub open spec fn spec_sin_table(d: int) -> int {
    if d <= 0 { 0 }
    else if d == 1 { 17452 }
    else if d == 2 { 34899 }
    else if d == 3 { 52336 }
    else if d == 4 { 69756 }
    else if d == 5 { 87156 }
    else if d == 6 { 104528 }
    else if d == 7 { 121869 }
    else if d == 8 { 139173 }
    else if d == 9 { 156434 }
    else if d == 10 { 173648 }
    else if d == 11 { 190809 }
    else if d == 12 { 207912 }
    else if d == 13 { 224951 }
    else if d == 14 { 241922 }
    else if d == 15 { 258819 }
    else if d == 16 { 275637 }
    else if d == 17 { 292372 }
    else if d == 18 { 309017 }
    else if d == 19 { 325568 }
    else if d == 20 { 342020 }
    else if d == 21 { 358368 }
    else if d == 22 { 374607 }
    else if d == 23 { 390731 }
    else if d == 24 { 406737 }
    else if d == 25 { 422618 }
    else if d == 26 { 438371 }
    else if d == 27 { 453990 }
    else if d == 28 { 469472 }
    else if d == 29 { 484810 }
    else if d == 30 { 500000 }
    else if d == 31 { 515038 }
    else if d == 32 { 529919 }
    else if d == 33 { 544639 }
    else if d == 34 { 559193 }
    else if d == 35 { 573576 }
    else if d == 36 { 587785 }
    else if d == 37 { 601815 }
    else if d == 38 { 615661 }
    else if d == 39 { 629320 }
    else if d == 40 { 642788 }
    else if d == 41 { 656059 }
    else if d == 42 { 669131 }
    else if d == 43 { 681998 }
    else if d == 44 { 694658 }
    else if d == 45 { 707107 }
    else if d == 46 { 719340 }
    else if d == 47 { 731354 }
    else if d == 48 { 743145 }
    else if d == 49 { 754710 }
    else if d == 50 { 766044 }
    else if d == 51 { 777146 }
    else if d == 52 { 788011 }
    else if d == 53 { 798636 }
    else if d == 54 { 809017 }
    else if d == 55 { 819152 }
    else if d == 56 { 829038 }
    else if d == 57 { 838671 }
    else if d == 58 { 848048 }
    else if d == 59 { 857167 }
    else if d == 60 { 866025 }
    else if d == 61 { 874620 }
    else if d == 62 { 882948 }
    else if d == 63 { 891007 }
    else if d == 64 { 898794 }
    else if d == 65 { 906308 }
    else if d == 66 { 913545 }
    else if d == 67 { 920505 }
    else if d == 68 { 927184 }
    else if d == 69 { 933580 }
    else if d == 70 { 939693 }
    else if d == 71 { 945519 }
    else if d == 72 { 951057 }
    else if d == 73 { 956305 }
    else if d == 74 { 961262 }
    else if d == 75 { 965926 }
    else if d == 76 { 970296 }
    else if d == 77 { 974370 }
    else if d == 78 { 978148 }
    else if d == 79 { 981627 }
    else if d == 80 { 984808 }
    else if d == 81 { 987688 }
    else if d == 82 { 990268 }
    else if d == 83 { 992546 }
    else if d == 84 { 994522 }
    else if d == 85 { 996195 }
    else if d == 86 { 997564 }
    else if d == 87 { 998630 }
    else if d == 88 { 999391 }
    else if d == 89 { 999848 }
    else { 1000000 }
}

/// Every table entry lies between zero and one million.
pub proof fn lemma_sin_table_bounds(d: int)
    ensures
        0 <= spec_sin_table(d) <= TRIG_ONE,
{
}

/// The table does not decrease from one whole degree to the next.
pub proof fn lemma_sin_table_monotone(d: int)
    requires
        0 <= d < 90,
    ensures
        spec_sin_table(d) <= spec_sin_table(d + 1),
{
}

fn sin_table(d: u64) -> (r: u64)
    requires
        d <= 90,
    ensures
        r == spec_sin_table(d as int),
        r <= TRIG_ONE,
{
    match d {
        0 => 0,
        1 => 17452,
        2 => 34899,
        3 => 52336,
        4 => 69756,
        5 => 87156,
        6 => 104528,
        7 => 121869,
        8 => 139173,
        9 => 156434,
        10 => 173648,
        11 => 190809,
        12 => 207912,
        13 => 224951,
        14 => 241922,
        15 => 258819,
        16 => 275637,
        17 => 292372,
        18 => 309017,
        19 => 325568,
        20 => 342020,
        21 => 358368,
        22 => 374607,
        23 => 390731,
        24 => 406737,
        25 => 422618,
        26 => 438371,
        27 => 453990,
        28 => 469472,
        29 => 484810,
        30 => 500000,
        31 => 515038,
        32 => 529919,
        33 => 544639,
        34 => 559193,
        35 => 573576,
        36 => 587785,
        37 => 601815,
        38 => 615661,
        39 => 629320,
        40 => 642788,
        41 => 656059,
        42 => 669131,
        43 => 681998,
        44 => 694658,
        45 => 707107,
        46 => 719340,
        47 => 731354,
        48 => 743145,
        49 => 754710,
        50 => 766044,
        51 => 777146,
        52 => 788011,
        53 => 798636,
        54 => 809017,
        55 => 819152,
        56 => 829038,
        57 => 838671,
        58 => 848048,
        59 => 857167,
        60 => 866025,
        61 => 874620,
        62 => 882948,
        63 => 891007,
        64 => 898794,
        65 => 906308,
        66 => 913545,
        67 => 920505,
        68 => 927184,
        69 => 933580,
        70 => 939693,
        71 => 945519,
        72 => 951057,
        73 => 956305,
        74 => 961262,
        75 => 965926,
        76 => 970296,
        77 => 974370,
        78 => 978148,
        79 => 981627,
        80 => 984808,
        81 => 987688,
        82 => 990268,
        83 => 992546,
        84 => 994522,
        85 => 996195,
        86 => 997564,
        87 => 998630,
        88 => 999391,
        89 => 999848,
        _ => 1000000,
    }
}

/// The sine of an angle of `m` thousandths of a degree, for `m` between
/// 0 and 90000, scaled by one million: the value interpolates linearly
/// between the neighbouring whole-degree table entries.
pub open spec fn spec_sin_fp(m: int) -> int {
    let d = m / 1000;
    let r = m % 1000;
    spec_sin_table(d) + (spec_sin_table(d + 1) - spec_sin_table(d)) * r / 1000
}

/// The interpolated sine stays between zero and one million.
pub proof fn lemma_sin_fp_bounds(m: int)
    requires
        0 <= m <= 90_000,
    ensures
        0 <= spec_sin_fp(m) <= TRIG_ONE,
{
    let d = m / 1000;
    let r = m % 1000;
    assert(0 <= d <= 90);
    assert(0 <= r < 1000);
    lemma_sin_table_bounds(d);
    lemma_sin_table_bounds(d + 1);
    if d < 90 {
        lemma_sin_table_monotone(d);
    }
    let diff = spec_sin_table(d + 1) - spec_sin_table(d);
    assert(0 <= diff);
    lemma_mul_inequality(r, 1000, diff);
    lemma_div_is_ordered(diff * r, diff * 1000, 1000);
    lemma_div_multiples_vanish(diff, 1000);
    assert(diff * r == r * diff) by (nonlinear_arith);
    assert(diff * 1000 == 1000 * diff) by (nonlinear_arith);
    assert(diff * r / 1000 <= diff);
    assert(diff * r >= 0) by (nonlinear_arith)
        requires 0 <= diff && 0 <= r;
    lemma_div_is_ordered(0, diff * r, 1000);
}

/// Computes [`spec_sin_fp`].
pub fn sin_fp(m: u64) -> (r: u64)
    requires
        m <= 90_000,
    ensures
        r == spec_sin_fp(m as int),
        r <= TRIG_ONE,
{
    proof {
        lemma_sin_fp_bounds(m as int);
    }
    let d: u64 = m / 1000;
    let rem: u64 = m % 1000;
    let a: u64 = sin_table(d);
    if rem == 0 {
        proof {
            let mi = m as int;
            let diff = spec_sin_table(mi / 1000 + 1) - spec_sin_table(mi / 1000);
            assert(diff * (mi % 1000) == 0) by (nonlinear_arith)
                requires mi % 1000 == 0;
            assert(0int / 1000 == 0);
        }
        a
    } else {
        assert(d < 90);
        let b: u64 = sin_table(d + 1);
        proof {
            lemma_sin_table_monotone(d as int);
        }
        a + (b - a) * rem / 1000
    }
}

/// At zero the interpolated sine is exactly zero.
pub proof fn lemma_sin_fp_zero()
    ensures
        spec_sin_fp(0) == 0,
{
    assert(0int / 1000 == 0);
    assert(0int % 1000 == 0);
    assert(spec_sin_table(0) == 0);
    assert(spec_sin_table(1) == 17452);
    assert(17452int * 0 == 0);
}

/// At a quarter turn the interpolated sine is exactly one million.
pub proof fn lemma_sin_fp_quarter()
    ensures
        spec_sin_fp(90_000) == TRIG_ONE,
{
    assert(90_000int / 1000 == 90);
    assert(90_000int % 1000 == 0);
    assert(spec_sin_table(90) == 1_000_000);
    assert(spec_sin_table(91) == 1_000_000);
    assert(0int * 0 == 0);
}

/// The reference angle in the first quadrant, in thousandths of a degree:
/// the magnitude of the angle, folded at a quarter turn.
pub open spec fn spec_ref_angle(mdeg: int) -> int {
    let m = if mdeg < 0 { -mdeg } else { mdeg };
    if m <= 90_000 { m } else { 180_000 - m }
}

/// The magnitude of the sine of a clockwise angle in thousandths of a
/// degree, scaled by one million.
pub open spec fn spec_sin_mag(mdeg: int) -> int {
    spec_sin_fp(spec_ref_angle(mdeg))
}

/// The magnitude of the cosine of a clockwise angle in thousandths of a
/// degree, scaled by one million.
pub open spec fn spec_cos_mag(mdeg: int) -> int {
    spec_sin_fp(90_000 - spec_ref_angle(mdeg))
}

/// Computes the sine and cosine magnitudes of an angle.
pub fn sin_cos_mag(mdeg: i64) -> (r: (u64, u64))
    requires
        -180_000 <= mdeg <= 180_000,
    ensures
        r.0 == spec_sin_mag(mdeg as int),
        r.1 == spec_cos_mag(mdeg as int),
        r.0 <= TRIG_ONE,
        r.1 <= TRIG_ONE,
{
    let m: i64 = if mdeg < 0 { -mdeg } else { mdeg };
    let refa: u64 = if m <= 90_000 { m as u64 } else { (180_000 - m) as u64 };
    (sin_fp(refa), sin_fp(90_000 - refa))
}

/// A length multiplied by a fixed-point trigonometric factor, rounded to
/// the nearest integer.
pub open spec fn spec_mul_trig(len: int, t: int) -> int {
    (len * t + 500_000) / 1_000_000
}

/// Computes [`spec_mul_trig`] for a non-negative length.
pub fn mul_trig(len: i64, t: u64) -> (r: i64)
    requires
        0 <= len <= MAX_UM,
        t <= TRIG_ONE,
    ensures
        r == spec_mul_trig(len as int, t as int),
        0 <= r <= len,
{
    proof {
        lemma_mul_trig_bounds(len as int, t as int);
        assert(len * t <= MAX_UM * TRIG_ONE) by (nonlinear_arith)
            requires 0 <= len <= MAX_UM && 0 <= t <= TRIG_ONE;
        assert(len * t >= 0) by (nonlinear_arith)
            requires 0 <= len && 0 <= t;
    }
    let p: u64 = (len as u64) * t;
    ((p + 500_000) / 1_000_000) as i64
}

/// The rounded product of a non-negative length and a factor of at most one
/// million stays between zero and the length.
pub proof fn lemma_mul_trig_bounds(len: int, t: int)
    requires
        0 <= len,
        0 <= t <= TRIG_ONE,
    ensures
        0 <= spec_mul_trig(len, t) <= len,
{
    lemma_mul_inequality(t, 1_000_000, len);
    assert(t * len == len * t) by (nonlinear_arith);
    assert(1_000_000 * len == len * 1_000_000) by (nonlinear_arith);
    assert(len * t >= 0) by (nonlinear_arith)
        requires 0 <= len && 0 <= t;
    lemma_div_is_ordered(0, len * t + 500_000, 1_000_000);
    lemma_div_is_ordered(len * t + 500_000, len * 1_000_000 + 500_000, 1_000_000);
    lemma_div_multiples_vanish_fancy(len, 500_000, 1_000_000);
    assert(1_000_000 * len == len * 1_000_000) by (nonlinear_arith);
}

/// Multiplying by the unit factor gives the length back exactly.
pub proof fn lemma_mul_trig_one(len: int)
    requires
        0 <= len,
    ensures
        spec_mul_trig(len, TRIG_ONE as int) == len,
{
    lemma_div_multiples_vanish_fancy(len, 500_000, 1_000_000);
    assert(1_000_000 * len == len * 1_000_000) by (nonlinear_arith);
}

/// Multiplying by a zero factor gives zero exactly.
pub proof fn lemma_mul_trig_zero(len: int)
    ensures
        spec_mul_trig(len, 0) == 0,
{
}

} // verus!
