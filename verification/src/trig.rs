//! Quarter-wave sine in fixed point: values are scaled by `SIN_ONE` = 65536,
//! angles by 65536 per quarter turn. A 65-entry table at multiples of 1024
//! is refined by linear interpolation; the table and the interpolation are
//! proved non-decreasing, which carries monotonicity through the whole
//! stitch-count pipeline.

use vstd::prelude::*;

verus! {

use vstd::arithmetic::div_mod::lemma_div_is_ordered;
use vstd::arithmetic::div_mod::lemma_fundamental_div_mod;
use vstd::arithmetic::mul::lemma_mul_inequality;

/// Fixed-point scale of sine values: `sin_q` maps angle fractions in
/// `[0, 65536]` (65536 = a quarter turn) to sines in `[0, SIN_ONE]`.
pub const SIN_ONE: u32 = 65536;

/// Sine of `k` 128ths of a half quarter-turn grid step, i.e. sin(k*pi/128),
/// scaled by 65536 and rounded to nearest; clamped at the ends outside
/// `[0, 64]`.
pub open spec fn sin_table(k: int) -> int {
    if k <= 0 {
        0
    } else if k == 1 {
        1608
    } else if k == 2 {
        3216
    } else if k == 3 {
        4821
    } else if k == 4 {
        6424
    } else if k == 5 {
        8022
    } else if k == 6 {
        9616
    } else if k == 7 {
        11204
    } else if k == 8 {
        12785
    } else if k == 9 {
        14359
    } else if k == 10 {
        15924
    } else if k == 11 {
        17479
    } else if k == 12 {
        19024
    } else if k == 13 {
        20557
    } else if k == 14 {
        22078
    } else if k == 15 {
        23586
    } else if k == 16 {
        25080
    } else if k == 17 {
        26558
    } else if k == 18 {
        28020
    } else if k == 19 {
        29466
    } else if k == 20 {
        30893
    } else if k == 21 {
        32303
    } else if k == 22 {
        33692
    } else if k == 23 {
        35062
    } else if k == 24 {
        36410
    } else if k == 25 {
        37736
    } else if k == 26 {
        39040
    } else if k == 27 {
        40320
    } else if k == 28 {
        41576
    } else if k == 29 {
        42806
    } else if k == 30 {
        44011
    } else if k == 31 {
        45190
    } else if k == 32 {
        46341
    } else if k == 33 {
        47464
    } else if k == 34 {
        48559
    } else if k == 35 {
        49624
    } else if k == 36 {
        50660
    } else if k == 37 {
        51665
    } else if k == 38 {
        52639
    } else if k == 39 {
        53581
    } else if k == 40 {
        54491
    } else if k == 41 {
        55368
    } else if k == 42 {
        56212
    } else if k == 43 {
        57022
    } else if k == 44 {
        57798
    } else if k == 45 {
        58538
    } else if k == 46 {
        59244
    } else if k == 47 {
        59914
    } else if k == 48 {
        60547
    } else if k == 49 {
        61145
    } else if k == 50 {
        61705
    } else if k == 51 {
        62228
    } else if k == 52 {
        62714
    } else if k == 53 {
        63162
    } else if k == 54 {
        63572
    } else if k == 55 {
        63944
    } else if k == 56 {
        64277
    } else if k == 57 {
        64571
    } else if k == 58 {
        64827
    } else if k == 59 {
        65043
    } else if k == 60 {
        65220
    } else if k == 61 {
        65358
    } else if k == 62 {
        65457
    } else if k == 63 {
        65516
    } else {
        65536
    }
}

/// Adjacent table entries never decrease.
pub proof fn lemma_sin_table_step(k: int)
    ensures
        sin_table(k) <= sin_table(k + 1),
{
}

/// The table is non-decreasing over the whole integer line.
pub proof fn lemma_sin_table_sorted(i: int, j: int)
    requires
        i <= j,
    ensures
        sin_table(i) <= sin_table(j),
    decreases j - i,
{
    if i < j {
        lemma_sin_table_sorted(i, j - 1);
        lemma_sin_table_step(j - 1);
    }
}

/// Every table entry lies in `[0, SIN_ONE]`.
pub proof fn lemma_sin_table_bounds(k: int)
    ensures
        0 <= sin_table(k) <= SIN_ONE,
{
    if 0 <= k <= 64 {
        lemma_sin_table_sorted(0, k);
        lemma_sin_table_sorted(k, 64);
    }
}

/// Fixed-point sine of an angle fraction `u` (65536ths of a quarter turn):
/// table lookup plus linear interpolation inside the 1024-wide segment,
/// clamped to `[0, SIN_ONE]` outside `[0, 65536]`.
pub open spec fn sin_q(u: int) -> int {
    if u <= 0 {
        0
    } else if u >= 65536 {
        65536
    } else {
        let k = u / 1024;
        let f = u % 1024;
        sin_table(k) + (sin_table(k + 1) - sin_table(k)) * f / 1024
    }
}

/// Inside a segment the interpolated value stays between the segment's two
/// table entries.
proof fn lemma_interp_in_segment(u: int)
    requires
        0 < u < 65536,
    ensures
        sin_table(u / 1024) <= sin_q(u) <= sin_table(u / 1024 + 1),
{
    let k = u / 1024;
    let f = u % 1024;
    let d = sin_table(k + 1) - sin_table(k);
    lemma_sin_table_step(k);
    assert(0 <= f < 1024) by {
        lemma_fundamental_div_mod(u, 1024);
    }
    lemma_mul_inequality(f, 1024, d);
    assert(d * f == f * d) by (nonlinear_arith);
    assert(d * 1024 == 1024 * d) by (nonlinear_arith);
    lemma_div_is_ordered(0, d * f, 1024);
    lemma_div_is_ordered(d * f, d * 1024, 1024);
    assert(d * 1024 / 1024 == d) by (nonlinear_arith);
}

/// `sin_q` stays within `[0, SIN_ONE]`.
pub proof fn lemma_sin_q_bounds(u: int)
    ensures
        0 <= sin_q(u) <= SIN_ONE,
{
    if 0 < u < 65536 {
        lemma_interp_in_segment(u);
        lemma_sin_table_bounds(u / 1024);
        lemma_sin_table_bounds(u / 1024 + 1);
    }
}

/// Monotonicity: a larger angle fraction never yields a smaller sine.
pub proof fn lemma_sin_q_mono(u1: int, u2: int)
    requires
        u1 <= u2,
    ensures
        sin_q(u1) <= sin_q(u2),
{
    lemma_sin_q_bounds(u1);
    lemma_sin_q_bounds(u2);
    if 0 < u1 && u2 < 65536 {
        let k1 = u1 / 1024;
        let k2 = u2 / 1024;
        lemma_div_is_ordered(u1, u2, 1024);
        lemma_interp_in_segment(u1);
        lemma_interp_in_segment(u2);
        if k1 == k2 {
            let f1 = u1 % 1024;
            let f2 = u2 % 1024;
            let d = sin_table(k1 + 1) - sin_table(k1);
            lemma_sin_table_step(k1);
            assert(f1 <= f2) by {
                lemma_fundamental_div_mod(u1, 1024);
                lemma_fundamental_div_mod(u2, 1024);
            }
            lemma_mul_inequality(f1, f2, d);
            assert(d * f1 == f1 * d) by (nonlinear_arith);
            assert(d * f2 == f2 * d) by (nonlinear_arith);
            lemma_div_is_ordered(d * f1, d * f2, 1024);
        } else {
            lemma_sin_table_sorted(k1 + 1, k2);
        }
    }
}

/// Executable counterpart of `sin_table` on in-range indices.
fn sin_table_exec(k: u32) -> (r: u32)
    requires
        k <= 64,
    ensures
        r as int == sin_table(k as int),
{
    if k == 0 {
        0
    } else if k == 1 {
        1608
    } else if k == 2 {
        3216
    } else if k == 3 {
        4821
    } else if k == 4 {
        6424
    } else if k == 5 {
        8022
    } else if k == 6 {
        9616
    } else if k == 7 {
        11204
    } else if k == 8 {
        12785
    } else if k == 9 {
        14359
    } else if k == 10 {
        15924
    } else if k == 11 {
        17479
    } else if k == 12 {
        19024
    } else if k == 13 {
        20557
    } else if k == 14 {
        22078
    } else if k == 15 {
        23586
    } else if k == 16 {
        25080
    } else if k == 17 {
        26558
    } else if k == 18 {
        28020
    } else if k == 19 {
        29466
    } else if k == 20 {
        30893
    } else if k == 21 {
        32303
    } else if k == 22 {
        33692
    } else if k == 23 {
        35062
    } else if k == 24 {
        36410
    } else if k == 25 {
        37736
    } else if k == 26 {
        39040
    } else if k == 27 {
        40320
    } else if k == 28 {
        41576
    } else if k == 29 {
        42806
    } else if k == 30 {
        44011
    } else if k == 31 {
        45190
    } else if k == 32 {
        46341
    } else if k == 33 {
        47464
    } else if k == 34 {
        48559
    } else if k == 35 {
        49624
    } else if k == 36 {
        50660
    } else if k == 37 {
        51665
    } else if k == 38 {
        52639
    } else if k == 39 {
        53581
    } else if k == 40 {
        54491
    } else if k == 41 {
        55368
    } else if k == 42 {
        56212
    } else if k == 43 {
        57022
    } else if k == 44 {
        57798
    } else if k == 45 {
        58538
    } else if k == 46 {
        59244
    } else if k == 47 {
        59914
    } else if k == 48 {
        60547
    } else if k == 49 {
        61145
    } else if k == 50 {
        61705
    } else if k == 51 {
        62228
    } else if k == 52 {
        62714
    } else if k == 53 {
        63162
    } else if k == 54 {
        63572
    } else if k == 55 {
        63944
    } else if k == 56 {
        64277
    } else if k == 57 {
        64571
    } else if k == 58 {
        64827
    } else if k == 59 {
        65043
    } else if k == 60 {
        65220
    } else if k == 61 {
        65358
    } else if k == 62 {
        65457
    } else if k == 63 {
        65516
    } else {
        65536
    }
}

/// Executable fixed-point sine on `[0, 65536]`.
pub fn sin_q_exec(u: u32) -> (r: u32)
    requires
        u <= 65536,
    ensures
        r as int == sin_q(u as int),
        r <= SIN_ONE,
{
    proof {
        lemma_sin_q_bounds(u as int);
    }
    if u == 0 {
        0
    } else if u >= 65536 {
        65536
    } else {
        let k: u32 = u / 1024;
        let f: u32 = u % 1024;
        let lo: u32 = sin_table_exec(k);
        let hi: u32 = sin_table_exec(k + 1);
        proof {
            lemma_sin_table_step(k as int);
            lemma_sin_table_bounds(k as int);
            lemma_sin_table_bounds(k as int + 1);
        }
        let d: u32 = hi - lo;
        lo + d * f / 1024
    }
}

} // verus!
