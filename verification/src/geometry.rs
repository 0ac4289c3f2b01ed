//! Row geometry: from a sphere spec derive, for each latitude row-pair from
//! pole to equator, the angle, the latitude-circle radius and circumference,
//! and the target stitch count. All arithmetic is exact fixed point; every
//! field of every row is pinned to a closed-form spec function of the input.

use vstd::prelude::*;

verus! {

use vstd::arithmetic::div_mod::lemma_div_by_self;
use vstd::arithmetic::div_mod::lemma_div_is_ordered;
use vstd::arithmetic::div_mod::lemma_div_multiples_vanish;
use vstd::arithmetic::div_mod::lemma_div_pos_is_pos;
use vstd::arithmetic::mul::lemma_mul_inequality;
use vstd::arithmetic::mul::lemma_mul_left_inequality;
use crate::trig::sin_q;
use crate::trig::sin_q_exec;
use crate::trig::lemma_sin_q_bounds;
use crate::trig::lemma_sin_q_mono;
use crate::SphereSpec;
use crate::PatternError;
use crate::spec_valid;
use crate::spec_in_range;

/// pi scaled by 10^15 (rounded to nearest).
pub const PI_NUM: u128 = 3_141_592_653_589_793;

/// The scale of `PI_NUM`.
pub const PI_DEN: u128 = 1_000_000_000_000_000;

/// Denominator of the row-pair count: 8 * 10^6 * PI_DEN. The number of
/// row-pairs is ceil(pi * diameter * rows_per_unit / (8 * 10^6)) with both
/// lengths in thousandths of a unit.
pub const N_DEN: u128 = 8_000_000_000_000_000_000_000;

/// Denominator of the stitch count: 10^6 * PI_DEN * 65536.
pub const COUNT_DEN: u128 = 65_536_000_000_000_000_000_000_000;

/// Denominator of the circumference in millionths of a unit: PI_DEN * 65536.
pub const CIRC_DEN: u128 = 65_536_000_000_000_000_000;

/// Upper bound on the row-pair count for in-range inputs.
pub const MAX_ROW_PAIRS: u32 = 400_000;

/// One computed latitude step. `index` runs from 1 (nearest the pole) to the
/// row-pair count N (the equator). The angle is stored as a fraction of a
/// quarter turn in 65536ths; radius and circumference in millionths of the
/// length unit; the stitch count is the rounded target for this row-pair.
#[derive(Clone, Copy, PartialEq, Eq, Structural, Debug)]
pub struct RowPair {
    pub index: u32,
    pub angle_frac: u32,
    pub radius_micro: u64,
    pub circumference_micro: u64,
    pub stitch_count: u32,
}

/// Number of row-pairs N: the pole-to-equator arc (a quarter of the sphere's
/// great circle) times the row gauge gives the rough row count; pairs are
/// worked two rows at a time, so N = ceil(rough rows / 2), never below 1.
pub open spec fn spec_n_pairs(s: SphereSpec) -> int {
    (PI_NUM as int * s.diameter_milli * s.rows_per_unit_milli + (N_DEN - 1) as int) / (
    N_DEN as int)
}

/// Latitude angle of row-pair `i` as a fraction of a quarter turn in
/// 65536ths: the quarter arc is split into N equal angular steps.
pub open spec fn spec_angle_frac(s: SphereSpec, i: int) -> int {
    i * 65536 / spec_n_pairs(s)
}

/// Target stitch count of row-pair `i`: stitches_per_unit times the latitude
/// circumference 2*pi*(diameter/2)*sin(angle), rounded to nearest.
pub open spec fn spec_stitch_count(s: SphereSpec, i: int) -> int {
    let num = PI_NUM as int * s.stitches_per_unit_milli * s.diameter_milli * sin_q(
        spec_angle_frac(s, i),
    );
    (2 * num + COUNT_DEN as int) / (2 * COUNT_DEN as int)
}

/// Latitude-circle radius of row-pair `i` in millionths of a unit:
/// (diameter/2)*sin(angle), rounded to nearest.
pub open spec fn spec_radius_micro(s: SphereSpec, i: int) -> int {
    (1000 * s.diameter_milli * sin_q(spec_angle_frac(s, i)) + 65536) / 131072
}

/// Latitude-circle circumference of row-pair `i` in millionths of a unit:
/// pi*diameter*sin(angle), rounded to nearest.
pub open spec fn spec_circumference_micro(s: SphereSpec, i: int) -> int {
    let num = PI_NUM as int * s.diameter_milli * 1000 * sin_q(spec_angle_frac(s, i));
    (2 * num + CIRC_DEN as int) / (2 * CIRC_DEN as int)
}

/// The whole row-pair at index `i`, as the geometry model produces it.
pub open spec fn spec_row_pair(s: SphereSpec, i: int) -> RowPair {
    RowPair {
        index: i as u32,
        angle_frac: spec_angle_frac(s, i) as u32,
        radius_micro: spec_radius_micro(s, i) as u64,
        circumference_micro: spec_circumference_micro(s, i) as u64,
        stitch_count: spec_stitch_count(s, i) as u32,
    }
}

/// The target stitch counts of all row-pairs, in index order.
pub open spec fn spec_counts(s: SphereSpec) -> Seq<int> {
    Seq::new(spec_n_pairs(s) as nat, |k: int| spec_stitch_count(s, k + 1))
}

/// The whole row-pair sequence, in index order: the geometry model is a
/// pure function of the sphere spec.
pub open spec fn spec_rows(s: SphereSpec) -> Seq<RowPair> {
    Seq::new(spec_n_pairs(s) as nat, |k: int| spec_row_pair(s, k + 1))
}

/// For valid in-range inputs the row-pair count is at least 1 and at most
/// `MAX_ROW_PAIRS`.
pub proof fn lemma_n_pairs_bounds(s: SphereSpec)
    requires
        spec_valid(s),
        spec_in_range(s),
    ensures
        1 <= spec_n_pairs(s) <= MAX_ROW_PAIRS,
{
    let num = PI_NUM as int * s.diameter_milli * s.rows_per_unit_milli;
    let x = num + (N_DEN - 1) as int;
    assert(num >= PI_NUM) by (nonlinear_arith)
        requires
            num == PI_NUM as int * s.diameter_milli * s.rows_per_unit_milli,
            s.diameter_milli >= 1,
            s.rows_per_unit_milli >= 1,
    ;
    assert(num <= 3_141_592_653_589_793_000_000_000_000) by (nonlinear_arith)
        requires
            num == PI_NUM as int * s.diameter_milli * s.rows_per_unit_milli,
            1 <= s.diameter_milli <= 1_000_000,
            1 <= s.rows_per_unit_milli <= 1_000_000,
    ;
    lemma_div_by_self(N_DEN as int);
    lemma_div_is_ordered(N_DEN as int, x, N_DEN as int);
    lemma_div_is_ordered(x, 400_000 * N_DEN as int, N_DEN as int);
    lemma_div_multiples_vanish(400_000, N_DEN as int);
}

/// The angle fraction of every row-pair in `[1, N]` lies in `(0, 65536]`,
/// and the last one is exactly a quarter turn.
pub proof fn lemma_angle_frac_bounds(s: SphereSpec, i: int)
    requires
        spec_valid(s),
        spec_in_range(s),
        1 <= i <= spec_n_pairs(s),
    ensures
        0 <= spec_angle_frac(s, i) <= 65536,
        i == spec_n_pairs(s) ==> spec_angle_frac(s, i) == 65536,
{
    let n = spec_n_pairs(s);
    lemma_n_pairs_bounds(s);
    lemma_div_pos_is_pos(i * 65536, n);
    lemma_mul_inequality(i, n, 65536);
    lemma_div_is_ordered(i * 65536, n * 65536, n);
    lemma_div_multiples_vanish(65536, n);
    assert(n * 65536 == 65536 * n) by (nonlinear_arith);
}

/// The stitch count of every row-pair is non-negative and, for in-range
/// inputs, at most 4,000,000 (so it fits comfortably in a `u32`).
pub proof fn lemma_stitch_count_bounds(s: SphereSpec, i: int)
    requires
        spec_valid(s),
        spec_in_range(s),
        1 <= i <= spec_n_pairs(s),
    ensures
        0 <= spec_stitch_count(s, i) <= 4_000_000,
{
    let a = spec_angle_frac(s, i);
    lemma_angle_frac_bounds(s, i);
    lemma_sin_q_bounds(a);
    let num = PI_NUM as int * s.stitches_per_unit_milli * s.diameter_milli * sin_q(a);
    assert(0 <= num <= 205_931_088_705_775_736_913_920_000_000_000) by (nonlinear_arith)
        requires
            num == PI_NUM as int * s.stitches_per_unit_milli * s.diameter_milli * sin_q(a),
            1 <= s.stitches_per_unit_milli <= 1_000_000,
            1 <= s.diameter_milli <= 1_000_000,
            0 <= sin_q(a) <= 65536,
    ;
    lemma_div_pos_is_pos(2 * num + COUNT_DEN as int, 2 * COUNT_DEN as int);
    lemma_div_is_ordered(
        2 * num + COUNT_DEN as int,
        4_000_000 * (2 * COUNT_DEN as int),
        2 * COUNT_DEN as int,
    );
    lemma_div_multiples_vanish(4_000_000, 2 * COUNT_DEN as int);
}

/// The radius of every row-pair fits in a `u64` (it is below 10^9 micro).
pub proof fn lemma_radius_bounds(s: SphereSpec, i: int)
    requires
        spec_valid(s),
        spec_in_range(s),
        1 <= i <= spec_n_pairs(s),
    ensures
        0 <= spec_radius_micro(s, i) <= 1_000_000_000,
{
    let a = spec_angle_frac(s, i);
    lemma_angle_frac_bounds(s, i);
    lemma_sin_q_bounds(a);
    let num = 1000 * s.diameter_milli * sin_q(a);
    assert(0 <= num <= 65_536_000_000_000) by (nonlinear_arith)
        requires
            num == 1000 * s.diameter_milli * sin_q(a),
            1 <= s.diameter_milli <= 1_000_000,
            0 <= sin_q(a) <= 65536,
    ;
    lemma_div_pos_is_pos(num + 65536, 131072);
    lemma_div_is_ordered(num + 65536, 1_000_000_000int * 131072, 131072);
    lemma_div_multiples_vanish(1_000_000_000, 131072);
}

/// The circumference of every row-pair fits in a `u64` (below 4 * 10^9
/// micro).
pub proof fn lemma_circumference_bounds(s: SphereSpec, i: int)
    requires
        spec_valid(s),
        spec_in_range(s),
        1 <= i <= spec_n_pairs(s),
    ensures
        0 <= spec_circumference_micro(s, i) <= 4_000_000_000,
{
    let a = spec_angle_frac(s, i);
    lemma_angle_frac_bounds(s, i);
    lemma_sin_q_bounds(a);
    let num = PI_NUM as int * s.diameter_milli * 1000 * sin_q(a);
    assert(0 <= num <= 205_931_088_705_775_736_913_920_000_000) by (nonlinear_arith)
        requires
            num == PI_NUM as int * s.diameter_milli * 1000 * sin_q(a),
            1 <= s.diameter_milli <= 1_000_000,
            0 <= sin_q(a) <= 65536,
    ;
    lemma_div_pos_is_pos(2 * num + CIRC_DEN as int, 2 * CIRC_DEN as int);
    lemma_div_is_ordered(
        2 * num + CIRC_DEN as int,
        4_000_000_000 * (2 * CIRC_DEN as int),
        2 * CIRC_DEN as int,
    );
    lemma_div_multiples_vanish(4_000_000_000, 2 * CIRC_DEN as int);
}

/// Monotone geometry: the target stitch count never decreases from one
/// row-pair to a later one, because the angle fraction grows with the index
/// and the fixed-point sine is non-decreasing.
pub proof fn lemma_counts_monotone(s: SphereSpec, i: int, j: int)
    requires
        spec_valid(s),
        spec_in_range(s),
        1 <= i <= j <= spec_n_pairs(s),
    ensures
        spec_stitch_count(s, i) <= spec_stitch_count(s, j),
{
    let n = spec_n_pairs(s);
    lemma_n_pairs_bounds(s);
    lemma_mul_inequality(i, j, 65536);
    lemma_div_is_ordered(i * 65536, j * 65536, n);
    lemma_sin_q_mono(spec_angle_frac(s, i), spec_angle_frac(s, j));
    let b = PI_NUM as int * s.stitches_per_unit_milli * s.diameter_milli;
    assert(b >= 1) by (nonlinear_arith)
        requires
            b == PI_NUM as int * s.stitches_per_unit_milli * s.diameter_milli,
            s.stitches_per_unit_milli >= 1,
            s.diameter_milli >= 1,
    ;
    lemma_mul_left_inequality(
        b,
        sin_q(spec_angle_frac(s, i)),
        sin_q(spec_angle_frac(s, j)),
    );
    lemma_div_is_ordered(
        2 * (b * sin_q(spec_angle_frac(s, i))) + COUNT_DEN as int,
        2 * (b * sin_q(spec_angle_frac(s, j))) + COUNT_DEN as int,
        2 * COUNT_DEN as int,
    );
}

/// Derive the full ordered sequence of row-pairs for a sphere spec. Rejects
/// an invalid spec (any quantity zero or negative) and otherwise returns
/// exactly the rows that the spec-level geometry functions describe.
pub fn compute_row_pairs(s: &SphereSpec) -> (r: Result<Vec<RowPair>, PatternError>)
    requires
        spec_in_range(*s),
    ensures
        r is Ok <==> spec_valid(*s),
        r matches Ok(rows) ==> {
            &&& rows@.len() == spec_n_pairs(*s)
            &&& forall|k: int|
                0 <= k < rows@.len() ==> rows@[k] == spec_row_pair(*s, k + 1)
            &&& rows@ == spec_rows(*s)
        },
        r matches Err(e) ==> e == PatternError::InvalidInput,
{
    if !s.is_valid() {
        return Err(PatternError::InvalidInput);
    }
    proof {
        lemma_n_pairs_bounds(*s);
    }
    let d: u128 = s.diameter_milli as u128;
    let spu: u128 = s.stitches_per_unit_milli as u128;
    let rpu: u128 = s.rows_per_unit_milli as u128;
    assert(PI_NUM as int * d as int * rpu as int
        <= 3_141_592_653_589_793_000_000_000_000) by (nonlinear_arith)
        requires
            1 <= d as int <= 1_000_000,
            1 <= rpu as int <= 1_000_000,
    ;
    let nnum: u128 = PI_NUM * d * rpu;
    let n128: u128 = (nnum + (N_DEN - 1)) / N_DEN;
    assert(n128 as int == spec_n_pairs(*s));
    let n: u32 = n128 as u32;
    let mut rows: Vec<RowPair> = Vec::new();
    let mut i: u32 = 1;
    while i <= n
        invariant
            spec_valid(*s),
            spec_in_range(*s),
            d == s.diameter_milli as u128,
            spu == s.stitches_per_unit_milli as u128,
            rpu == s.rows_per_unit_milli as u128,
            n as int == spec_n_pairs(*s),
            1 <= n <= MAX_ROW_PAIRS,
            1 <= i <= n + 1,
            rows@.len() == i - 1,
            forall|k: int| 0 <= k < rows@.len() ==> rows@[k] == spec_row_pair(*s, k + 1),
        decreases n + 1 - i,
    {
        proof {
            lemma_angle_frac_bounds(*s, i as int);
            lemma_stitch_count_bounds(*s, i as int);
            lemma_radius_bounds(*s, i as int);
            lemma_circumference_bounds(*s, i as int);
        }
        let ufrac: u64 = (i as u64) * 65536 / (n as u64);
        assert(ufrac as int == spec_angle_frac(*s, i as int));
        let sq: u32 = sin_q_exec(ufrac as u32);
        proof {
            lemma_sin_q_bounds(ufrac as int);
        }
        assert(PI_NUM as int * spu as int * d as int
            <= 3_141_592_653_589_793_000_000_000_000) by (nonlinear_arith)
            requires
                1 <= spu as int <= 1_000_000,
                1 <= d as int <= 1_000_000,
        ;
        assert(PI_NUM as int * spu as int * d as int * sq as int
            <= 205_931_088_705_775_736_913_920_000_000_000) by (nonlinear_arith)
            requires
                1 <= spu as int <= 1_000_000,
                1 <= d as int <= 1_000_000,
                0 <= sq as int <= 65536,
        ;
        let cnum: u128 = PI_NUM * spu * d * (sq as u128);
        let count: u128 = (2 * cnum + COUNT_DEN) / (2 * COUNT_DEN);
        assert(1000 * d as int * sq as int <= 65_536_000_000_000) by (nonlinear_arith)
            requires
                1 <= d as int <= 1_000_000,
                0 <= sq as int <= 65536,
        ;
        let rnum: u64 = 1000 * (d as u64) * (sq as u64);
        let radius: u64 = (rnum + 65536) / 131072;
        assert(PI_NUM as int * d as int * 1000 * sq as int
            <= 205_931_088_705_775_736_913_920_000_000) by (nonlinear_arith)
            requires
                1 <= d as int <= 1_000_000,
                0 <= sq as int <= 65536,
        ;
        let cirnum: u128 = PI_NUM * d * 1000 * (sq as u128);
        let circ: u128 = (2 * cirnum + CIRC_DEN) / (2 * CIRC_DEN);
        let row = RowPair {
            index: i,
            angle_frac: ufrac as u32,
            radius_micro: radius,
            circumference_micro: circ as u64,
            stitch_count: count as u32,
        };
        assert(row == spec_row_pair(*s, i as int));
        rows.push(row);
        i = i + 1;
    }
    proof {
        assert(rows@ =~= spec_rows(*s));
    }
    Ok(rows)
}

} // verus!
