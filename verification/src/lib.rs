//! Verified generator of row-by-row knitting instructions for a sphere
//! worked in the round: from a diameter and a gauge it derives the target
//! stitch count of each latitude row-pair, the increase between consecutive
//! row-pairs, and the text of each row instruction, with increases spread
//! evenly across the row at a seeded pseudo-random offset.
//!
//! Lengths are carried as thousandths of the (arbitrary) length unit, so the
//! whole pipeline is exact integer arithmetic with contracts pinning every
//! intermediate value.

use vstd::prelude::*;

pub mod diff;
pub mod geometry;
pub mod rng;
pub mod shape;
pub mod text;
pub mod trig;

verus! {

use crate::diff::diff_rows;
use crate::diff::spec_counts_of_rows;
use crate::geometry::compute_row_pairs;
use crate::geometry::lemma_counts_monotone;
use crate::geometry::lemma_n_pairs_bounds;
use crate::geometry::lemma_stitch_count_bounds;
use crate::geometry::spec_counts;
use crate::geometry::spec_n_pairs;
use crate::geometry::spec_rows;
use crate::geometry::spec_stitch_count;
use crate::geometry::RowPair;
use crate::rng::SeededRng;
use crate::shape::make_shapes;
use crate::shape::spec_accounting_ok;
use crate::shape::spec_shapes;
use crate::shape::RowShape;
use crate::text::render_pattern;
use crate::text::spec_lines_of_shapes;

/// Input to one computation run: sphere diameter and fabric gauge, all in
/// thousandths of one common length unit. Values are signed so that invalid
/// (zero or negative) requests can be represented and rejected explicitly.
#[derive(Clone, Copy, PartialEq, Eq, Structural, Debug)]
pub struct SphereSpec {
    pub diameter_milli: i64,
    pub stitches_per_unit_milli: i64,
    pub rows_per_unit_milli: i64,
}

/// Largest accepted input, in thousandths of a unit (a thousand units):
/// keeps every intermediate product inside `u128`.
pub const MAX_INPUT_MILLI: i64 = 1_000_000;

/// A spec is valid when all three quantities are strictly positive.
pub open spec fn spec_valid(s: SphereSpec) -> bool {
    &&& s.diameter_milli >= 1
    &&& s.stitches_per_unit_milli >= 1
    &&& s.rows_per_unit_milli >= 1
}

/// Machine bound on inputs, distinct from validity: callers must stay below
/// `MAX_INPUT_MILLI` so the fixed-point arithmetic cannot overflow.
pub open spec fn spec_in_range(s: SphereSpec) -> bool {
    &&& s.diameter_milli <= MAX_INPUT_MILLI
    &&& s.stitches_per_unit_milli <= MAX_INPUT_MILLI
    &&& s.rows_per_unit_milli <= MAX_INPUT_MILLI
}

/// The one failure the engine reports: an input that is zero or negative
/// (or, at the caller's boundary, absent or non-finite).
#[derive(Clone, Copy, PartialEq, Eq, Structural, Debug)]
pub enum PatternError {
    InvalidInput,
}

impl SphereSpec {
    /// True exactly when the engine will accept this spec.
    pub fn is_valid(&self) -> (r: bool)
        ensures
            r == spec_valid(*self),
    {
        self.diameter_milli >= 1 && self.stitches_per_unit_milli >= 1
            && self.rows_per_unit_milli >= 1
    }
}

/// The fixed seed of the per-run random stream: every computation run
/// re-seeds identically, so identical specs reproduce identical patterns.
pub const SEED: u64 = 123;

/// The structured shaping decisions of the whole pattern: a pure function
/// of the sphere spec alone.
pub open spec fn spec_pattern_shapes(s: SphereSpec) -> Seq<RowShape> {
    spec_shapes(spec_counts(s), SEED)
}

/// Every line of the pattern, in order: a pure function of the sphere spec
/// alone, which is what makes the output reproducible.
pub open spec fn spec_pattern_lines(s: SphereSpec) -> Seq<Seq<char>> {
    spec_lines_of_shapes(spec_pattern_shapes(s))
}

/// Derive the structured shape of every row-pair for a sphere spec: the
/// geometry model, the diff engine and the policy selection composed,
/// without text rendering. Rejects an invalid spec.
pub fn compute_shapes(s: &SphereSpec) -> (r: Result<Vec<RowShape>, PatternError>)
    requires
        spec_in_range(*s),
    ensures
        r is Ok <==> spec_valid(*s),
        r matches Ok(shapes) ==> {
            &&& shapes@ == spec_pattern_shapes(*s)
            &&& shapes@.len() == spec_n_pairs(*s)
            &&& forall|i: int| 0 <= i < shapes@.len() ==> spec_accounting_ok(shapes@[i])
            &&& forall|i: int|
                0 <= i < shapes@.len() ==> (#[trigger] shapes@[i] matches RowShape::Distributed {
                    blocks,
                    ..
                } ==> blocks >= 1)
        },
        r matches Err(e) ==> e == PatternError::InvalidInput,
{
    let rows = match compute_row_pairs(s) {
        Ok(v) => v,
        Err(e) => { return Err(e) },
    };
    let deltas = diff_rows(&rows);
    proof {
        assert forall|k: int| 0 <= k < rows@.len() implies #[trigger] spec_counts_of_rows(
            rows@,
        )[k] == spec_counts(*s)[k] by {
            lemma_stitch_count_bounds(*s, k + 1);
        }
        assert(spec_counts_of_rows(rows@) =~= spec_counts(*s));
    }
    let mut stream = SeededRng::new(SEED);
    let shapes = make_shapes(&deltas, &mut stream);
    Ok(shapes)
}

/// The engine's one logical operation: from a sphere spec to the ordered
/// list of instruction lines, two per row-pair. A successful result is
/// exactly `spec_pattern_lines` of the input — a pure function of the spec —
/// and an invalid spec (any quantity zero or negative) is refused.
pub fn generate_pattern(s: &SphereSpec) -> (r: Result<Vec<String>, PatternError>)
    requires
        spec_in_range(*s),
    ensures
        r is Ok <==> spec_valid(*s),
        r matches Ok(lines) ==> {
            &&& lines@.map_values(|l: String| l@) == spec_pattern_lines(*s)
            &&& lines@.len() == 2 * spec_n_pairs(*s)
        },
        r matches Err(e) ==> e == PatternError::InvalidInput,
{
    let shapes = match compute_shapes(s) {
        Ok(v) => v,
        Err(e) => { return Err(e) },
    };
    proof {
        lemma_n_pairs_bounds(*s);
    }
    let lines = render_pattern(&shapes);
    Ok(lines)
}

/// Determinism: two computation runs on identical sphere specs produce
/// identical instruction sequences. Every successful run returns exactly
/// `spec_pattern_lines` of its input, so any two results coincide — the
/// seeded stream is re-created identically each run.
pub proof fn lemma_pattern_deterministic(
    s: SphereSpec,
    first: Seq<Seq<char>>,
    second: Seq<Seq<char>>,
)
    requires
        first == spec_pattern_lines(s),
        second == spec_pattern_lines(s),
    ensures
        first == second,
{
}

/// Idempotence of geometry: re-deriving the row-pair sequence from the same
/// sphere spec yields the same sequence; the model keeps no memory of
/// earlier runs.
pub proof fn lemma_geometry_idempotent(s: SphereSpec, first: Seq<RowPair>, second: Seq<RowPair>)
    requires
        first == spec_rows(s),
        second == spec_rows(s),
    ensures
        first == second,
{
}

/// Monotone geometry: every valid in-range spec yields at least one
/// row-pair, and the target stitch count never decreases from one row-pair
/// to a later one.
pub proof fn lemma_geometry_monotone(s: SphereSpec, i: int, j: int)
    requires
        spec_valid(s),
        spec_in_range(s),
        1 <= i <= j <= spec_n_pairs(s),
    ensures
        spec_n_pairs(s) >= 1,
        spec_stitch_count(s, i) <= spec_stitch_count(s, j),
{
    lemma_n_pairs_bounds(s);
    lemma_counts_monotone(s, i, j);
}

/// Boundary: a spec whose geometry collapses to a single row-pair produces
/// exactly one cast-on instruction pair, i.e. two text lines.
pub proof fn lemma_single_pair_two_lines(s: SphereSpec)
    requires
        spec_valid(s),
        spec_in_range(s),
        spec_n_pairs(s) == 1,
    ensures
        spec_pattern_lines(s).len() == 2,
        spec_pattern_shapes(s)[0] is CastOn,
{
}

} // verus!
