//! Increase diff engine: pairwise difference of consecutive target stitch
//! counts. The first row-pair is the cast-on and carries no increase; every
//! later one carries exactly the difference to its predecessor, with no
//! smoothing or clamping.

use vstd::prelude::*;

verus! {

use crate::geometry::RowPair;

/// One row-pair with its stitch increase relative to the previous row-pair;
/// `None` marks the cast-on pair, which has no predecessor.
#[derive(Clone, Copy, Debug)]
pub struct RowDelta {
    pub row: RowPair,
    pub increase: Option<i64>,
}

/// The stitch counts of a row sequence, in order.
pub open spec fn spec_counts_of_rows(rows: Seq<RowPair>) -> Seq<int> {
    rows.map_values(|r: RowPair| r.stitch_count as int)
}

/// The stitch counts carried by a delta sequence, in order.
pub open spec fn spec_counts_of_deltas(ds: Seq<RowDelta>) -> Seq<int> {
    ds.map_values(|d: RowDelta| d.row.stitch_count as int)
}

/// The increase owed at position `i` of a count sequence: none at the
/// cast-on, else the exact difference to the previous count.
pub open spec fn spec_increase_at(counts: Seq<int>, i: int) -> Option<i64> {
    if i == 0 {
        None
    } else {
        Some((counts[i] - counts[i - 1]) as i64)
    }
}

/// A delta sequence is well formed over a count sequence when each entry
/// carries exactly the owed increase.
pub open spec fn spec_deltas_form(ds: Seq<RowDelta>) -> bool {
    forall|i: int|
        0 <= i < ds.len() ==> ds[i].increase == spec_increase_at(spec_counts_of_deltas(ds), i)
}

/// Pure pairwise difference: same length and order as the input, each delta
/// carrying its row unchanged and the exact count difference (absent for the
/// first row-pair).
pub fn diff_rows(rows: &Vec<RowPair>) -> (ds: Vec<RowDelta>)
    ensures
        ds@.len() == rows@.len(),
        forall|i: int| 0 <= i < ds@.len() ==> ds@[i].row == rows@[i],
        forall|i: int|
            0 <= i < ds@.len() ==> ds@[i].increase == spec_increase_at(
                spec_counts_of_rows(rows@),
                i,
            ),
        spec_deltas_form(ds@),
        spec_counts_of_deltas(ds@) == spec_counts_of_rows(rows@),
{
    let mut ds: Vec<RowDelta> = Vec::new();
    let mut i: usize = 0;
    while i < rows.len()
        invariant
            i <= rows@.len(),
            ds@.len() == i,
            forall|j: int| 0 <= j < i ==> ds@[j].row == rows@[j],
            forall|j: int|
                0 <= j < i ==> ds@[j].increase == spec_increase_at(
                    spec_counts_of_rows(rows@),
                    j,
                ),
        decreases rows@.len() - i,
    {
        let inc: Option<i64> = if i == 0 {
            None
        } else {
            Some(rows[i].stitch_count as i64 - rows[i - 1].stitch_count as i64)
        };
        ds.push(RowDelta { row: rows[i], increase: inc });
        i = i + 1;
    }
    proof {
        assert(spec_counts_of_deltas(ds@) =~= spec_counts_of_rows(rows@));
    }
    ds
}

} // verus!
