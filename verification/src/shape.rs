//! Policy selection for each row-pair: which kind of shaping row it gets and
//! the exact block numbers, separated from text rendering. The four policies,
//! in priority order: uniform doubling, distributed increases (with a seeded
//! random placement offset), a single unplaced increase, and a plain row for
//! a zero or negative increase. The stitch-accounting invariant of the
//! distributed policy is proved once and for all.

use vstd::prelude::*;

verus! {

use vstd::arithmetic::div_mod::lemma_fundamental_div_mod;
use vstd::arithmetic::div_mod::lemma_mod_bound;
use vstd::arithmetic::div_mod::lemma_div_pos_is_pos;
use crate::diff::RowDelta;
use crate::diff::spec_counts_of_deltas;
use crate::diff::spec_increase_at;
use crate::diff::spec_deltas_form;
use crate::rng::SeededRng;
use crate::rng::std_draw;

/// The structured shaping decision for one row-pair, before any text is
/// rendered: the policy and its exact numbers.
#[derive(Clone, Copy, PartialEq, Eq, Structural, Debug)]
pub enum RowShape {
    /// The first row-pair: cast on `count` stitches.
    CastOn { count: u32 },
    /// Every base stitch is doubled: `inc` increases reach `count`.
    Uniform { inc: u32, count: u32 },
    /// `inc` increases spread over the base stitches: knit `before`, then
    /// `blocks - 1` blocks of `block_size` stitches each followed by an
    /// increase, then knit `after`.
    Distributed { before: u32, block_size: u32, blocks: u32, after: u32, inc: u32, count: u32 },
    /// One (or a handful of) increase(s) with no fixed placement.
    Single { inc: u32, count: u32 },
    /// No increase: knit across `count` stitches.
    Plain { count: u32 },
}

/// Block count of a distributed row: one more than the increase count.
pub open spec fn spec_blocks(inc: int) -> int {
    inc + 1
}

/// Stitches per block before increasing: the base stitches split evenly.
pub open spec fn spec_block_size(inc: int, count: int) -> int {
    (count - inc) / (inc + 1)
}

/// Base stitches left over after the even split.
pub open spec fn spec_rem(inc: int, count: int) -> int {
    (count - inc) % (inc + 1)
}

/// The random draw's exclusive upper bound: the leftover plus one block is
/// absorbed asymmetrically at the two ends of the row.
pub open spec fn spec_draw_bound(inc: int, count: int) -> int {
    spec_rem(inc, count) + spec_block_size(inc, count)
}

/// A row-pair gets the distributed policy when it is not uniform doubling,
/// adds more than one stitch, and has at least one base stitch to spread
/// them over.
pub open spec fn spec_is_distributed(inc: int, count: int) -> bool {
    &&& 2 * inc != count
    &&& inc > 1
    &&& count > inc
}

/// The policy and its numbers for one row-pair past the first, given the
/// increase, the target count and the random draw (used only by the
/// distributed policy). Priority order: uniform doubling, distributed,
/// single increase, plain row.
pub open spec fn spec_shape(inc: int, count: int, draw: u32) -> RowShape {
    if 2 * inc == count {
        RowShape::Uniform { inc: inc as u32, count: count as u32 }
    } else if spec_is_distributed(inc, count) {
        RowShape::Distributed {
            before: draw,
            block_size: spec_block_size(inc, count) as u32,
            blocks: spec_blocks(inc) as u32,
            after: (spec_draw_bound(inc, count) - draw - 1) as u32,
            inc: inc as u32,
            count: count as u32,
        }
    } else if inc >= 1 {
        RowShape::Single { inc: inc as u32, count: count as u32 }
    } else {
        RowShape::Plain { count: count as u32 }
    }
}

/// The draw bounds already consumed before row `upto`: one per earlier
/// distributed row, in index order.
pub open spec fn spec_past_bounds(counts: Seq<int>, upto: int) -> Seq<u32>
    decreases upto,
{
    if upto <= 1 {
        Seq::empty()
    } else {
        let i = upto - 1;
        let prev = spec_past_bounds(counts, i);
        if spec_is_distributed(counts[i] - counts[i - 1], counts[i]) {
            prev.push(spec_draw_bound(counts[i] - counts[i - 1], counts[i]) as u32)
        } else {
            prev
        }
    }
}

/// The seeded draw that row `i` receives: a pure function of the seed, the
/// earlier draws and this row's bound.
pub open spec fn spec_draw_at(counts: Seq<int>, seed: u64, i: int) -> u32 {
    std_draw(
        seed,
        spec_past_bounds(counts, i),
        spec_draw_bound(counts[i] - counts[i - 1], counts[i]) as u32,
    )
}

/// The shape of row `i` of a count sequence under a given seed.
pub open spec fn spec_shape_at(counts: Seq<int>, seed: u64, i: int) -> RowShape {
    if i == 0 {
        RowShape::CastOn { count: counts[0] as u32 }
    } else {
        spec_shape(counts[i] - counts[i - 1], counts[i], spec_draw_at(counts, seed, i))
    }
}

/// The whole shape sequence of a count sequence under a given seed: the
/// pattern's structured content is a pure function of these two values.
pub open spec fn spec_shapes(counts: Seq<int>, seed: u64) -> Seq<RowShape> {
    Seq::new(counts.len(), |i: int| spec_shape_at(counts, seed, i))
}

/// The stitch-accounting invariant: in a distributed row, the stitches
/// knitted before the first increase, the first increase, the repeated
/// blocks with their increases, and the stitches after the last increase
/// together make exactly the row's target count.
pub open spec fn spec_accounting_ok(sh: RowShape) -> bool {
    match sh {
        RowShape::Distributed { before, block_size, blocks, after, inc, count } => before as int
            + 1 + (block_size as int + 1) * (blocks as int - 1) + after as int == count as int,
        _ => true,
    }
}

/// Basic facts about the distributed split of `count - inc` base stitches
/// into `inc + 1` blocks: block size and leftover are non-negative, the draw
/// bound is at least 1 and no more than the base count, and the split adds
/// back up.
pub proof fn lemma_split_facts(inc: int, count: int)
    requires
        spec_is_distributed(inc, count),
    ensures
        0 <= spec_block_size(inc, count),
        0 <= spec_rem(inc, count) < inc + 1,
        1 <= spec_draw_bound(inc, count) <= count - inc,
        (inc + 1) * spec_block_size(inc, count) + spec_rem(inc, count) == count - inc,
{
    let m = count - inc;
    let blocks = inc + 1;
    let bs = spec_block_size(inc, count);
    let rem = spec_rem(inc, count);
    lemma_fundamental_div_mod(m, blocks);
    lemma_mod_bound(m, blocks);
    lemma_div_pos_is_pos(m, blocks);
    assert(bs + rem >= 1 && bs + rem <= m) by (nonlinear_arith)
        requires
            blocks * bs + rem == m,
            blocks >= 3,
            m >= 1,
            bs >= 0,
            0 <= rem < blocks,
    ;
}

/// The stitch-accounting invariant holds of every distributed shape whose
/// draw is below its bound, whatever value the draw took.
pub proof fn lemma_stitch_accounting(inc: int, count: int, draw: u32)
    requires
        spec_is_distributed(inc, count),
        count <= u32::MAX,
        (draw as int) < spec_draw_bound(inc, count),
    ensures
        spec_accounting_ok(spec_shape(inc, count, draw)),
{
    lemma_split_facts(inc, count);
    let m = count - inc;
    let bs = spec_block_size(inc, count);
    let rem = spec_rem(inc, count);
    let after = spec_draw_bound(inc, count) - draw - 1;
    assert(draw as int + 1 + (bs + 1) * (inc + 1 - 1) + after == count) by (nonlinear_arith)
        requires
            (inc + 1) * bs + rem == m,
            m == count - inc,
            after == rem + bs - draw - 1,
    ;
}

/// Turn a delta sequence into the structured shape of every row-pair,
/// consuming the seeded stream strictly in index order: the result is the
/// spec-level shape sequence of the counts under the stream's seed, and
/// every shape satisfies the stitch-accounting invariant.
pub fn make_shapes(deltas: &Vec<RowDelta>, rng: &mut SeededRng) -> (shapes: Vec<RowShape>)
    requires
        spec_deltas_form(deltas@),
        old(rng).spec_drawn() == Seq::<u32>::empty(),
    ensures
        shapes@ == spec_shapes(spec_counts_of_deltas(deltas@), old(rng).spec_seed()),
        forall|i: int| 0 <= i < shapes@.len() ==> spec_accounting_ok(shapes@[i]),
        forall|i: int|
            0 <= i < shapes@.len() ==> (#[trigger] shapes@[i] matches RowShape::Distributed {
                blocks,
                ..
            } ==> blocks >= 1),
        final(rng).spec_seed() == old(rng).spec_seed(),
{
    let ghost counts = spec_counts_of_deltas(deltas@);
    let ghost seed = old(rng).spec_seed();
    let mut shapes: Vec<RowShape> = Vec::new();
    let mut i: usize = 0;
    while i < deltas.len()
        invariant
            spec_deltas_form(deltas@),
            counts == spec_counts_of_deltas(deltas@),
            seed == old(rng).spec_seed(),
            i <= deltas@.len(),
            shapes@.len() == i,
            forall|j: int| 0 <= j < i ==> shapes@[j] == spec_shape_at(counts, seed, j),
            forall|j: int| 0 <= j < i ==> spec_accounting_ok(shapes@[j]),
            forall|j: int|
                0 <= j < i ==> (#[trigger] shapes@[j] matches RowShape::Distributed {
                    blocks,
                    ..
                } ==> blocks >= 1),
            rng.spec_seed() == seed,
            rng.spec_drawn() == spec_past_bounds(counts, i as int),
        decreases deltas@.len() - i,
    {
        let count: u32 = deltas[i].row.stitch_count;
        if i == 0 {
            shapes.push(RowShape::CastOn { count });
        } else {
            let inc: i64 = match deltas[i].increase {
                Some(v) => v,
                None => {
                    proof {
                        assert(deltas@[i as int].increase == spec_increase_at(counts, i as int));
                        assert(false);
                    }
                    0
                },
            };
            proof {
                assert(deltas@[i as int].increase == spec_increase_at(counts, i as int));
                assert(inc as int == counts[i as int] - counts[i as int - 1]);
            }
            if 2 * (inc as i128) == count as i128 {
                shapes.push(RowShape::Uniform { inc: inc as u32, count });
            } else if inc > 1 && (inc as i128) < (count as i128) {
                let incu: u32 = inc as u32;
                let m: u32 = count - incu;
                let blocks: u32 = incu + 1;
                let bs: u32 = m / blocks;
                let rem: u32 = m % blocks;
                proof {
                    lemma_split_facts(inc as int, count as int);
                }
                let bound: u32 = rem + bs;
                let drawn: u32 = rng.draw(bound);
                let after: u32 = bound - drawn - 1;
                proof {
                    assert(spec_past_bounds(counts, i + 1) == spec_past_bounds(
                        counts,
                        i as int,
                    ).push(bound));
                    assert(drawn == spec_draw_at(counts, seed, i as int));
                    lemma_stitch_accounting(inc as int, count as int, drawn);
                }
                shapes.push(
                    RowShape::Distributed {
                        before: drawn,
                        block_size: bs,
                        blocks,
                        after,
                        inc: incu,
                        count,
                    },
                );
            } else if inc >= 1 {
                shapes.push(RowShape::Single { inc: inc as u32, count });
            } else {
                shapes.push(RowShape::Plain { count });
            }
        }
        i = i + 1;
    }
    proof {
        assert(shapes@ =~= spec_shapes(counts, seed));
    }
    shapes
}

} // verus!
