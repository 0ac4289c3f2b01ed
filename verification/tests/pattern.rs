use sphere_pattern::diff::diff_rows;
use sphere_pattern::generate_pattern;
use sphere_pattern::compute_shapes;
use sphere_pattern::geometry::compute_row_pairs;
use sphere_pattern::geometry::RowPair;
use sphere_pattern::rng::SeededRng;
use sphere_pattern::shape::make_shapes;
use sphere_pattern::shape::RowShape;
use sphere_pattern::PatternError;
use sphere_pattern::SphereSpec;
use sphere_pattern::SEED;

fn spec(diameter_milli: i64, stitches_per_unit_milli: i64, rows_per_unit_milli: i64) -> SphereSpec {
    SphereSpec { diameter_milli, stitches_per_unit_milli, rows_per_unit_milli }
}

fn row_with_count(index: u32, stitch_count: u32) -> RowPair {
    RowPair { index, angle_frac: 0, radius_micro: 0, circumference_micro: 0, stitch_count }
}

fn shapes_for_counts(counts: &[u32]) -> Vec<RowShape> {
    let rows: Vec<RowPair> =
        counts.iter().enumerate().map(|(i, c)| row_with_count(i as u32 + 1, *c)).collect();
    let deltas = diff_rows(&rows);
    let mut stream = SeededRng::new(SEED);
    make_shapes(&deltas, &mut stream)
}

#[test]
fn scenario_counts_and_deltas() {
    // diameter 4, 2 stitches and 2 rows per unit: 4 row-pairs with target
    // counts 10, 18, 23, 25 and increases 8, 5, 2 after the cast-on.
    let rows = compute_row_pairs(&spec(4000, 2000, 2000)).unwrap();
    assert_eq!(rows.len(), 4);
    let counts: Vec<u32> = rows.iter().map(|r| r.stitch_count).collect();
    assert_eq!(counts, vec![10, 18, 23, 25]);
    let indices: Vec<u32> = rows.iter().map(|r| r.index).collect();
    assert_eq!(indices, vec![1, 2, 3, 4]);
    let deltas = diff_rows(&rows);
    assert_eq!(deltas.len(), 4);
    assert!(deltas[0].increase.is_none());
    assert_eq!(deltas[1].increase, Some(8));
    assert_eq!(deltas[2].increase, Some(5));
    assert_eq!(deltas[3].increase, Some(2));
}

#[test]
fn scenario_geometry_fields() {
    // The equator row-pair of a diameter-4 sphere: angle a quarter turn,
    // radius 2 units, circumference 2*pi*2 = 12.566371 units.
    let rows = compute_row_pairs(&spec(4000, 2000, 2000)).unwrap();
    let angles: Vec<u32> = rows.iter().map(|r| r.angle_frac).collect();
    assert_eq!(angles, vec![16384, 32768, 49152, 65536]);
    assert_eq!(rows[3].radius_micro, 2_000_000);
    assert_eq!(rows[3].circumference_micro, 12_566_371);
    assert_eq!(rows[0].radius_micro, 765_381);
    assert_eq!(rows[0].circumference_micro, 4_809_030);
}

#[test]
fn scenario_distributed_blocks() {
    // Row-pair 2 (inc 8 into 18): 9 blocks of 1 with 1 left over, offset
    // drawn below 2. Row-pair 4 (inc 2 into 25): 3 blocks of 7 with 2 left
    // over, offset drawn below 9. The bounds hold whatever the draw.
    let shapes = compute_shapes(&spec(4000, 2000, 2000)).unwrap();
    assert_eq!(shapes.len(), 4);
    assert_eq!(shapes[0], RowShape::CastOn { count: 10 });
    match shapes[1] {
        RowShape::Distributed { before, block_size, blocks, after, inc, count } => {
            assert_eq!((block_size, blocks, inc, count), (1, 9, 8, 18));
            assert!(before < 2);
            assert_eq!(before + after, 1);
        },
        ref other => panic!("expected a distributed row, got {:?}", other),
    }
    match shapes[2] {
        RowShape::Distributed { before, block_size, blocks, after, inc, count } => {
            assert_eq!((block_size, blocks, inc, count), (3, 6, 5, 23));
            assert!(before < 3);
            assert_eq!(before + after, 2);
        },
        ref other => panic!("expected a distributed row, got {:?}", other),
    }
    match shapes[3] {
        RowShape::Distributed { before, block_size, blocks, after, inc, count } => {
            assert_eq!((block_size, blocks, inc, count), (7, 3, 2, 25));
            assert!(before < 9);
            assert_eq!(before + after, 8);
        },
        ref other => panic!("expected a distributed row, got {:?}", other),
    }
}

#[test]
fn stitch_accounting_holds() {
    // The accounting identity of every distributed row, checked on the
    // concrete scenario: before + 1 + (size+1)*(blocks-1) + after == count.
    let shapes = compute_shapes(&spec(4000, 2000, 2000)).unwrap();
    let mut distributed: u32 = 0;
    for sh in &shapes {
        if let RowShape::Distributed { before, block_size, blocks, after, inc: _, count } = *sh {
            assert_eq!(before + 1 + (block_size + 1) * (blocks - 1) + after, count);
            distributed += 1;
        }
    }
    assert_eq!(distributed, 3);
}

#[test]
fn scenario_rendered_lines() {
    let lines = generate_pattern(&spec(4000, 2000, 2000)).unwrap();
    assert_eq!(lines.len(), 8);
    assert_eq!(lines[0], "Row 1: Cast on 10 stitches");
    assert_eq!(lines[1], "Row 2: k10");
    assert!(lines[2].starts_with("Row 3: k"));
    assert!(lines[2].ends_with("(total of 8 inc, 18 st total)"));
    assert_eq!(lines[3], "Row 4: k18");
    assert!(lines[4].starts_with("Row 5: k"));
    assert!(lines[4].contains(" st, inc, * k3, inc, rep from * 5 times, k"));
    assert_eq!(lines[5], "Row 6: k23");
    assert!(lines[6].starts_with("Row 7: k"));
    assert!(lines[6].ends_with("(total of 2 inc, 25 st total)"));
    assert_eq!(lines[7], "Row 8: k25");
}

#[test]
fn identical_specs_reproduce_identical_patterns() {
    // Two runs with the same spec re-seed the stream identically and give
    // byte-identical instruction sequences.
    let a = generate_pattern(&spec(4000, 2000, 2000)).unwrap();
    let b = generate_pattern(&spec(4000, 2000, 2000)).unwrap();
    assert_eq!(a, b);
    let sa = compute_shapes(&spec(4000, 2000, 2000)).unwrap();
    let sb = compute_shapes(&spec(4000, 2000, 2000)).unwrap();
    assert_eq!(sa, sb);
    let big_a = generate_pattern(&spec(250_000, 4_500, 6_000)).unwrap();
    let big_b = generate_pattern(&spec(250_000, 4_500, 6_000)).unwrap();
    assert_eq!(big_a, big_b);
}

#[test]
fn geometry_rederivation_is_identical() {
    let a = compute_row_pairs(&spec(77_500, 3_250, 4_750)).unwrap();
    let b = compute_row_pairs(&spec(77_500, 3_250, 4_750)).unwrap();
    assert_eq!(a, b);
}

#[test]
fn single_row_pair_gives_two_lines() {
    // A one-unit sphere at one row per unit needs a single row-pair: one
    // cast-on line and one plain line.
    let lines = generate_pattern(&spec(1000, 1000, 1000)).unwrap();
    assert_eq!(lines.len(), 2);
    assert_eq!(lines[0], "Row 1: Cast on 3 stitches");
    assert_eq!(lines[1], "Row 2: k3");
}

#[test]
fn counts_never_decrease() {
    // Monotone geometry on a larger sphere: 100 units in diameter at a
    // gauge of 5 stitches and 5 rows per unit.
    let rows = compute_row_pairs(&spec(100_000, 5_000, 5_000)).unwrap();
    assert!(rows.len() >= 1);
    for w in rows.windows(2) {
        assert!(w[0].stitch_count <= w[1].stitch_count);
    }
}

#[test]
fn zero_diameter_is_refused() {
    assert_eq!(generate_pattern(&spec(0, 2000, 2000)), Err(PatternError::InvalidInput));
}

#[test]
fn negative_gauge_is_refused() {
    assert_eq!(generate_pattern(&spec(4000, -1000, 2000)), Err(PatternError::InvalidInput));
    assert_eq!(generate_pattern(&spec(4000, 2000, -1)), Err(PatternError::InvalidInput));
    assert_eq!(compute_row_pairs(&spec(4000, 2000, 0)), Err(PatternError::InvalidInput));
}

#[test]
fn uniform_doubling_policy() {
    // An increase equal to the base count doubles every stitch; uniform
    // doubling wins over the distributed policy.
    let shapes = shapes_for_counts(&[5, 10]);
    assert_eq!(shapes[1], RowShape::Uniform { inc: 5, count: 10 });
}

#[test]
fn single_increase_policy() {
    let shapes = shapes_for_counts(&[5, 6]);
    assert_eq!(shapes[1], RowShape::Single { inc: 1, count: 6 });
}

#[test]
fn zero_and_negative_increase_policy() {
    // A zero or negative increase from rounding gets a plain row, not a
    // crash of the distributed arithmetic.
    let shapes = shapes_for_counts(&[5, 5, 4]);
    assert_eq!(shapes[1], RowShape::Plain { count: 5 });
    assert_eq!(shapes[2], RowShape::Plain { count: 4 });
}

#[test]
fn growth_from_empty_row_policy() {
    // A jump from zero stitches leaves no base stitch to spread increases
    // over: the row adds its stitches without fixed placement.
    let shapes = shapes_for_counts(&[0, 4]);
    assert_eq!(shapes[1], RowShape::Single { inc: 4, count: 4 });
}

#[test]
fn rendered_policy_lines() {
    let shapes = shapes_for_counts(&[5, 10, 11, 11]);
    let lines = sphere_pattern::text::render_pattern(&shapes);
    assert_eq!(lines.len(), 8);
    assert_eq!(lines[0], "Row 1: Cast on 5 stitches");
    assert_eq!(lines[2], "Row 3: *k1,inc rep from * to end (total of 5 inc, 10 st total)");
    assert_eq!(lines[4], "Row 5: Knit, inc. by total of 1 st for total of 11 st in row");
    assert_eq!(lines[6], "Row 7: k11");
    assert_eq!(lines[7], "Row 8: k11");
}

#[test]
fn draws_are_reproducible_and_below_bound() {
    let mut first = SeededRng::new(SEED);
    let mut second = SeededRng::new(SEED);
    for bound in [2u32, 9, 3, 100, 1] {
        let a = first.draw(bound);
        let b = second.draw(bound);
        assert_eq!(a, b);
        assert!(a < bound);
    }
}
