//! Text rendering, kept apart from the numeric decisions: each structured
//! row shape is turned into its two instruction lines. Decimal conversion is
//! verified against a recursive digit spec, so every rendered line is pinned
//! character for character.

use vstd::prelude::*;

verus! {

use vstd::string::StringExecFns;
use crate::shape::RowShape;

/// The decimal digit character for a value in `[0, 9]`.
pub open spec fn spec_digit(d: int) -> char {
    if d == 0 {
        '0'
    } else if d == 1 {
        '1'
    } else if d == 2 {
        '2'
    } else if d == 3 {
        '3'
    } else if d == 4 {
        '4'
    } else if d == 5 {
        '5'
    } else if d == 6 {
        '6'
    } else if d == 7 {
        '7'
    } else if d == 8 {
        '8'
    } else {
        '9'
    }
}

/// The decimal text of a non-negative integer, most significant digit first.
pub open spec fn spec_dec(n: int) -> Seq<char>
    decreases n,
{
    if n <= 9 {
        seq![spec_digit(n)]
    } else {
        spec_dec(n / 10).push(spec_digit(n % 10))
    }
}

/// The one-character string for a decimal digit.
fn digit_str(d: u64) -> (r: &'static str)
    requires
        d <= 9,
    ensures
        r@ == seq![spec_digit(d as int)],
{
    proof {
        reveal_strlit("0");
        reveal_strlit("1");
        reveal_strlit("2");
        reveal_strlit("3");
        reveal_strlit("4");
        reveal_strlit("5");
        reveal_strlit("6");
        reveal_strlit("7");
        reveal_strlit("8");
        reveal_strlit("9");
    }
    let r: &'static str = if d == 0 {
        "0"
    } else if d == 1 {
        "1"
    } else if d == 2 {
        "2"
    } else if d == 3 {
        "3"
    } else if d == 4 {
        "4"
    } else if d == 5 {
        "5"
    } else if d == 6 {
        "6"
    } else if d == 7 {
        "7"
    } else if d == 8 {
        "8"
    } else {
        "9"
    };
    proof {
        assert(r@ =~= seq![spec_digit(d as int)]);
    }
    r
}

/// Append the decimal text of `n` to a string.
pub fn push_dec(s: &mut String, n: u64)
    ensures
        final(s)@ == old(s)@ + spec_dec(n as int),
    decreases n,
{
    if n <= 9 {
        let d = digit_str(n);
        s.append(d);
    } else {
        push_dec(s, n / 10);
        let d = digit_str(n % 10);
        s.append(d);
        proof {
            assert(old(s)@ + spec_dec(n as int) =~= (old(s)@ + spec_dec(n as int / 10)) + seq![
                spec_digit(n as int % 10),
            ]);
        }
    }
}

/// The count a shape leaves on the needles after its row-pair.
pub open spec fn spec_count_of_shape(sh: RowShape) -> int {
    match sh {
        RowShape::CastOn { count } => count as int,
        RowShape::Uniform { inc: _, count } => count as int,
        RowShape::Distributed { before: _, block_size: _, blocks: _, after: _, inc: _, count } =>
            count as int,
        RowShape::Single { inc: _, count } => count as int,
        RowShape::Plain { count } => count as int,
    }
}

/// The plain companion row: knit across the row's stitches.
pub open spec fn spec_plain_line(count: int, row: int) -> Seq<char> {
    "Row "@ + spec_dec(row) + ": k"@ + spec_dec(count)
}

/// The shaping line of a row shape at a given row number.
pub open spec fn spec_shaping_line(sh: RowShape, row: int) -> Seq<char> {
    match sh {
        RowShape::CastOn { count } => "Row "@ + spec_dec(row) + ": Cast on "@ + spec_dec(
            count as int,
        ) + " stitches"@,
        RowShape::Uniform { inc, count } => "Row "@ + spec_dec(row)
            + ": *k1,inc rep from * to end (total of "@ + spec_dec(inc as int) + " inc, "@
            + spec_dec(count as int) + " st total)"@,
        RowShape::Distributed { before, block_size, blocks, after, inc, count } => "Row "@
            + spec_dec(row) + ": k"@ + spec_dec(before as int) + " st, inc, * k"@ + spec_dec(
            block_size as int,
        ) + ", inc, rep from * "@ + spec_dec(blocks as int - 1) + " times, k"@ + spec_dec(
            after as int,
        ) + " (total of "@ + spec_dec(inc as int) + " inc, "@ + spec_dec(count as int)
            + " st total)"@,
        RowShape::Single { inc, count } => "Row "@ + spec_dec(row) + ": Knit, inc. by total of "@
            + spec_dec(inc as int) + " st for total of "@ + spec_dec(count as int) + " st in row"@,
        RowShape::Plain { count } => spec_plain_line(count as int, row),
    }
}

/// Render the plain companion row for a stitch count.
pub fn render_plain_line(count: u32, row: u64) -> (line: String)
    ensures
        line@ == spec_plain_line(count as int, row as int),
{
    let mut s = String::new();
    s.append("Row ");
    push_dec(&mut s, row);
    s.append(": k");
    push_dec(&mut s, count as u64);
    s
}

/// Render the shaping line of a row shape at a given row number.
pub fn render_shaping_line(sh: &RowShape, row: u64) -> (line: String)
    requires
        sh matches RowShape::Distributed { blocks, .. } ==> blocks >= 1,
    ensures
        line@ == spec_shaping_line(*sh, row as int),
{
    let mut s = String::new();
    s.append("Row ");
    push_dec(&mut s, row);
    match sh {
        RowShape::CastOn { count } => {
            s.append(": Cast on ");
            push_dec(&mut s, *count as u64);
            s.append(" stitches");
        },
        RowShape::Uniform { inc, count } => {
            s.append(": *k1,inc rep from * to end (total of ");
            push_dec(&mut s, *inc as u64);
            s.append(" inc, ");
            push_dec(&mut s, *count as u64);
            s.append(" st total)");
        },
        RowShape::Distributed { before, block_size, blocks, after, inc, count } => {
            s.append(": k");
            push_dec(&mut s, *before as u64);
            s.append(" st, inc, * k");
            push_dec(&mut s, *block_size as u64);
            s.append(", inc, rep from * ");
            push_dec(&mut s, (*blocks as u64) - 1);
            s.append(" times, k");
            push_dec(&mut s, *after as u64);
            s.append(" (total of ");
            push_dec(&mut s, *inc as u64);
            s.append(" inc, ");
            push_dec(&mut s, *count as u64);
            s.append(" st total)");
        },
        RowShape::Single { inc, count } => {
            s.append(": Knit, inc. by total of ");
            push_dec(&mut s, *inc as u64);
            s.append(" st for total of ");
            push_dec(&mut s, *count as u64);
            s.append(" st in row");
        },
        RowShape::Plain { count } => {
            s.append(": k");
            push_dec(&mut s, *count as u64);
        },
    }
    s
}

/// The full instruction list for a shape sequence: two lines per row-pair,
/// in index order, rows numbered sequentially from 1.
pub open spec fn spec_lines_of_shapes(shapes: Seq<RowShape>) -> Seq<Seq<char>> {
    Seq::new(
        2 * shapes.len(),
        |j: int|
            if j % 2 == 0 {
                spec_shaping_line(shapes[j / 2], j + 1)
            } else {
                spec_plain_line(spec_count_of_shape(shapes[j / 2]), j + 1)
            },
    )
}

/// Render every row-pair's two lines, in order: the shaping line then the
/// plain companion line, with sequential row numbers starting at 1.
pub fn render_pattern(shapes: &Vec<RowShape>) -> (lines: Vec<String>)
    requires
        shapes@.len() <= 1_000_000,
        forall|i: int|
            0 <= i < shapes@.len() ==> (#[trigger] shapes@[i] matches RowShape::Distributed {
                blocks,
                ..
            } ==> blocks >= 1),
    ensures
        lines@.len() == 2 * shapes@.len(),
        lines@.map_values(|l: String| l@) == spec_lines_of_shapes(shapes@),
{
    let mut lines: Vec<String> = Vec::new();
    let mut k: usize = 0;
    while k < shapes.len()
        invariant
            shapes@.len() <= 1_000_000,
            forall|i: int|
                0 <= i < shapes@.len() ==> (#[trigger] shapes@[i] matches RowShape::Distributed {
                    blocks,
                    ..
                } ==> blocks >= 1),
            k <= shapes@.len(),
            lines@.len() == 2 * k,
            forall|j: int|
                0 <= j < 2 * k ==> lines@[j]@ == spec_lines_of_shapes(shapes@)[j],
        decreases shapes@.len() - k,
    {
        let row1: u64 = 2 * (k as u64) + 1;
        let row2: u64 = 2 * (k as u64) + 2;
        let shaping = render_shaping_line(&shapes[k], row1);
        let count: u32 = count_of_shape(&shapes[k]);
        let plain = render_plain_line(count, row2);
        lines.push(shaping);
        lines.push(plain);
        k = k + 1;
    }
    proof {
        assert(lines@.map_values(|l: String| l@) =~= spec_lines_of_shapes(shapes@));
    }
    lines
}

/// The stitch count a shape carries, as executable code.
pub fn count_of_shape(sh: &RowShape) -> (c: u32)
    ensures
        c as int == spec_count_of_shape(*sh),
{
    match sh {
        RowShape::CastOn { count } => *count,
        RowShape::Uniform { inc: _, count } => *count,
        RowShape::Distributed { before: _, block_size: _, blocks: _, after: _, inc: _, count } => *count,
        RowShape::Single { inc: _, count } => *count,
        RowShape::Plain { count } => *count,
    }
}

} // verus!
