//! The overlay's bitmap font: 5×7 glyphs for the letters of its labels, and the cells
//! a label lights on the pixel grid before it is scaled.
use vstd::prelude::*;

verus! {

/// The rows of a glyph, top first; bit 4 of a row is its left column. A character
/// without a glyph is blank.
pub open spec fn spec_glyph_rows(ch: char) -> Seq<u8> {
    if ch == 'A' {
        seq![0b01110u8, 0b10001, 0b10001, 0b11111, 0b10001, 0b10001, 0b10001]
    } else if ch == 'C' {
        seq![0b01110u8, 0b10001, 0b10000, 0b10000, 0b10000, 0b10001, 0b01110]
    } else if ch == 'D' {
        seq![0b11110u8, 0b10001, 0b10001, 0b10001, 0b10001, 0b10001, 0b11110]
    } else if ch == 'E' {
        seq![0b11111u8, 0b10000, 0b10000, 0b11110, 0b10000, 0b10000, 0b11111]
    } else if ch == 'G' {
        seq![0b01110u8, 0b10001, 0b10000, 0b10011, 0b10001, 0b10001, 0b01110]
    } else if ch == 'I' {
        seq![0b11111u8, 0b00100, 0b00100, 0b00100, 0b00100, 0b00100, 0b11111]
    } else if ch == 'N' {
        seq![0b10001u8, 0b11001, 0b10101, 0b10011, 0b10001, 0b10001, 0b10001]
    } else if ch == 'O' {
        seq![0b01110u8, 0b10001, 0b10001, 0b10001, 0b10001, 0b10001, 0b01110]
    } else if ch == 'R' {
        seq![0b11110u8, 0b10001, 0b10001, 0b11110, 0b10010, 0b10001, 0b10001]
    } else if ch == 'S' {
        seq![0b01111u8, 0b10000, 0b10000, 0b01110, 0b00001, 0b00001, 0b11110]
    } else if ch == 'T' {
        seq![0b11111u8, 0b00100, 0b00100, 0b00100, 0b00100, 0b00100, 0b00100]
    } else if ch == 'Y' {
        seq![0b10001u8, 0b10001, 0b01010, 0b00100, 0b00100, 0b00100, 0b00100]
    } else {
        seq![0u8, 0, 0, 0, 0, 0, 0]
    }
}

/// The rows of the glyph for `ch`.
pub fn glyph_rows(ch: char) -> (r: [u8; 7])
    ensures
        r@ == spec_glyph_rows(ch),
{
    let r: [u8; 7] = if ch == 'A' {
        [0b01110, 0b10001, 0b10001, 0b11111, 0b10001, 0b10001, 0b10001]
    } else if ch == 'C' {
        [0b01110, 0b10001, 0b10000, 0b10000, 0b10000, 0b10001, 0b01110]
    } else if ch == 'D' {
        [0b11110, 0b10001, 0b10001, 0b10001, 0b10001, 0b10001, 0b11110]
    } else if ch == 'E' {
        [0b11111, 0b10000, 0b10000, 0b11110, 0b10000, 0b10000, 0b11111]
    } else if ch == 'G' {
        [0b01110, 0b10001, 0b10000, 0b10011, 0b10001, 0b10001, 0b01110]
    } else if ch == 'I' {
        [0b11111, 0b00100, 0b00100, 0b00100, 0b00100, 0b00100, 0b11111]
    } else if ch == 'N' {
        [0b10001, 0b11001, 0b10101, 0b10011, 0b10001, 0b10001, 0b10001]
    } else if ch == 'O' {
        [0b01110, 0b10001, 0b10001, 0b10001, 0b10001, 0b10001, 0b01110]
    } else if ch == 'R' {
        [0b11110, 0b10001, 0b10001, 0b11110, 0b10010, 0b10001, 0b10001]
    } else if ch == 'S' {
        [0b01111, 0b10000, 0b10000, 0b01110, 0b00001, 0b00001, 0b11110]
    } else if ch == 'T' {
        [0b11111, 0b00100, 0b00100, 0b00100, 0b00100, 0b00100, 0b00100]
    } else if ch == 'Y' {
        [0b10001, 0b10001, 0b01010, 0b00100, 0b00100, 0b00100, 0b00100]
    } else {
        [0, 0, 0, 0, 0, 0, 0]
    };
    proof {
        assert(r@ =~= spec_glyph_rows(ch));
    }
    r
}

/// The weight of column `col` (0 to 4, left to right) in a row: `2^(4 - col)`.
pub open spec fn column_weight(col: int) -> int {
    if col == 0 {
        16
    } else if col == 1 {
        8
    } else if col == 2 {
        4
    } else if col == 3 {
        2
    } else {
        1
    }
}

/// Whether column `col` of `row` is lit: its bit, `row >> (4 - col) & 1`, is set.
pub open spec fn is_lit(row: u8, col: int) -> bool {
    (row as int / column_weight(col)) % 2 == 1
}

/// Where a lit cell lies in reading order: row by row, left to right.
pub open spec fn cell_order(cell: (usize, usize)) -> int {
    cell.0 * 5 + cell.1
}

/// The cells `(row, col)` that the glyph for `ch` lights, in reading order: exactly
/// those whose bit is set.
pub fn glyph_cells(ch: char) -> (r: Vec<(usize, usize)>)
    ensures
        forall|i: int|
            0 <= i < r@.len() ==> {
                let (row, col) = #[trigger] r@[i];
                row < 7 && col < 5 && is_lit(spec_glyph_rows(ch)[row as int], col as int)
            },
        forall|row: int, col: int|
            0 <= row < 7 && 0 <= col < 5 && is_lit(spec_glyph_rows(ch)[row], col) ==> exists|
                i: int,
            |
                0 <= i < r@.len() && #[trigger] r@[i] == (row as usize, col as usize),
        forall|i: int, j: int|
            0 <= i < j < r@.len() ==> cell_order(#[trigger] r@[i]) < cell_order(#[trigger] r@[j]),
{
    let rows = glyph_rows(ch);
    let weights: [u8; 5] = [16, 8, 4, 2, 1];
    let mut out: Vec<(usize, usize)> = Vec::new();
    let mut row: usize = 0;
    while row < 7
        invariant
            row <= 7,
            rows@ == spec_glyph_rows(ch),
            weights@ == seq![16u8, 8, 4, 2, 1],
            forall|i: int|
                0 <= i < out@.len() ==> {
                    let (r0, c0) = #[trigger] out@[i];
                    r0 < row && c0 < 5 && is_lit(spec_glyph_rows(ch)[r0 as int], c0 as int)
                },
            forall|r0: int, c0: int|
                0 <= r0 < row && 0 <= c0 < 5 && is_lit(spec_glyph_rows(ch)[r0], c0) ==> exists|
                    i: int,
                |
                    0 <= i < out@.len() && #[trigger] out@[i] == (r0 as usize, c0 as usize),
            forall|i: int, j: int|
                0 <= i < j < out@.len() ==> cell_order(#[trigger] out@[i]) < cell_order(
                    #[trigger] out@[j],
                ),
        decreases 7 - row,
    {
        let mut col: usize = 0;
        while col < 5
            invariant
                row < 7,
                col <= 5,
                rows@ == spec_glyph_rows(ch),
                weights@ == seq![16u8, 8, 4, 2, 1],
                forall|i: int|
                    0 <= i < out@.len() ==> {
                        let (r0, c0) = #[trigger] out@[i];
                        (r0 < row || (r0 == row && c0 < col)) && c0 < 5 && is_lit(
                            spec_glyph_rows(ch)[r0 as int],
                            c0 as int,
                        )
                    },
                forall|r0: int, c0: int|
                    0 <= c0 < 5 && (0 <= r0 < row || (r0 == row && 0 <= c0 < col)) && is_lit(
                        spec_glyph_rows(ch)[r0],
                        c0,
                    ) ==> exists|i: int|
                        0 <= i < out@.len() && #[trigger] out@[i] == (r0 as usize, c0 as usize),
                forall|i: int, j: int|
                    0 <= i < j < out@.len() ==> cell_order(#[trigger] out@[i]) < cell_order(
                        #[trigger] out@[j],
                    ),
            decreases 5 - col,
        {
            let weight = weights[col];
            assert(weight as int == column_weight(col as int));
            if (rows[row] / weight) % 2 == 1 {
                let ghost before = out@;
                out.push((row, col));
                proof {
                    assert forall|r0: int, c0: int|
                        0 <= c0 < 5 && (0 <= r0 < row || (r0 == row && 0 <= c0 < col + 1))
                            && is_lit(spec_glyph_rows(ch)[r0], c0) implies exists|i: int|
                        0 <= i < out@.len() && #[trigger] out@[i] == (
                            r0 as usize,
                            c0 as usize,
                        ) by {
                        if r0 == row && c0 == col {
                            assert(out@[before.len() as int] == (r0 as usize, c0 as usize));
                        } else {
                            let i = choose|i: int|
                                0 <= i < before.len() && #[trigger] before[i] == (
                                    r0 as usize,
                                    c0 as usize,
                                );
                            assert(out@[i] == before[i]);
                        }
                    }
                }
            }
            col = col + 1;
        }
        row = row + 1;
    }
    out
}

/// The letters the font draws.
pub open spec fn has_glyph(ch: char) -> bool {
    ch == 'A' || ch == 'C' || ch == 'D' || ch == 'E' || ch == 'G' || ch == 'I' || ch == 'N'
        || ch == 'O' || ch == 'R' || ch == 'S' || ch == 'T' || ch == 'Y'
}

/// Whether `row` reads the same from the right as from the left.
pub open spec fn row_is_mirrored(row: u8) -> bool {
    forall|col: int| 0 <= col < 5 ==> #[trigger] is_lit(row, col) == is_lit(row, 4 - col)
}

/// Whether the glyph reads the same from the right as from the left.
pub open spec fn left_right_symmetric(rows: Seq<u8>) -> bool {
    forall|row: int| 0 <= row < 7 ==> row_is_mirrored(#[trigger] rows[row])
}

/// Whether the glyph reads the same upside down (flipped top to bottom).
pub open spec fn top_bottom_symmetric(rows: Seq<u8>) -> bool {
    forall|row: int| 0 <= row < 7 ==> #[trigger] rows[row] == rows[6 - row]
}

/// Whether the glyph reads the same turned half a turn.
pub open spec fn half_turn_symmetric(rows: Seq<u8>) -> bool {
    forall|row: int, col: int|
        0 <= row < 7 && 0 <= col < 5 ==> #[trigger] is_lit(rows[row], col) == is_lit(
            rows[6 - row],
            4 - col,
        )
}

/// Whether row `row` of the glyph is a full horizontal bar.
pub open spec fn full_bar(rows: Seq<u8>, row: int) -> bool {
    forall|col: int| 0 <= col < 5 ==> #[trigger] is_lit(rows[row], col)
}

/// Whether the glyph lights no cell.
pub open spec fn is_blank(rows: Seq<u8>) -> bool {
    forall|row: int, col: int| 0 <= row < 7 && 0 <= col < 5 ==> !#[trigger] is_lit(rows[row], col)
}

proof fn lemma_column_weights()
    ensures
        column_weight(0) == 16,
        column_weight(1) == 8,
        column_weight(2) == 4,
        column_weight(3) == 2,
        column_weight(4) == 1,
{
}

proof fn lemma_left_right(ch: char)
    requires
        ch == 'A' || ch == 'I' || ch == 'O' || ch == 'T' || ch == 'Y',
    ensures
        left_right_symmetric(spec_glyph_rows(ch)),
{
    lemma_column_weights();
    let rows = spec_glyph_rows(ch);
    assert forall|row: int| 0 <= row < 7 implies row_is_mirrored(#[trigger] rows[row]) by {
        assert forall|col: int| 0 <= col < 5 implies #[trigger] is_lit(rows[row], col) == is_lit(
            rows[row],
            4 - col,
        ) by {
            if col == 0 {
            } else if col == 1 {
            } else if col == 2 {
            } else if col == 3 {
            } else {
            }
        }
    }
}

proof fn lemma_top_bottom(ch: char)
    requires
        ch == 'C' || ch == 'D' || ch == 'E' || ch == 'I' || ch == 'O',
    ensures
        top_bottom_symmetric(spec_glyph_rows(ch)),
{
    let rows = spec_glyph_rows(ch);
    assert forall|row: int| 0 <= row < 7 implies #[trigger] rows[row] == rows[6 - row] by {}
}

proof fn lemma_half_turn(ch: char)
    requires
        ch == 'I' || ch == 'O' || ch == 'S',
    ensures
        half_turn_symmetric(spec_glyph_rows(ch)),
{
    lemma_column_weights();
    let rows = spec_glyph_rows(ch);
    assert forall|row: int, col: int| 0 <= row < 7 && 0 <= col < 5 implies #[trigger] is_lit(
        rows[row],
        col,
    ) == is_lit(rows[6 - row], 4 - col) by {
        if col == 0 {
        } else if col == 1 {
        } else if col == 2 {
        } else if col == 3 {
        } else {
        }
    }
}

proof fn lemma_full_bar(ch: char, row: int)
    requires
        0 <= row < 7,
        spec_glyph_rows(ch)[row] == 31,
    ensures
        full_bar(spec_glyph_rows(ch), row),
{
    lemma_column_weights();
}

/// The font draws letters by their shapes: the glyphs of A, I, O, T and Y read the
/// same mirrored left to right; those of C, D, E, I and O the same flipped top to
/// bottom; those of I, O and S the same turned half a turn. E and I have full bars at
/// top and bottom, T a full bar at the top, and A a full crossbar in the middle.
pub proof fn lemma_glyph_shapes()
    ensures
        left_right_symmetric(spec_glyph_rows('A')),
        left_right_symmetric(spec_glyph_rows('I')),
        left_right_symmetric(spec_glyph_rows('O')),
        left_right_symmetric(spec_glyph_rows('T')),
        left_right_symmetric(spec_glyph_rows('Y')),
        top_bottom_symmetric(spec_glyph_rows('C')),
        top_bottom_symmetric(spec_glyph_rows('D')),
        top_bottom_symmetric(spec_glyph_rows('E')),
        top_bottom_symmetric(spec_glyph_rows('I')),
        top_bottom_symmetric(spec_glyph_rows('O')),
        half_turn_symmetric(spec_glyph_rows('I')),
        half_turn_symmetric(spec_glyph_rows('O')),
        half_turn_symmetric(spec_glyph_rows('S')),
        full_bar(spec_glyph_rows('E'), 0) && full_bar(spec_glyph_rows('E'), 6),
        full_bar(spec_glyph_rows('I'), 0) && full_bar(spec_glyph_rows('I'), 6),
        full_bar(spec_glyph_rows('T'), 0),
        full_bar(spec_glyph_rows('A'), 3),
{
    lemma_left_right('A');
    lemma_left_right('I');
    lemma_left_right('O');
    lemma_left_right('T');
    lemma_left_right('Y');
    lemma_top_bottom('C');
    lemma_top_bottom('D');
    lemma_top_bottom('E');
    lemma_top_bottom('I');
    lemma_top_bottom('O');
    lemma_half_turn('I');
    lemma_half_turn('O');
    lemma_half_turn('S');
    lemma_full_bar('E', 0);
    lemma_full_bar('E', 6);
    lemma_full_bar('I', 0);
    lemma_full_bar('I', 6);
    lemma_full_bar('T', 0);
    lemma_full_bar('A', 3);
}

/// Exactly the letters of the font are drawn: every other character is blank, every
/// letter lights some cell, no row uses more than the five columns, and no two letters
/// share a glyph.
pub proof fn lemma_glyphs_are_distinct_letters(a: char, b: char)
    ensures
        !has_glyph(a) ==> is_blank(spec_glyph_rows(a)),
        has_glyph(a) ==> !is_blank(spec_glyph_rows(a)),
        spec_glyph_rows(a).len() == 7,
        forall|row: int| 0 <= row < 7 ==> #[trigger] spec_glyph_rows(a)[row] < 32,
        has_glyph(a) && has_glyph(b) && a != b ==> spec_glyph_rows(a) != spec_glyph_rows(b),
{
    lemma_column_weights();
    let ra = spec_glyph_rows(a);
    let rb = spec_glyph_rows(b);
    if has_glyph(a) {
        assert(is_lit(ra[0], 0) || is_lit(ra[0], 1) || is_lit(ra[0], 4));
    }
    if has_glyph(a) && has_glyph(b) && a != b && ra == rb {
        assert(ra[0] == rb[0]);
        assert(ra[1] == rb[1]);
        assert(ra[2] == rb[2]);
        assert(ra[3] == rb[3]);
        assert(ra[4] == rb[4]);
        assert(ra[5] == rb[5]);
        assert(ra[6] == rb[6]);
    }
}

/// Whether column `col` is lit in every row from `from` up to (not including) `to`.
pub open spec fn column_stroke(rows: Seq<u8>, col: int, from: int, to: int) -> bool {
    forall|row: int| from <= row < to ==> #[trigger] is_lit(rows[row], col)
}

/// The strokes of the letters that are not symmetric: D, E, N and R have a full left
/// stem; N also a full right stem and a diagonal from top left to bottom right; A
/// stands on two legs below its peak; Y's stem below the fork is T's stem; R's bowl
/// closes on the row its top bar has; C and G keep O's rounded top and bottom.
pub proof fn lemma_glyph_strokes()
    ensures
        column_stroke(spec_glyph_rows('D'), 0, 0, 7),
        column_stroke(spec_glyph_rows('E'), 0, 0, 7),
        column_stroke(spec_glyph_rows('N'), 0, 0, 7),
        column_stroke(spec_glyph_rows('R'), 0, 0, 7),
        column_stroke(spec_glyph_rows('N'), 4, 0, 7),
        is_lit(spec_glyph_rows('N')[1], 1) && is_lit(spec_glyph_rows('N')[2], 2) && is_lit(
            spec_glyph_rows('N')[3],
            3,
        ),
        column_stroke(spec_glyph_rows('A'), 0, 1, 7) && column_stroke(spec_glyph_rows('A'), 4, 1, 7),
        forall|row: int| 3 <= row < 7 ==> #[trigger] spec_glyph_rows('Y')[row] == spec_glyph_rows('T')[row],
        spec_glyph_rows('R')[3] == spec_glyph_rows('R')[0],
        forall|row: int|
            0 <= row < 7 && (row < 2 || row > 4) ==> #[trigger] spec_glyph_rows('C')[row]
                == spec_glyph_rows('O')[row] && spec_glyph_rows('G')[row] == spec_glyph_rows('O')[row],
{
    lemma_column_weights();
}

} // verus!
