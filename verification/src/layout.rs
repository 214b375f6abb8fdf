//! The hex-symmetry layout generator: pyramid to renderer-agnostic geometry.
//!
//! One wedge's worth of grid lines (seventeen radial separators) is placed
//! at six rotations, sixty degrees apart, each with a mirrored copy —
//! twelve angular placements in all. The pyramid's numerals are placed in
//! six rotated copies, apex innermost; one extra glyph, a fixed centre
//! marker rather than an instance of any general rule, is placed at the
//! position of sector 1, row 2, column 2 ahead of the sector loop. The
//! primitives
//! come out in a fixed order: the centre marker first, then per sector the
//! rotated separators, the mirrored separators, and the glyph rows.

use vstd::prelude::*;
use crate::geometry::{place, spec_place, Point};
use crate::calculation::{numerals_of, spec_base_row, MandalaError};
use crate::pyramid::{calculate_mandala, spec_pyramid, wf_pyramid};

verus! {

/// A geometric primitive of the layout: a separator line segment between
/// two points, or a numeral glyph at a position, tagged with the sector it
/// was placed for.
#[derive(Clone, Copy, Debug, PartialEq, Eq, Structural)]
pub enum Primitive {
    Separator { a: Point, b: Point },
    Glyph { value: u16, position: Point, segment: u8 },
}

/// Local x of separator `k`, in `sqrt(3)` eighths of half a cell: line `k`
/// stands `k` line-offsets from the wedge's spine.
pub open spec fn sep_x(k: int) -> int {
    8 * k
}

/// Local y of separator `k`'s near end, centre-relative, in eighths of
/// half a cell: one half-cell down for the spine, `k - 1` half-cells for
/// the rest, the whole wedge being 33 half-cells tall.
pub open spec fn sep_y1(k: int) -> int {
    8 * ((if k == 0 {
        1
    } else {
        k - 1
    }) - 33)
}

/// Local y of separator `k`'s far end: the near end plus one cell for each
/// of the `16 - max(k - 1, 0)` cells the line spans.
pub open spec fn sep_y2(k: int) -> int {
    sep_y1(k) + 16 * (16 - (if k == 0 {
        0
    } else {
        k - 1
    }))
}

/// Separator `k` of the wedge copy at sector `seg`, mirrored or not.
pub open spec fn spec_separator(k: int, seg: int, mirrored: bool) -> Primitive {
    Primitive::Separator {
        a: spec_place(sep_x(k), sep_y1(k), seg, mirrored),
        b: spec_place(sep_x(k), sep_y2(k), seg, mirrored),
    }
}

/// Local x of the glyph at `(row, col)`: `col` line-offsets plus half a
/// line-offset, in `sqrt(3)` eighths of half a cell.
pub open spec fn glyph_x(row: int, col: int) -> int {
    8 * col + 4
}

/// Local y of the glyph at `(row, col)`: `row` cells up from the centre,
/// less three quarters of a cell, plus half a cell per column, in eighths
/// of half a cell.
pub open spec fn glyph_y(row: int, col: int) -> int {
    -16 * row - 12 + 8 * col
}

/// The glyph for visual row `row`, column `col` of sector `seg`: its value
/// is read from pyramid row `15 - row`, apex innermost.
pub open spec fn spec_glyph(p: Seq<Seq<u16>>, seg: int, row: int, col: int) -> Primitive {
    Primitive::Glyph {
        value: p[15 - row][col],
        position: spec_place(glyph_x(row, col), glyph_y(row, col), seg, false),
        segment: seg as u8,
    }
}

/// The seventeen separators of one wedge copy, in line order.
pub open spec fn spec_separators(seg: int, mirrored: bool) -> Seq<Primitive> {
    Seq::new(17, |k: int| spec_separator(k, seg, mirrored))
}

/// The glyphs of visual row `row` in sector `seg`, in column order.
pub open spec fn spec_glyph_row(p: Seq<Seq<u16>>, seg: int, row: int) -> Seq<Primitive> {
    Seq::new((row + 1) as nat, |col: int| spec_glyph(p, seg, row, col))
}

/// The glyphs of the first `nrows` visual rows of sector `seg`, row-major.
pub open spec fn spec_glyph_rows(p: Seq<Seq<u16>>, seg: int, nrows: int) -> Seq<Primitive>
    decreases nrows,
{
    if nrows <= 0 {
        Seq::empty()
    } else {
        spec_glyph_rows(p, seg, nrows - 1) + spec_glyph_row(p, seg, nrows - 1)
    }
}

/// Everything placed for sector `seg`: the rotated separators, their
/// mirrored copy, then the sixteen glyph rows.
pub open spec fn spec_wedge(p: Seq<Seq<u16>>, seg: int) -> Seq<Primitive> {
    spec_separators(seg, false) + spec_separators(seg, true) + spec_glyph_rows(p, seg, 16)
}

/// The first `n` sectors' placements, in sector order.
pub open spec fn spec_wedges(p: Seq<Seq<u16>>, n: int) -> Seq<Primitive>
    decreases n,
{
    if n <= 0 {
        Seq::empty()
    } else {
        spec_wedges(p, n - 1) + spec_wedge(p, n - 1)
    }
}

/// The whole layout of a pyramid: the fixed centre marker, then the six
/// sectors.
pub open spec fn spec_layout(p: Seq<Seq<u16>>) -> Seq<Primitive> {
    seq![spec_glyph(p, 1, 2, 2)] + spec_wedges(p, 6)
}

/// Builds separator `k` of the wedge copy at sector `seg`.
fn separator_primitive(k: u8, seg: u8, mirrored: bool) -> (pr: Primitive)
    requires
        k <= 16,
        seg < 6,
    ensures
        pr == spec_separator(k as int, seg as int, mirrored),
{
    let x: i32 = 8 * (k as i32);
    let near: i32 = if k == 0 {
        1
    } else {
        k as i32 - 1
    };
    let span: i32 = if k == 0 {
        16
    } else {
        16 - (k as i32 - 1)
    };
    let y1: i32 = 8 * (near - 33);
    let y2: i32 = y1 + 16 * span;
    Primitive::Separator {
        a: place(x, y1, seg, mirrored),
        b: place(x, y2, seg, mirrored),
    }
}

/// Builds the glyph for visual row `row`, column `col` of sector `seg`.
fn glyph_primitive(pyramid: &Vec<Vec<u16>>, seg: u8, row: u8, col: u8) -> (pr: Primitive)
    requires
        wf_pyramid(pyramid.deep_view()),
        seg < 6,
        row < 16,
        col <= row,
    ensures
        pr == spec_glyph(pyramid.deep_view(), seg as int, row as int, col as int),
{
    proof {
        assert(pyramid@.len() == 16);
        assert(pyramid@[15 - row as int]@ =~= pyramid.deep_view()[15 - row as int]);
    }
    let value = pyramid[15 - row as usize][col as usize];
    let lx: i32 = 8 * (col as i32) + 4;
    let ly: i32 = -16 * (row as i32) - 12 + 8 * (col as i32);
    Primitive::Glyph {
        value,
        position: place(lx, ly, seg, false),
        segment: seg,
    }
}

/// Generates the full geometry of a pyramid: 1021 primitives in a fixed,
/// reproducible order.
pub fn generate_layout(pyramid: &Vec<Vec<u16>>) -> (out: Vec<Primitive>)
    requires
        wf_pyramid(pyramid.deep_view()),
    ensures
        out@ == spec_layout(pyramid.deep_view()),
{
    let ghost pd = pyramid.deep_view();
    let mut out: Vec<Primitive> = Vec::new();
    out.push(glyph_primitive(pyramid, 1, 2, 2));
    assert(out@ =~= seq![spec_glyph(pd, 1, 2, 2)] + spec_wedges(pd, 0));

    let mut seg: u8 = 0;
    while seg < 6
        invariant
            wf_pyramid(pd),
            pd == pyramid.deep_view(),
            seg <= 6,
            out@ == seq![spec_glyph(pd, 1, 2, 2)] + spec_wedges(pd, seg as int),
        decreases 6 - seg,
    {
        let ghost head = seq![spec_glyph(pd, 1, 2, 2)] + spec_wedges(pd, seg as int);

        let mut k: u8 = 0;
        while k < 17
            invariant
                wf_pyramid(pd),
                pd == pyramid.deep_view(),
                seg < 6,
                k <= 17,
                out@ == head + spec_separators(seg as int, false).take(k as int),
            decreases 17 - k,
        {
            out.push(separator_primitive(k, seg, false));
            assert(out@ =~= head + spec_separators(seg as int, false).take(k as int + 1));
            k = k + 1;
        }
        assert(spec_separators(seg as int, false).take(17) =~= spec_separators(seg as int, false));

        let ghost head1 = head + spec_separators(seg as int, false);
        let mut k: u8 = 0;
        while k < 17
            invariant
                wf_pyramid(pd),
                pd == pyramid.deep_view(),
                seg < 6,
                k <= 17,
                out@ == head1 + spec_separators(seg as int, true).take(k as int),
            decreases 17 - k,
        {
            out.push(separator_primitive(k, seg, true));
            assert(out@ =~= head1 + spec_separators(seg as int, true).take(k as int + 1));
            k = k + 1;
        }
        assert(spec_separators(seg as int, true).take(17) =~= spec_separators(seg as int, true));

        let ghost head2 = head1 + spec_separators(seg as int, true);
        let mut row: u8 = 0;
        while row < 16
            invariant
                wf_pyramid(pd),
                pd == pyramid.deep_view(),
                seg < 6,
                row <= 16,
                out@ == head2 + spec_glyph_rows(pd, seg as int, row as int),
            decreases 16 - row,
        {
            let ghost head3 = head2 + spec_glyph_rows(pd, seg as int, row as int);
            let mut col: u8 = 0;
            while col < row + 1
                invariant
                    wf_pyramid(pd),
                    pd == pyramid.deep_view(),
                    seg < 6,
                    row < 16,
                    col <= row + 1,
                    out@ == head3 + spec_glyph_row(pd, seg as int, row as int).take(col as int),
                decreases row + 1 - col,
            {
                out.push(glyph_primitive(pyramid, seg, row, col));
                assert(out@ =~= head3 + spec_glyph_row(pd, seg as int, row as int).take(
                    col as int + 1,
                ));
                col = col + 1;
            }
            proof {
                assert(spec_glyph_row(pd, seg as int, row as int).take(row as int + 1) =~= spec_glyph_row(
                    pd,
                    seg as int,
                    row as int,
                ));
                assert(head3 + spec_glyph_row(pd, seg as int, row as int) =~= head2
                    + spec_glyph_rows(pd, seg as int, row as int + 1));
            }
            row = row + 1;
        }
        proof {
            assert(head2 + spec_glyph_rows(pd, seg as int, 16) =~= head + spec_wedge(
                pd,
                seg as int,
            ));
            assert(head + spec_wedge(pd, seg as int) =~= seq![spec_glyph(pd, 1, 2, 2)]
                + spec_wedges(pd, seg as int + 1));
        }
        seg = seg + 1;
    }
    out
}

/// The full pipeline: the geometry that `text` determines, or
/// `InputTooShort` exactly when fewer than two characters of `text`
/// resolve through the symbol table.
pub fn mandala_geometry(text: &str) -> (r: Result<Vec<Primitive>, MandalaError>)
    ensures
        match r {
            Ok(g) => {
                &&& numerals_of(text@).len() >= 2
                &&& g@ == spec_layout(spec_pyramid(spec_base_row(text@)))
            },
            Err(e) => e == MandalaError::InputTooShort && numerals_of(text@).len() < 2,
        },
{
    let pyramid = match calculate_mandala(text) {
        Ok(p) => p,
        Err(e) => {
            return Err(e);
        },
    };
    Ok(generate_layout(&pyramid))
}

/// Determinism: every stage of the pipeline is a function of the input
/// text alone, so equal texts determine equal base rows, equal pyramids
/// and equal geometry.
pub proof fn lemma_pipeline_deterministic(a: Seq<char>, b: Seq<char>)
    requires
        a == b,
    ensures
        spec_base_row(a) == spec_base_row(b),
        spec_pyramid(spec_base_row(a)) == spec_pyramid(spec_base_row(b)),
        spec_layout(spec_pyramid(spec_base_row(a))) == spec_layout(spec_pyramid(spec_base_row(b))),
{
}

} // verus!
