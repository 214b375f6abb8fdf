//! Exact plane geometry for the layout generator.
//!
//! Every coordinate the layout produces has the form
//! `scale * (whole + root3 * sqrt(3)) / 16`, where `scale` is one
//! sixty-sixth of the configured sketch size (half a cell) and `whole` and
//! `root3` are integers. Vertical distances in a wedge are multiples of
//! half a cell; the horizontal spacing between radial lines is `sqrt(3)`
//! halves of a cell (the height relation of an equilateral triangle); and
//! rotation by a multiple of 60 degrees exchanges the two parts with
//! integer factors of one half. All layout arithmetic is therefore exact;
//! a renderer turns a coordinate into its number at whatever resolution it
//! draws at.

use vstd::prelude::*;

verus! {

/// One coordinate: the value `scale * (whole + root3 * sqrt(3)) / 16`.
#[derive(Clone, Copy, Debug, PartialEq, Eq, Structural)]
pub struct Coord {
    pub whole: i32,
    pub root3: i32,
}

/// A point of the sketch plane.
#[derive(Clone, Copy, Debug, PartialEq, Eq, Structural)]
pub struct Point {
    pub x: Coord,
    pub y: Coord,
}

/// Twice the cosine of `seg` sixths of a full turn: an integer for every
/// sector.
pub open spec fn spec_cos_double(seg: int) -> int {
    if seg == 0 {
        2
    } else if seg == 1 {
        1
    } else if seg == 2 {
        -1
    } else if seg == 3 {
        -2
    } else if seg == 4 {
        -1
    } else {
        1
    }
}

/// Twice the sine of `seg` sixths of a full turn, divided by `sqrt(3)`: an
/// integer for every sector.
pub open spec fn spec_sin_double_over_root3(seg: int) -> int {
    if seg == 0 {
        0
    } else if seg == 1 {
        1
    } else if seg == 2 {
        1
    } else if seg == 3 {
        0
    } else if seg == 4 {
        -1
    } else {
        -1
    }
}

/// Places a local wedge point in the sketch plane. The local point is
/// centre-relative, in eighths of half a cell: its x is `lx * sqrt(3)`
/// eighths (pure `sqrt(3)` multiple), its y is `ly` eighths (rational).
/// Mirroring negates local x; the point is then rotated by `seg` sixths of
/// a full turn and translated by half the sketch size on both axes
/// (33 half-cells, 528 sixteenths).
pub open spec fn spec_place(lx: int, ly: int, seg: int, mirrored: bool) -> Point {
    let lxm = if mirrored {
        -lx
    } else {
        lx
    };
    let c = spec_cos_double(seg);
    let s = spec_sin_double_over_root3(seg);
    Point {
        x: Coord { whole: 528, root3: (lxm * c - ly * s) as i32 },
        y: Coord { whole: (3 * lxm * s + ly * c + 528) as i32, root3: 0 },
    }
}

/// Computes the placement of a local wedge point.
pub fn place(lx: i32, ly: i32, seg: u8, mirrored: bool) -> (pt: Point)
    requires
        seg < 6,
        -600 <= lx <= 600,
        -600 <= ly <= 600,
    ensures
        pt == spec_place(lx as int, ly as int, seg as int, mirrored),
{
    let lxm: i32 = if mirrored {
        -lx
    } else {
        lx
    };
    let c: i32 = cos_double(seg);
    let s: i32 = sin_double_over_root3(seg);
    Point {
        x: Coord { whole: 528, root3: lxm * c - ly * s },
        y: Coord { whole: 3 * lxm * s + ly * c + 528, root3: 0 },
    }
}

/// Twice the cosine of `seg` sixths of a full turn.
fn cos_double(seg: u8) -> (r: i32)
    requires
        seg < 6,
    ensures
        r == spec_cos_double(seg as int),
{
    if seg == 0 {
        2
    } else if seg == 1 {
        1
    } else if seg == 2 {
        -1
    } else if seg == 3 {
        -2
    } else if seg == 4 {
        -1
    } else {
        1
    }
}

/// Twice the sine of `seg` sixths of a full turn, divided by `sqrt(3)`.
fn sin_double_over_root3(seg: u8) -> (r: i32)
    requires
        seg < 6,
    ensures
        r == spec_sin_double_over_root3(seg as int),
{
    if seg == 0 {
        0
    } else if seg == 1 {
        1
    } else if seg == 2 {
        1
    } else if seg == 3 {
        0
    } else if seg == 4 {
        -1
    } else {
        -1
    }
}

} // verus!
