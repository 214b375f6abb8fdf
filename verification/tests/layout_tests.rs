//! The layout generator: counts, order, and exact coordinates.

use mandala::geometry::{Coord, Point};
use mandala::layout::{generate_layout, mandala_geometry, Primitive};
use mandala::pyramid::calculate_mandala;

fn point(xw: i32, xr: i32, yw: i32, yr: i32) -> Point {
    Point { x: Coord { whole: xw, root3: xr }, y: Coord { whole: yw, root3: yr } }
}

#[test]
fn layout_has_fixed_count_and_order() {
    let p = calculate_mandala("mandala").unwrap();
    let prims = generate_layout(&p);
    // 1 centre marker + 6 sectors * (17 + 17 separators + 136 glyphs).
    assert_eq!(prims.len(), 1 + 6 * (17 + 17 + 136));
    // The centre marker comes first, then the separators of sector 0.
    assert!(matches!(prims[0], Primitive::Glyph { segment: 1, .. }));
    for k in 1..35 {
        assert!(matches!(prims[k], Primitive::Separator { .. }));
    }
    assert!(matches!(prims[35], Primitive::Glyph { segment: 0, .. }));
}

#[test]
fn centre_marker_position_is_exact() {
    let p = calculate_mandala("mandala").unwrap();
    let prims = generate_layout(&p);
    // Sector 1, visual row 2, column 2: local (20, -28) eighths, rotated
    // one sixth of a turn, reads pyramid row 13, column 2.
    assert_eq!(
        prims[0],
        Primitive::Glyph { value: p[13][2], position: point(528, 48, 560, 0), segment: 1 }
    );
}

#[test]
fn first_separators_are_exact() {
    let p = calculate_mandala("mandala").unwrap();
    let prims = generate_layout(&p);
    // Sector 0, line 0: from one half-cell below the wedge top to the centre.
    assert_eq!(
        prims[1],
        Primitive::Separator { a: point(528, 0, 16, 0), b: point(528, 0, 528, 0) }
    );
    // Sector 0, line 1: one line-offset to the right, full sixteen cells.
    assert_eq!(
        prims[2],
        Primitive::Separator { a: point(528, 16, 0, 0), b: point(528, 16, 512, 0) }
    );
    // The mirrored copy of line 1 is reflected across the vertical axis.
    assert_eq!(
        prims[19],
        Primitive::Separator { a: point(528, -16, 0, 0), b: point(528, -16, 512, 0) }
    );
}

#[test]
fn first_glyph_is_the_apex() {
    let p = calculate_mandala("mandala").unwrap();
    let prims = generate_layout(&p);
    // Sector 0, visual row 0, column 0 reads the pyramid's apex.
    assert_eq!(
        prims[35],
        Primitive::Glyph { value: p[15][0], position: point(528, 8, 504, 0), segment: 0 }
    );
}

#[test]
fn glyph_values_read_the_pyramid_apex_first() {
    let p = calculate_mandala("ce").unwrap();
    let prims = generate_layout(&p);
    let mut idx = 1 + 17 + 17;
    for row in 0..16 {
        for col in 0..=row {
            match prims[idx] {
                Primitive::Glyph { value, segment, .. } => {
                    assert_eq!(segment, 0);
                    assert_eq!(value, p[15 - row][col]);
                },
                _ => panic!("expected a glyph"),
            }
            idx += 1;
        }
    }
}

#[test]
fn geometry_pipeline_is_deterministic() {
    let a = mandala_geometry("identical input").unwrap();
    let b = mandala_geometry("identical input").unwrap();
    assert_eq!(a, b);
}

#[test]
fn geometry_pipeline_rejects_short_input() {
    assert!(mandala_geometry("!?").is_err());
}

#[test]
fn sectors_repeat_separator_geometry_rotated() {
    let p = calculate_mandala("mandala").unwrap();
    let prims = generate_layout(&p);
    // Sector 3 is a half turn: its separators are the point reflection of
    // sector 0's through the centre (528, 528) in sixteenth units.
    for k in 0..17 {
        let (a0, b0) = match prims[1 + k] {
            Primitive::Separator { a, b } => (a, b),
            _ => panic!("expected a separator"),
        };
        let sector3 = 1 + 3 * (17 + 17 + 136) + k;
        let (a3, b3) = match prims[sector3] {
            Primitive::Separator { a, b } => (a, b),
            _ => panic!("expected a separator"),
        };
        assert_eq!(a3.x.root3, -a0.x.root3);
        assert_eq!(a3.y.whole - 528, -(a0.y.whole - 528));
        assert_eq!(b3.x.root3, -b0.x.root3);
        assert_eq!(b3.y.whole - 528, -(b0.y.whole - 528));
    }
}
