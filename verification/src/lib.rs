//! A deterministic text-to-mandala engine.
//!
//! Text is folded through a fixed symbol table into numerals in [1, 9],
//! expanded or contracted to a mirrored sixteen-entry base row, narrowed
//! into a sixteen-row numeral pyramid, and finally laid out as exact
//! plane geometry under six-fold rotational symmetry with mirroring.
//! Rendering backends consume the geometry; they are not part of this
//! crate's verified core.

pub mod symbols;
pub mod calculation;
pub mod pyramid;
pub mod geometry;
pub mod layout;
