//! The pyramid builder: base row to the sixteen-row numeral pyramid.
//!
//! Row 0 is the base row; each later row is the pairwise digit-root fold of
//! its predecessor, one entry shorter, down to the single apex entry of
//! row 15.

use vstd::prelude::*;
use crate::calculation::{
    all_numerals, contract_row, contracted_once, numerals_of, spec_base_row, calculate_base_row,
    lemma_base_row_shape, MandalaError,
};

verus! {

/// Row `r` of the pyramid over `base`: `r` pairwise-fold steps applied to
/// the base row.
pub open spec fn pyramid_row(base: Seq<u16>, r: int) -> Seq<u16>
    decreases r,
{
    if r <= 0 {
        base
    } else {
        contracted_once(pyramid_row(base, r - 1))
    }
}

/// The sixteen-row pyramid over `base`.
pub open spec fn spec_pyramid(base: Seq<u16>) -> Seq<Seq<u16>> {
    Seq::new(16, |r: int| pyramid_row(base, r))
}

/// A well-formed pyramid: sixteen rows, row `r` holding `16 - r` numerals,
/// every entry in [1, 9].
pub open spec fn wf_pyramid(p: Seq<Seq<u16>>) -> bool {
    &&& p.len() == 16
    &&& forall|r: int| 0 <= r < 16 ==> #[trigger] p[r].len() == 16 - r
    &&& forall|r: int| 0 <= r < 16 ==> all_numerals(#[trigger] p[r])
}

/// Row `r` of the pyramid over a sixteen-entry base row of numerals has
/// `16 - r` entries, all in [1, 9].
proof fn lemma_pyramid_row_shape(base: Seq<u16>, r: int)
    requires
        base.len() == 16,
        all_numerals(base),
        0 <= r < 16,
    ensures
        pyramid_row(base, r).len() == 16 - r,
        all_numerals(pyramid_row(base, r)),
    decreases r,
{
    if r > 0 {
        lemma_pyramid_row_shape(base, r - 1);
    }
}

/// The pyramid over a sixteen-entry base row of numerals has sixteen rows
/// whose lengths run 16, 15, ..., 1; row 0 is the base row; and every entry
/// is in [1, 9].
pub proof fn lemma_pyramid_shape(base: Seq<u16>)
    requires
        base.len() == 16,
        all_numerals(base),
    ensures
        wf_pyramid(spec_pyramid(base)),
        spec_pyramid(base)[0] == base,
{
    assert forall|r: int| 0 <= r < 16 implies #[trigger] spec_pyramid(base)[r].len() == 16 - r
        && all_numerals(spec_pyramid(base)[r]) by {
        lemma_pyramid_row_shape(base, r);
    }
}

/// Builds the pyramid over a sixteen-entry base row by repeated pairwise
/// folding.
pub fn build_pyramid(base: Vec<u16>) -> (p: Vec<Vec<u16>>)
    requires
        base@.len() == 16,
        all_numerals(base@),
    ensures
        p.deep_view() == spec_pyramid(base@),
        wf_pyramid(p.deep_view()),
{
    let ghost b = base@;
    let mut p: Vec<Vec<u16>> = Vec::new();
    p.push(base);
    assert(p.deep_view() =~~= spec_pyramid(b).take(1));
    let mut r: usize = 1;
    while r < 16
        invariant
            1 <= r <= 16,
            b.len() == 16,
            all_numerals(b),
            p@.len() == r as int,
            p.deep_view() == spec_pyramid(b).take(r as int),
        decreases 16 - r,
    {
        proof {
            lemma_pyramid_row_shape(b, r as int - 1);
            assert(p@[r as int - 1]@ =~= p.deep_view()[r as int - 1]);
            assert(p@[r as int - 1]@ == pyramid_row(b, r as int - 1));
        }
        let row = contract_row(&p[r - 1]);
        p.push(row);
        assert(p.deep_view() =~~= spec_pyramid(b).take(r as int + 1));
        r = r + 1;
    }
    proof {
        assert(p.deep_view() =~~= spec_pyramid(b));
        lemma_pyramid_shape(b);
    }
    p
}

/// The whole calculator-and-builder pipeline: the pyramid that `text`
/// determines, or `InputTooShort` exactly when fewer than two characters
/// of `text` resolve through the symbol table.
pub fn calculate_mandala(text: &str) -> (r: Result<Vec<Vec<u16>>, MandalaError>)
    ensures
        match r {
            Ok(p) => {
                &&& numerals_of(text@).len() >= 2
                &&& p.deep_view() == spec_pyramid(spec_base_row(text@))
                &&& wf_pyramid(p.deep_view())
            },
            Err(e) => e == MandalaError::InputTooShort && numerals_of(text@).len() < 2,
        },
{
    let base = match calculate_base_row(text) {
        Ok(v) => v,
        Err(e) => {
            return Err(e);
        },
    };
    proof {
        lemma_base_row_shape(text@);
    }
    Ok(build_pyramid(base))
}

} // verus!
