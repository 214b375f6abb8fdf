//! The digit reduction calculator: text to the sixteen-entry base row.
//!
//! Each character of the input is looked up in the symbol table; unmapped
//! characters are discarded. Fewer than two mapped characters is an error.
//! The numeral sequence is then brought to exactly eight entries: a short
//! sequence grows by appending the fold of its last two entries, a long one
//! shrinks by pairwise folding of neighbours. The base row is the eight
//! entries followed by their mirror image.

use vstd::prelude::*;
use vstd::string::StrSliceExecFns;
use crate::symbols::{lookup, spec_lookup};

verus! {

/// The digit-root fold: `a + b`, brought back into [1, 9] by subtracting 9
/// when the sum exceeds 9. Never yields 0: the sum 9 or 18 folds to 9.
pub open spec fn spec_reduce(a: u16, b: u16) -> u16 {
    if a + b > 9 {
        (a + b - 9) as u16
    } else {
        (a + b) as u16
    }
}

/// Every entry of `s` is a numeral in [1, 9].
pub open spec fn all_numerals(s: Seq<u16>) -> bool {
    forall|i: int| 0 <= i < s.len() ==> 1 <= #[trigger] s[i] <= 9
}

/// The digit-root fold of two numerals.
pub fn get_sum(index_a: u16, index_b: u16) -> (r: u16)
    requires
        1 <= index_a <= 9,
        1 <= index_b <= 9,
    ensures
        r == spec_reduce(index_a, index_b),
        1 <= r <= 9,
{
    let sum = index_a + index_b;
    if sum > 9 {
        sum - 9
    } else {
        sum
    }
}

/// The fold is commutative and closed on [1, 9].
pub proof fn lemma_reduce_commutative(a: u16, b: u16)
    requires
        1 <= a <= 9,
        1 <= b <= 9,
    ensures
        spec_reduce(a, b) == spec_reduce(b, a),
        1 <= spec_reduce(a, b) <= 9,
{
}

/// The numerals that `text` resolves to, in order: each character is looked
/// up in the symbol table and unmapped characters are discarded.
pub open spec fn numerals_of(text: Seq<char>) -> Seq<u16>
    decreases text.len(),
{
    if text.len() == 0 {
        Seq::empty()
    } else {
        numerals_of(text.drop_last()) + match spec_lookup(text.last()) {
            Some(v) => seq![v],
            None => Seq::empty(),
        }
    }
}

/// Expansion: while the sequence is shorter than eight entries, append the
/// fold of the last and the second-to-last entry.
pub open spec fn grown(s: Seq<u16>) -> Seq<u16>
    decreases 8 - s.len(),
{
    if s.len() >= 8 {
        s
    } else {
        grown(s.push(spec_reduce(s.last(), s[s.len() - 2])))
    }
}

/// One contraction step: the sequence one shorter whose entry `i` is the
/// fold of entries `i` and `i + 1`.
pub open spec fn contracted_once(s: Seq<u16>) -> Seq<u16> {
    Seq::new((s.len() - 1) as nat, |i: int| spec_reduce(s[i], s[i + 1]))
}

/// Contraction: pairwise folding repeated until eight entries remain.
pub open spec fn shrunk(s: Seq<u16>) -> Seq<u16>
    decreases s.len(),
{
    if s.len() <= 8 {
        s
    } else {
        shrunk(contracted_once(s))
    }
}

/// The eight-entry form of a numeral sequence: a short sequence grows, a
/// long one shrinks; one of length eight is left as it is.
pub open spec fn eight_of(s: Seq<u16>) -> Seq<u16> {
    if s.len() < 8 {
        grown(s)
    } else {
        shrunk(s)
    }
}

/// The base row over an eight-entry sequence: the sequence followed by its
/// mirror image, sixteen entries in all.
pub open spec fn base_row_of(e: Seq<u16>) -> Seq<u16> {
    Seq::new(16, |i: int| if i < 8 { e[i] } else { e[15 - i] })
}

/// The base row that `text` determines.
pub open spec fn spec_base_row(text: Seq<char>) -> Seq<u16> {
    base_row_of(eight_of(numerals_of(text)))
}

/// The calculator's only failure: fewer than two characters of the input
/// resolved through the symbol table.
#[derive(Clone, Copy, Debug, PartialEq, Eq, Structural)]
pub enum MandalaError {
    InputTooShort,
}

/// Extending the text by one character extends its numeral sequence by that
/// character's table entry, if it has one.
proof fn lemma_numerals_step(text: Seq<char>, i: int)
    requires
        0 <= i < text.len(),
    ensures
        numerals_of(text.take(i + 1)) == numerals_of(text.take(i)) + match spec_lookup(text[i]) {
            Some(v) => seq![v],
            None => Seq::<u16>::empty(),
        },
{
    let t = text.take(i + 1);
    assert(t.drop_last() =~= text.take(i));
    assert(t.last() == text[i]);
}

/// Every numeral that a text resolves to is in [1, 9].
pub proof fn lemma_numerals_range(text: Seq<char>)
    ensures
        all_numerals(numerals_of(text)),
    decreases text.len(),
{
    if text.len() > 0 {
        lemma_numerals_range(text.drop_last());
        crate::symbols::lemma_table_range(crate::symbols::folded_char(text.last()));
    }
}

/// The grown form of a sequence of two to eight numerals has exactly eight
/// entries, all in [1, 9].
proof fn lemma_grown_shape(s: Seq<u16>)
    requires
        2 <= s.len() <= 8,
        all_numerals(s),
    ensures
        grown(s).len() == 8,
        all_numerals(grown(s)),
    decreases 8 - s.len(),
{
    if s.len() < 8 {
        lemma_grown_shape(s.push(spec_reduce(s.last(), s[s.len() - 2])));
    }
}

/// One contraction step keeps the entries in [1, 9] and shortens by one.
proof fn lemma_contracted_once_shape(s: Seq<u16>)
    requires
        s.len() >= 2,
        all_numerals(s),
    ensures
        contracted_once(s).len() == s.len() - 1,
        all_numerals(contracted_once(s)),
{
}

/// The shrunk form of a sequence of at least eight numerals has exactly
/// eight entries, all in [1, 9].
proof fn lemma_shrunk_shape(s: Seq<u16>)
    requires
        s.len() >= 8,
        all_numerals(s),
    ensures
        shrunk(s).len() == 8,
        all_numerals(shrunk(s)),
    decreases s.len(),
{
    if s.len() > 8 {
        lemma_contracted_once_shape(s);
        lemma_shrunk_shape(contracted_once(s));
    }
}

/// The eight-entry form of any sequence of at least two numerals has
/// exactly eight entries, all in [1, 9].
pub proof fn lemma_eight_shape(s: Seq<u16>)
    requires
        s.len() >= 2,
        all_numerals(s),
    ensures
        eight_of(s).len() == 8,
        all_numerals(eight_of(s)),
{
    if s.len() < 8 {
        lemma_grown_shape(s);
    } else {
        lemma_shrunk_shape(s);
    }
}

/// The base row of any text with at least two recognized characters has
/// sixteen entries, all in [1, 9], and is palindromic: entry `i` equals
/// entry `15 - i`.
pub proof fn lemma_base_row_shape(text: Seq<char>)
    requires
        numerals_of(text).len() >= 2,
    ensures
        spec_base_row(text).len() == 16,
        all_numerals(spec_base_row(text)),
        forall|i: int| 0 <= i < 8 ==> #[trigger] spec_base_row(text)[i] == spec_base_row(text)[15 - i],
{
    lemma_numerals_range(text);
    lemma_eight_shape(numerals_of(text));
}

/// One pairwise-contraction pass over a sequence of at least two numerals.
pub(crate) fn contract_row(prev: &Vec<u16>) -> (row: Vec<u16>)
    requires
        prev@.len() >= 2,
        all_numerals(prev@),
    ensures
        row@ == contracted_once(prev@),
        all_numerals(row@),
{
    let mut row: Vec<u16> = Vec::new();
    let mut i: usize = 0;
    while i < prev.len() - 1
        invariant
            prev@.len() >= 2,
            all_numerals(prev@),
            i <= prev@.len() - 1,
            row@ == contracted_once(prev@).take(i as int),
        decreases prev@.len() - 1 - i,
    {
        let v = get_sum(prev[i], prev[i + 1]);
        row.push(v);
        assert(row@ =~= contracted_once(prev@).take(i as int + 1));
        i = i + 1;
    }
    assert(row@ =~= contracted_once(prev@));
    row
}

/// Maps `text` through the symbol table, in order, discarding unmapped
/// characters.
fn collect_numerals(text: &str) -> (indexes: Vec<u16>)
    ensures
        indexes@ == numerals_of(text@),
        all_numerals(indexes@),
{
    let n = text.unicode_len();
    let mut indexes: Vec<u16> = Vec::new();
    let mut i: usize = 0;
    assert(text@.take(0) =~= Seq::<char>::empty());
    while i < n
        invariant
            n == text@.len(),
            i <= n,
            indexes@ == numerals_of(text@.take(i as int)),
            all_numerals(indexes@),
        decreases n - i,
    {
        let c = text.get_char(i);
        proof {
            lemma_numerals_step(text@, i as int);
        }
        match lookup(c) {
            Some(v) => {
                indexes.push(v);
                assert(indexes@ =~= numerals_of(text@.take(i as int + 1)));
            },
            None => {
                assert(indexes@ =~= numerals_of(text@.take(i as int + 1)));
            },
        }
        i = i + 1;
    }
    assert(text@.take(n as int) =~= text@);
    indexes
}

/// Computes the base row of `text`: its numerals, brought to eight entries
/// and mirrored to sixteen. Fails with `InputTooShort` exactly when fewer
/// than two characters of `text` resolve through the symbol table.
pub fn calculate_base_row(text: &str) -> (r: Result<Vec<u16>, MandalaError>)
    ensures
        match r {
            Ok(v) => numerals_of(text@).len() >= 2 && v@ == spec_base_row(text@),
            Err(e) => e == MandalaError::InputTooShort && numerals_of(text@).len() < 2,
        },
{
    let mut indexes = collect_numerals(text);
    if indexes.len() < 2 {
        return Err(MandalaError::InputTooShort);
    }
    let ghost start = indexes@;

    while indexes.len() < 8
        invariant
            2 <= indexes@.len(),
            all_numerals(indexes@),
            eight_of(indexes@) == eight_of(start),
        decreases 8 - indexes@.len(),
    {
        let ghost s = indexes@;
        let a = indexes[indexes.len() - 1];
        let b = indexes[indexes.len() - 2];
        let v = get_sum(a, b);
        indexes.push(v);
        proof {
            assert(indexes@ == s.push(spec_reduce(s.last(), s[s.len() - 2])));
            assert(grown(s) == grown(indexes@));
            assert(eight_of(s) == grown(s));
            if indexes@.len() == 8 {
                assert(shrunk(indexes@) == indexes@);
                assert(grown(indexes@) == indexes@);
            }
            assert(eight_of(indexes@) == grown(indexes@));
        }
    }

    while indexes.len() > 8
        invariant
            8 <= indexes@.len(),
            all_numerals(indexes@),
            eight_of(indexes@) == eight_of(start),
        decreases indexes@.len(),
    {
        indexes = contract_row(&indexes);
    }

    proof {
        assert(indexes@.len() == 8);
        assert(indexes@ == eight_of(start));
    }

    let mut row = indexes;
    let ghost e = row@;
    let mut i: usize = 0;
    assert(row@ =~= base_row_of(e).take(8));
    while i < 8
        invariant
            e.len() == 8,
            i <= 8,
            row@ == base_row_of(e).take(8 + i as int),
        decreases 8 - i,
    {
        let v = row[7 - i];
        row.push(v);
        assert(row@ =~= base_row_of(e).take(8 + i as int + 1));
        i = i + 1;
    }
    assert(row@ =~= base_row_of(e));
    Ok(row)
}

} // verus!
