//! The symbol table: a fixed mapping from characters to numerals in [1, 9].
//!
//! Two alphabets are recognized: the 33-letter Cyrillic lowercase alphabet
//! (U+0430 through U+044F, with U+0451 between the sixth and seventh letter)
//! and the 26-letter Latin lowercase alphabet. Each alphabet is assigned the
//! cyclic numeral sequence 1, 2, ..., 9, 1, 2, ... by position. A character
//! is case-folded before it is looked up; characters whose folded form lies
//! in neither alphabet are unmapped.

use vstd::prelude::*;

verus! {

/// The numeral assigned to position `i` of an alphabet: the cyclic
/// sequence 1, 2, ..., 9, 1, 2, ... .
pub open spec fn cyclic_numeral(i: int) -> u16 {
    (i % 9 + 1) as u16
}

/// Position of `c` in the Cyrillic alphabet, or -1 if it is not in it.
/// The alphabet runs U+0430..U+0435 (positions 0..5), U+0451 (position 6),
/// U+0436..U+044F (positions 7..32).
pub open spec fn cyrillic_index(c: char) -> int {
    if 0x430 <= c as u32 <= 0x435 {
        c as u32 - 0x430
    } else if c as u32 == 0x451 {
        6
    } else if 0x436 <= c as u32 <= 0x44f {
        c as u32 - 0x436 + 7
    } else {
        -1
    }
}

/// Position of `c` in the Latin lowercase alphabet, or -1 if it is not in it.
pub open spec fn latin_index(c: char) -> int {
    if 'a' <= c <= 'z' {
        c as u32 - 'a' as u32
    } else {
        -1
    }
}

/// The merged table: the numeral assigned to `c` itself (no case folding),
/// or `None` if `c` is in neither alphabet. The two alphabets are disjoint
/// character sets, so merging them clashes on no character.
pub open spec fn table_numeral(c: char) -> Option<u16> {
    if cyrillic_index(c) >= 0 {
        Some(cyclic_numeral(cyrillic_index(c)))
    } else if latin_index(c) >= 0 {
        Some(cyclic_numeral(latin_index(c)))
    } else {
        None
    }
}

/// The case-folded form of a character: the first character of its
/// lowercase mapping.
pub uninterp spec fn folded_char(c: char) -> char;

/// What `lookup` returns: the table entry of the case-folded character.
pub open spec fn spec_lookup(c: char) -> Option<u16> {
    table_numeral(folded_char(c))
}

/// Relies on `char::to_lowercase`: the lowercase mapping of a character
/// depends on the character alone, and a character of the two recognized
/// alphabets, being already lowercase, maps to itself.
#[verifier::external_body]
fn fold_char(c: char) -> (r: char)
    ensures
        r == folded_char(c),
        table_numeral(c) is Some ==> r == c,
{
    match c.to_lowercase().next() {
        Some(l) => l,
        None => c,
    }
}

/// The `i`-th value handed out by the cyclic numeral generator that the
/// alphabets are zipped against.
pub fn index_generator(i: usize) -> (r: u16)
    ensures
        r == cyclic_numeral(i as int),
        1 <= r <= 9,
{
    (i % 9 + 1) as u16
}

/// Case-folds `c` and looks it up in the merged symbol table.
pub fn lookup(c: char) -> (r: Option<u16>)
    ensures
        r == spec_lookup(c),
        table_numeral(c) is Some ==> r == table_numeral(c),
        r matches Some(v) ==> 1 <= v <= 9,
{
    let folded = fold_char(c);
    let code = folded as u32;
    if 0x430 <= code && code <= 0x435 {
        Some(index_generator((code - 0x430) as usize))
    } else if code == 0x451 {
        Some(index_generator(6))
    } else if 0x436 <= code && code <= 0x44f {
        Some(index_generator((code - 0x436 + 7) as usize))
    } else if 0x61 <= code && code <= 0x7a {
        Some(index_generator((code - 0x61) as usize))
    } else {
        None
    }
}

/// Every character of either alphabet is mapped, to a numeral in [1, 9];
/// every other character is unmapped by the table.
pub proof fn lemma_table_range(c: char)
    ensures
        cyrillic_index(c) >= 0 || latin_index(c) >= 0 <==> table_numeral(c) is Some,
        table_numeral(c) matches Some(v) ==> 1 <= v <= 9,
{
}

} // verus!
