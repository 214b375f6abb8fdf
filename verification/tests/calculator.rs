//! The symbol table and the digit reduction calculator on concrete inputs.

use mandala::calculation::{calculate_base_row, get_sum, MandalaError};
use mandala::symbols::{index_generator, lookup};

#[test]
fn lookup_latin_letters() {
    assert_eq!(lookup('a'), Some(1));
    assert_eq!(lookup('c'), Some(3));
    assert_eq!(lookup('e'), Some(5));
    assert_eq!(lookup('i'), Some(9));
    assert_eq!(lookup('j'), Some(1));
    assert_eq!(lookup('z'), Some(8));
}

#[test]
fn lookup_cyrillic_letters() {
    // The 33-letter alphabet runs U+0430..U+044F with U+0451 in seventh place.
    assert_eq!(lookup('\u{430}'), Some(1));
    assert_eq!(lookup('\u{435}'), Some(6));
    assert_eq!(lookup('\u{451}'), Some(7));
    assert_eq!(lookup('\u{436}'), Some(8));
    assert_eq!(lookup('\u{44f}'), Some(6));
}

#[test]
fn lookup_folds_case() {
    assert_eq!(lookup('A'), Some(1));
    assert_eq!(lookup('Z'), Some(8));
    // Uppercase Cyrillic folds onto the lowercase alphabet.
    assert_eq!(lookup('\u{410}'), Some(1));
    assert_eq!(lookup('\u{42f}'), Some(6));
    assert_eq!(lookup('\u{401}'), Some(7));
    // The Kelvin sign folds to the Latin letter k.
    assert_eq!(lookup('\u{212a}'), Some(2));
}

#[test]
fn lookup_rejects_unmapped_characters() {
    assert_eq!(lookup('?'), None);
    assert_eq!(lookup('5'), None);
    assert_eq!(lookup(' '), None);
    assert_eq!(lookup('!'), None);
    // A Greek letter is in neither alphabet.
    assert_eq!(lookup('\u{3b1}'), None);
}

#[test]
fn lookup_range_over_both_alphabets() {
    for code in 0x430..=0x44fu32 {
        let c = char::from_u32(code).unwrap();
        let v = lookup(c).unwrap();
        assert!((1..=9).contains(&v));
    }
    let v = lookup('\u{451}').unwrap();
    assert!((1..=9).contains(&v));
    for c in 'a'..='z' {
        let v = lookup(c).unwrap();
        assert!((1..=9).contains(&v));
    }
}

#[test]
fn index_generator_cycles() {
    assert_eq!(index_generator(0), 1);
    assert_eq!(index_generator(8), 9);
    assert_eq!(index_generator(9), 1);
    assert_eq!(index_generator(32), 6);
}

#[test]
fn get_sum_folds_into_range() {
    assert_eq!(get_sum(3, 5), 8);
    assert_eq!(get_sum(5, 8), 4);
    assert_eq!(get_sum(9, 9), 9);
    assert_eq!(get_sum(4, 5), 9);
    assert_eq!(get_sum(1, 1), 2);
}

#[test]
fn get_sum_is_commutative() {
    for a in 1..=9u16 {
        for b in 1..=9u16 {
            let r = get_sum(a, b);
            assert_eq!(r, get_sum(b, a));
            assert!((1..=9).contains(&r));
        }
    }
}

#[test]
fn base_row_expands_two_numerals() {
    // 'c' and 'e' map to 3 and 5; the fold expands them step by step:
    // 5+3=8, 8+5=13->4, 4+8=12->3, 3+4=7, 7+3=10->1, 1+7=8.
    let row = calculate_base_row("ce").unwrap();
    assert_eq!(row, vec![3, 5, 8, 4, 3, 7, 1, 8, 8, 1, 7, 3, 4, 8, 5, 3]);
}

#[test]
fn base_row_expansion_steps_follow_reduce() {
    let row = calculate_base_row("ce").unwrap();
    // The first eight entries replay the expansion: each appended entry is
    // the fold of the previous last and second-to-last.
    for i in 2..8 {
        assert_eq!(row[i], get_sum(row[i - 1], row[i - 2]));
    }
}

#[test]
fn base_row_contracts_ten_numerals() {
    // "abcdefghij" maps to [1,2,3,4,5,6,7,8,9,1]: two pairwise-fold passes
    // bring it to eight entries.
    let row = calculate_base_row("abcdefghij").unwrap();
    assert_eq!(row.len(), 16);
    assert_eq!(&row[..8], &[8, 3, 7, 2, 6, 1, 5, 9]);
    for v in &row {
        assert!((1..=9).contains(v));
    }
}

#[test]
fn base_row_is_mirrored() {
    for text in ["ce", "abcdefghij", "mandala", "a mandala of words"] {
        let row = calculate_base_row(text).unwrap();
        assert_eq!(row.len(), 16);
        for i in 0..8 {
            assert_eq!(row[i], row[15 - i]);
        }
    }
}

#[test]
fn base_row_over_cyrillic_input() {
    // The word spelled U+043C U+0438 U+0440 maps to [5, 1, 9] and expands.
    let row = calculate_base_row("\u{43c}\u{438}\u{440}").unwrap();
    assert_eq!(row, vec![5, 1, 9, 1, 1, 2, 3, 5, 5, 3, 2, 1, 1, 9, 1, 5]);
}

#[test]
fn lookup_rejects_far_planes() {
    assert_eq!(lookup(char::MAX), None);
    assert_eq!(lookup('\u{1f600}'), None);
}

#[test]
fn base_row_ignores_unmapped_characters() {
    assert_eq!(
        calculate_base_row("c!e?").unwrap(),
        calculate_base_row("ce").unwrap()
    );
}

#[test]
fn empty_input_is_too_short() {
    assert_eq!(calculate_base_row(""), Err(MandalaError::InputTooShort));
}

#[test]
fn one_recognized_character_is_too_short() {
    assert_eq!(calculate_base_row("x"), Err(MandalaError::InputTooShort));
    assert_eq!(calculate_base_row("x! ?"), Err(MandalaError::InputTooShort));
}

#[test]
fn punctuation_only_input_is_too_short() {
    assert_eq!(
        calculate_base_row("?!.,;: 123"),
        Err(MandalaError::InputTooShort)
    );
}
