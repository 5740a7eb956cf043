//! Parsing separated pairs.

use ext4_read::parse::{pair_of_parts, parse_pair, split_at_separator};

#[test]
fn test_parse_pair() {
    assert_eq!(parse_pair::<i32>("", ','), None);
    assert_eq!(parse_pair::<i32>("10,", ','), None);
    assert_eq!(parse_pair::<i32>(",10", ','), None);
    assert_eq!(parse_pair::<i32>("10,20", ','), Some((10, 20)));
    assert_eq!(parse_pair::<i32>("10,20xy", ','), None);
    assert_eq!(parse_pair::<f64>("0.5x", 'x'), None);
    assert_eq!(parse_pair::<f64>("0.5x1.5", 'x'), Some((0.5, 1.5)));
}

#[test]
fn split_takes_the_first_separator_only() {
    assert_eq!(split_at_separator("a,b,c", ','), Some(("a", "b,c")));
    assert_eq!(split_at_separator(",ab", ','), Some(("", "ab")));
    assert_eq!(split_at_separator("ab,", ','), Some(("ab", "")));
    assert_eq!(split_at_separator("abc", ','), None);
}

#[test]
fn split_respects_multibyte_characters_around_the_separator() {
    assert_eq!(split_at_separator("é,ü", ','), Some(("é", "ü")));
}

#[test]
fn pair_of_parts_needs_both_halves() {
    assert_eq!(pair_of_parts::<i32>(Some(1), Some(2)), Some((1, 2)));
    assert_eq!(pair_of_parts::<i32>(None, Some(2)), None);
    assert_eq!(pair_of_parts::<i32>(Some(1), None), None);
    assert_eq!(pair_of_parts::<i32>(None, None), None);
}
