//! Tests for the grapheme-segmented line representation.

use ledit::Line;

#[test]
fn len_counts_graphemes_not_bytes() {
    let line = Line::from_str("héllo");
    assert_eq!(line.len(), 5);
}

#[test]
fn len_counts_combining_sequences_once() {
    // 'e' followed by a combining acute accent is one user-perceived char
    let line = Line::from_str("he\u{0301}llo");
    assert_eq!(line.len(), 5);
}

#[test]
fn empty_line_has_no_fragments() {
    let line = Line::from_str("");
    assert_eq!(line.len(), 0);
    assert_eq!(line.get(0..10), "");
    assert_eq!(line.width(0..10), 0);
}

#[test]
fn width_of_narrow_text_equals_grapheme_count() {
    let line = Line::from_str("héllo");
    assert_eq!(line.width(0..5), 5);
    assert_eq!(line.width(0..2), 2);
    assert_eq!(line.width(2..5), 3);
}

#[test]
fn width_of_full_width_char_is_two() {
    let line = Line::from_str("你abc");
    assert_eq!(line.len(), 4);
    assert_eq!(line.width(0..1), 2);
    assert_eq!(line.width(0..4), 5);
    assert_eq!(line.width(1..4), 3);
}

#[test]
fn width_clamps_out_of_range_indices() {
    let line = Line::from_str("abc");
    assert_eq!(line.width(0..100), 3);
    assert_eq!(line.width(5..2), 0);
    assert_eq!(line.width(2..2), 0);
}

#[test]
fn get_returns_visible_text() {
    let line = Line::from_str("héllo");
    assert_eq!(line.get(0..5), "héllo");
    assert_eq!(line.get(1..3), "él");
    assert_eq!(line.get(0..100), "héllo");
}

#[test]
fn get_of_empty_or_reversed_range_is_empty() {
    let line = Line::from_str("héllo");
    assert_eq!(line.get(2..2), "");
    assert_eq!(line.get(3..1), "");
}

#[test]
fn get_splitting_full_width_char_shows_ellipsis() {
    // the CJK char occupies columns 0..2; a cut at column 1 splits it
    let line = Line::from_str("你abc");
    assert_eq!(line.get(0..1), "⋯");
    assert_eq!(line.get(0..2), "你");
    assert_eq!(line.get(1..5), "⋯abc");
    assert_eq!(line.get(1..3), "⋯a");
    assert_eq!(line.get(0..5), "你abc");
}

#[test]
fn get_splitting_full_width_char_at_right_edge() {
    // "a你b": 'a' at column 0, the wide char at 1..3, 'b' at 3
    let line = Line::from_str("a你b");
    assert_eq!(line.get(0..2), "a⋯");
    assert_eq!(line.get(0..3), "a你");
    assert_eq!(line.get(2..4), "⋯b");
}

#[test]
fn get_is_additive_at_aligned_boundaries() {
    let line = Line::from_str("a你b");
    // column 1 and column 3 are fragment boundaries
    let left = line.get(0..1);
    let right = line.get(1..3);
    let both = line.get(0..3);
    assert_eq!(format!("{left}{right}"), both);
    let left2 = line.get(0..3);
    let right2 = line.get(3..4);
    let both2 = line.get(0..4);
    assert_eq!(format!("{left2}{right2}"), both2);
}

#[test]
fn zero_width_grapheme_renders_as_placeholder() {
    // a combining accent alone has display width zero
    let line = Line::from_str("\u{0301}");
    assert_eq!(line.len(), 1);
    assert_eq!(line.width(0..1), 1);
    assert_eq!(line.get(0..1), "·");
}
