use fyrox_ui::wrap::char_is_whitespace;
use fyrox_ui::text::{FormattedText, Position, TextLine, WrapMode};

fn chars(s: &str) -> Vec<char> {
    s.chars().collect()
}

fn laid_out(s: &str, wrap: WrapMode, width: u64) -> FormattedText {
    let mut t = FormattedText::from_chars(chars(s), wrap, None);
    let advances = vec![1u32; s.chars().count()];
    t.build_lines(&advances, 1, 1, width, width);
    t
}

fn line(begin: usize, end: usize, width: u64) -> TextLine {
    TextLine { begin, end, width }
}

fn pos(line: usize, offset: usize) -> Position {
    Position { line, offset }
}

#[test]
fn no_wrap_splits_at_newlines_only() {
    let t = laid_out("ab\ncd", WrapMode::NoWrap, 1);
    assert_eq!(t.get_lines(), &[line(0, 2, 2), line(3, 5, 2)]);
}

#[test]
fn no_wrap_of_empty_text_has_one_empty_line() {
    let t = laid_out("", WrapMode::NoWrap, 10);
    assert_eq!(t.get_lines(), &[line(0, 0, 0)]);
}

#[test]
fn word_wrap_breaks_before_the_word_that_overflows() {
    let t = laid_out("aa bb", WrapMode::Word, 3);
    assert_eq!(t.get_lines(), &[line(0, 3, 3), line(3, 5, 2)]);
}

#[test]
fn word_wrap_breaks_inside_a_word_longer_than_a_line() {
    let t = laid_out("abcde", WrapMode::Word, 2);
    assert_eq!(t.get_lines(), &[line(0, 2, 2), line(2, 4, 2), line(4, 5, 1)]);
}

#[test]
fn word_wrap_keeps_newline_in_its_line() {
    let t = laid_out("a\nb", WrapMode::Word, 10);
    assert_eq!(t.get_lines(), &[line(0, 2, 2), line(2, 3, 1)]);
}

#[test]
fn letter_wrap_counts_each_letter_twice() {
    let t = laid_out("abc", WrapMode::Letter, 3);
    assert_eq!(t.get_lines(), &[line(0, 4, 4), line(4, 6, 2)]);
}

#[test]
fn first_line_uses_its_own_width() {
    let mut t = FormattedText::from_chars(chars("aa bb cc"), WrapMode::Word, None);
    t.build_lines(&[1; 8], 1, 1, 6, 3);
    assert_eq!(t.get_lines(), &[line(0, 6, 6), line(6, 8, 2)]);
}

#[test]
fn mask_character_replaces_every_character() {
    let mut t = FormattedText::from_chars(chars("a\nc"), WrapMode::NoWrap, Some('*'));
    t.build_lines(&[7, 7, 7], 2, 5, 100, 100);
    assert_eq!(t.get_lines(), &[line(0, 3, 6)]);
    assert_eq!(t.mask_char(), Some('*'));
}

#[test]
fn end_position_is_after_last_character_of_last_line() {
    let t = laid_out("ab\ncd", WrapMode::NoWrap, 1);
    assert_eq!(t.end_position(), pos(1, 2));
    let empty = FormattedText::from_chars(Vec::new(), WrapMode::NoWrap, None);
    assert_eq!(empty.end_position(), pos(0, 0));
}

#[test]
fn nearest_valid_position_clamps_line_and_offset() {
    let t = laid_out("ab\ncd", WrapMode::NoWrap, 1);
    assert_eq!(t.nearest_valid_position(pos(5, 9)), pos(1, 2));
    assert_eq!(t.nearest_valid_position(pos(0, 1)), pos(0, 1));
    let empty = FormattedText::from_chars(Vec::new(), WrapMode::NoWrap, None);
    assert_eq!(empty.nearest_valid_position(pos(3, 3)), pos(0, 0));
}

#[test]
fn relative_position_x_moves_across_lines() {
    let t = laid_out("ab\ncd", WrapMode::NoWrap, 1);
    assert_eq!(t.get_relative_position_x(pos(0, 0), 3), pos(1, 1));
    assert_eq!(t.get_relative_position_x(pos(1, 0), -1), pos(0, 1));
    assert_eq!(t.get_relative_position_x(pos(0, 0), -2), pos(0, 0));
    assert_eq!(t.get_relative_position_x(pos(1, 1), 5), pos(1, 2));
}

#[test]
fn relative_position_y_saturates() {
    let t = laid_out("ab\ncd", WrapMode::NoWrap, 1);
    assert_eq!(t.get_relative_position_y(pos(0, 1), 1), pos(1, 1));
    assert_eq!(t.get_relative_position_y(pos(1, 1), -5), pos(0, 1));
    assert_eq!(t.get_relative_position_y(pos(0, 2), 9), pos(1, 2));
}

#[test]
fn line_ranges() {
    let t = laid_out("ab\ncd", WrapMode::NoWrap, 1);
    let r = t.get_line_range(1);
    assert_eq!((r.start, r.end), (pos(1, 0), pos(1, 2)));
    let r = t.get_line_range(7);
    assert_eq!((r.start, r.end), (pos(7, 0), pos(7, 0)));
    let within = t.iter_line_ranges_within(pos(0, 1)..pos(1, 1));
    let got: Vec<(Position, Position)> = within.iter().map(|r| (r.start, r.end)).collect();
    assert_eq!(got, vec![(pos(0, 1), pos(0, 2)), (pos(1, 0), pos(1, 1))]);
}

#[test]
fn positions_and_char_indices() {
    let t = laid_out("ab\ncd", WrapMode::NoWrap, 1);
    assert_eq!(t.position_to_char_index_unclamped(pos(1, 1)), Some(4));
    assert_eq!(t.position_to_char_index_unclamped(pos(0, 5)), Some(2));
    assert_eq!(t.position_to_char_index_unclamped(pos(2, 0)), None);
    assert_eq!(t.position_to_char_index_clamped(pos(0, 5)), Some(1));
    assert_eq!(t.char_index_to_position(3), Some(pos(1, 0)));
    assert_eq!(t.char_index_to_position(2), Some(pos(1, 2)));
    assert_eq!(t.char_index_to_position(10), Some(pos(1, 2)));
    let r = t.position_range_to_char_index_range(pos(0, 1)..pos(1, 1));
    assert_eq!((r.start, r.end), (1, 4));
    let r = t.position_range_to_char_index_range(pos(9, 0)..pos(9, 0));
    assert_eq!((r.start, r.end), (0, 5));
}

#[test]
fn char_index_round_trips_through_position() {
    let t = laid_out("hello\nworld", WrapMode::NoWrap, 1);
    for i in [0usize, 3, 6, 10] {
        let p = t.char_index_to_position(i).unwrap();
        assert_eq!(t.position_to_char_index_unclamped(p), Some(i));
    }
}

#[test]
fn text_and_ranges() {
    let t = laid_out("ab\ncd", WrapMode::NoWrap, 1);
    assert_eq!(t.text(), "ab\ncd");
    assert_eq!(t.text_range(1..4), "b\nc");
    assert_eq!(t.get_raw_text(), &['a', 'b', '\n', 'c', 'd']);
}

#[test]
fn insert_then_remove_gives_back_the_text() {
    let mut t = FormattedText::from_chars(chars("ab\ncd"), WrapMode::NoWrap, None);
    t.insert_char('x', 1);
    assert_eq!(t.text(), "axb\ncd");
    t.remove_at(1);
    assert_eq!(t.text(), "ab\ncd");
    t.insert_str("xy", 2);
    assert_eq!(t.text(), "abxy\ncd");
    t.remove_range(2..4);
    assert_eq!(t.text(), "ab\ncd");
}

#[test]
fn setters_keep_their_values() {
    let mut t = FormattedText::from_chars(Vec::new(), WrapMode::NoWrap, None);
    t.set_text("héllo");
    assert_eq!(t.text(), "héllo");
    t.set_chars(chars("xyz"));
    assert_eq!(t.text(), "xyz");
    t.set_wrap(WrapMode::Word);
    assert_eq!(t.wrap_mode(), WrapMode::Word);
    t.set_mask_char(Some('#'));
    assert_eq!(t.mask_char(), Some('#'));
}

#[test]
fn position_max_and_min_are_lexicographic() {
    assert_eq!(pos(1, 0).max(pos(0, 9)), pos(1, 0));
    assert_eq!(pos(1, 0).min(pos(0, 9)), pos(0, 9));
    assert_eq!(pos(2, 3).max(pos(2, 4)), pos(2, 4));
    assert_eq!(Position::default(), pos(0, 0));
}

#[test]
fn text_line_length() {
    assert_eq!(line(3, 7, 0).len(), 4);
    assert!(TextLine::new().is_empty());
}

#[test]
fn nearest_valid_position_is_idempotent() {
    let t = laid_out("abc\nd", WrapMode::NoWrap, 1);
    for p in [pos(0, 9), pos(4, 0), pos(1, 1), pos(0, 0)] {
        let once = t.nearest_valid_position(p);
        assert_eq!(t.nearest_valid_position(once), once);
    }
}

#[test]
fn one_step_forward_then_back_returns() {
    let t = laid_out("abc\nd", WrapMode::NoWrap, 1);
    for p in [pos(0, 0), pos(0, 2), pos(1, 0)] {
        let there = t.get_relative_position_x(p, 1);
        assert_eq!(t.get_relative_position_x(there, -1), p);
    }
}

#[test]
fn whitespace_matches_std_on_every_char() {
    for u in 0u32..=0x10FFFF {
        if let Some(c) = char::from_u32(u) {
            assert_eq!(char_is_whitespace(c), c.is_whitespace(), "{u:#x}");
        }
    }
}

#[test]
fn clamped_index_is_always_a_character() {
    let empty = laid_out("", WrapMode::NoWrap, 10);
    assert_eq!(empty.position_to_char_index_clamped(pos(0, 0)), None);
    let t = laid_out("ab\n", WrapMode::NoWrap, 10);
    let last_line = t.get_lines().len() - 1;
    match t.position_to_char_index_clamped(pos(last_line, 0)) {
        Some(i) => assert!(i < 3),
        None => {}
    }
    assert_eq!(t.position_to_char_index_clamped(pos(0, 9)), Some(1));
}

#[test]
fn no_wrap_has_one_line_more_than_line_breaks() {
    let t = laid_out("ab\ncd\n\ne", WrapMode::NoWrap, 100);
    assert_eq!(t.get_lines().len(), 4);
}

#[test]
fn word_wrap_lines_are_as_wide_as_their_characters_and_end_at_breaks() {
    let t = laid_out("hello big world\nab", WrapMode::Word, 6);
    for l in t.get_lines() {
        assert_eq!(l.width as usize, l.end - l.begin);
    }
    assert!(t.get_lines().iter().any(|l| l.end == 16));
    for w in t.get_lines().windows(2) {
        assert!(w[0].end <= w[1].begin);
    }
}
