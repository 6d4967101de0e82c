use widgets::text_edit::EditOp;
use widgets::text_edit::TextBuffer;
use widgets::text_edit::byte_pos;
use widgets::text_edit::char_utf8_len;
use widgets::text_edit::remove_char_at;

fn chars(s: &str) -> Vec<char> {
    s.chars().collect()
}

fn buffer_with(s: &str) -> TextBuffer {
    TextBuffer::with_value(chars(s))
}

#[test]
fn word_left_over_a_single_word_reaches_the_start() {
    let mut b = buffer_with("hello");
    assert_eq!(b.cursor(), 5);
    b.move_word_left();
    assert_eq!(b.cursor(), 0);
}

#[test]
fn word_left_from_the_end_reaches_the_last_word_start() {
    let mut b = buffer_with("foo bar");
    assert_eq!(b.cursor(), 7);
    b.move_word_left();
    assert_eq!(b.cursor(), 4);
    b.move_word_left();
    assert_eq!(b.cursor(), 0);
}

#[test]
fn word_left_skips_trailing_whitespace_first() {
    let mut b = buffer_with("foo bar  ");
    b.move_word_left();
    assert_eq!(b.cursor(), 4);
}

#[test]
fn word_right_lands_on_the_next_word() {
    let mut b = buffer_with("foo bar");
    b.move_to_line_start();
    b.move_word_right();
    assert_eq!(b.cursor(), 4);
    b.move_word_right();
    assert_eq!(b.cursor(), 7);
}

#[test]
fn char_moves_clamp_at_the_ends() {
    let mut b = buffer_with("ab");
    b.move_right();
    assert_eq!(b.cursor(), 2);
    b.move_left();
    b.move_left();
    b.move_left();
    assert_eq!(b.cursor(), 0);
    b.move_right();
    assert_eq!(b.cursor(), 1);
}

#[test]
fn line_start_and_end() {
    let mut b = buffer_with("abc");
    b.move_to_line_start();
    assert_eq!(b.cursor(), 0);
    b.move_to_line_end();
    assert_eq!(b.cursor(), 3);
}

#[test]
fn delete_prev_removes_before_the_cursor() {
    let mut b = buffer_with("abc");
    b.delete_prev();
    assert_eq!(b.chars(), chars("ab"));
    assert_eq!(b.cursor(), 2);
    b.move_to_line_start();
    b.delete_prev();
    assert_eq!(b.chars(), chars("ab"));
    assert_eq!(b.cursor(), 0);
}

#[test]
fn delete_next_removes_at_the_cursor() {
    let mut b = buffer_with("abc");
    b.move_to_line_start();
    b.delete_next();
    assert_eq!(b.chars(), chars("bc"));
    assert_eq!(b.cursor(), 0);
    b.move_to_line_end();
    b.delete_next();
    assert_eq!(b.chars(), chars("bc"));
}

#[test]
fn insert_char_moves_the_cursor_past_it() {
    let mut b = buffer_with("ac");
    b.move_left();
    b.insert_char('b');
    assert_eq!(b.chars(), chars("abc"));
    assert_eq!(b.cursor(), 2);
}

#[test]
fn insert_text_counts_characters_not_bytes() {
    let mut b = buffer_with("ab");
    b.move_left();
    b.insert_text(&chars("xyz"));
    assert_eq!(b.chars(), chars("axyzb"));
    assert_eq!(b.cursor(), 4);

    let mut m = TextBuffer::new();
    m.insert_text(&chars("héllo"));
    assert_eq!(m.len(), 5);
    assert_eq!(m.cursor(), 5);
}

#[test]
fn take_value_clears_and_resets_the_cursor() {
    let mut b = buffer_with("abc");
    let taken = b.take_value();
    assert_eq!(taken, chars("abc"));
    assert_eq!(b.len(), 0);
    assert_eq!(b.cursor(), 0);
}

#[test]
fn replace_value_puts_the_cursor_at_the_end() {
    let mut b = buffer_with("abc");
    b.move_to_line_start();
    b.replace_value(chars("wxyz"));
    assert_eq!(b.cursor(), 4);
    assert_eq!(b.chars(), chars("wxyz"));
}

#[test]
fn cursor_stays_in_bounds_over_an_operation_sequence() {
    let mut b = TextBuffer::new();
    let ops = [
        EditOp::Insert('a'),
        EditOp::Insert('b'),
        EditOp::WordLeft,
        EditOp::DeletePrev,
        EditOp::Insert('c'),
        EditOp::LineEnd,
        EditOp::CharRight,
        EditOp::DeleteNext,
        EditOp::Insert('ß'),
        EditOp::WordRight,
        EditOp::DeletePrev,
        EditOp::CharLeft,
        EditOp::LineStart,
        EditOp::DeletePrev,
    ];
    for op in &ops {
        b.apply(op);
        assert!(b.cursor() <= b.len());
    }
}

#[test]
fn utf8_lengths_by_code_point_range() {
    assert_eq!(char_utf8_len('a'), 1);
    assert_eq!(char_utf8_len('é'), 2);
    assert_eq!(char_utf8_len('€'), 3);
    assert_eq!(char_utf8_len('𝄞'), 4);
}

#[test]
fn byte_pos_matches_the_utf8_encoding() {
    let text = chars("aé€b");
    let s = "aé€b";
    for (i, expected) in [(0usize, 0usize), (1, 1), (2, 3), (3, 6), (4, 7)] {
        assert_eq!(byte_pos(&text, i), expected);
        let by_std: usize = s
            .char_indices()
            .nth(i)
            .map(|(p, _)| p)
            .unwrap_or(s.len());
        assert_eq!(byte_pos(&text, i), by_std);
    }
    assert_eq!(byte_pos(&text, 99), 7);
}

#[test]
fn remove_char_at_counts_characters() {
    assert_eq!(remove_char_at(&chars("aéb"), 1), chars("ab"));
    assert_eq!(remove_char_at(&chars("abc"), 0), chars("bc"));
    assert_eq!(remove_char_at(&chars("abc"), 2), chars("ab"));
    assert_eq!(remove_char_at(&chars("abc"), 3), chars("abc"));
}
