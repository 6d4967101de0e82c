use widgets::display::Visibility;
use widgets::display::blink_step;
use widgets::display::cursor_visibility;
use widgets::display::get_section_values;
use widgets::display::masked_value;
use widgets::display::placeholder_visibility;
use widgets::display::scroll_offset;

fn chars(s: &str) -> Vec<char> {
    s.chars().collect()
}

#[test]
fn masking_keeps_the_character_length() {
    for s in ["", "a", "hello", "héllo€"] {
        let buffer = chars(s);
        let masked = masked_value(&buffer, Some('*'));
        assert_eq!(masked.len(), buffer.len());
        assert!(masked.iter().all(|c| *c == '*'));
    }
}

#[test]
fn no_mask_displays_the_text_itself() {
    let buffer = chars("secret");
    assert_eq!(masked_value(&buffer, None), buffer);
}

#[test]
fn sections_split_around_the_cursor() {
    let buffer = chars("abcd");
    let (before, glyph, after) = get_section_values(&buffer, 2);
    assert_eq!(before, chars("ab"));
    assert_eq!(glyph, chars("|"));
    assert_eq!(after, chars("cd"));
}

#[test]
fn cursor_at_the_end_uses_the_zero_width_glyph() {
    let buffer = chars("abcd");
    let (before, glyph, after) = get_section_values(&buffer, 4);
    assert_eq!(before, chars("abcd"));
    assert_eq!(glyph, chars("}"));
    assert_eq!(after, chars(""));

    let (before, glyph, after) = get_section_values(&buffer, 99);
    assert_eq!(before, chars("abcd"));
    assert_eq!(glyph, chars("}"));
    assert_eq!(after, chars(""));
}

#[test]
fn placeholder_shows_only_over_an_empty_inactive_field() {
    assert_eq!(placeholder_visibility(true, true), Visibility::Inherited);
    assert_eq!(placeholder_visibility(true, false), Visibility::Hidden);
    assert_eq!(placeholder_visibility(false, true), Visibility::Hidden);
    assert_eq!(placeholder_visibility(false, false), Visibility::Hidden);
}

#[test]
fn cursor_blink_alternates_visibility() {
    assert_eq!(cursor_visibility(Visibility::Inherited), Visibility::Hidden);
    assert_eq!(cursor_visibility(Visibility::Hidden), Visibility::Visible);
    assert_eq!(cursor_visibility(Visibility::Visible), Visibility::Hidden);
}

#[test]
fn blink_reset_wins_then_ticks_toggle() {
    assert_eq!(blink_step(true, true, false), (true, false));
    assert_eq!(blink_step(true, false, false), (true, false));
    assert_eq!(blink_step(false, true, true), (false, false));
    assert_eq!(blink_step(false, true, false), (true, false));
    assert_eq!(blink_step(false, false, true), (true, false));
}

#[test]
fn scroll_stays_put_while_the_cursor_is_visible() {
    assert_eq!(scroll_offset(50, 0, 100, 300), None);
    assert_eq!(scroll_offset(0, 0, 100, 300), None);
    assert_eq!(scroll_offset(100, 0, 100, 300), None);
}

#[test]
fn scroll_recentres_an_escaped_cursor() {
    // Cursor past the right edge: recentre it, clamped to the text bounds.
    assert_eq!(scroll_offset(150, 0, 100, 300), Some(-100));
    // Cursor before the left edge: the offset clamps at zero.
    assert_eq!(scroll_offset(10, 50, 100, 300), Some(0));
    // The window never scrolls past the text's start.
    assert_eq!(scroll_offset(210, 0, 100, 300), Some(-160));
    assert_eq!(scroll_offset(290, 0, 100, 300), Some(-200));
}
