use widgets::field_state::InputFieldState;
use widgets::input_fields::AllowedCharSet;
use widgets::input_fields::InputFieldSettings;
use widgets::input_fields::InputTextNavigationBindings;
use widgets::input_fields::KeyCode;
use widgets::input_fields::KeyboardInput;
use widgets::input_fields::NumericFieldBuilder;
use widgets::input_fields::TextField;
use widgets::input_fields::TextInputBuilder;
use widgets::input_fields::allowed_chars_for;
use widgets::input_fields::resolve_action;
use widgets::input_fields::InputTextAction;
use widgets::numeric::NumericKind;
use widgets::numeric::RangeEdge;
use widgets::style::InputFieldSize;

fn chars(s: &str) -> Vec<char> {
    s.chars().collect()
}

fn text(v: &[char]) -> String {
    v.iter().collect()
}

fn key(code: KeyCode) -> KeyboardInput {
    KeyboardInput { key_code: code, pressed: true, text: None }
}

fn typed(s: &str) -> KeyboardInput {
    KeyboardInput { key_code: KeyCode::Other, pressed: true, text: Some(chars(s)) }
}

fn active_field() -> TextField {
    let mut f = TextField::new(InputFieldSettings::new());
    f.interaction.on_focus_gained();
    f
}

#[test]
fn inactive_fields_ignore_the_keyboard() {
    let mut f = TextField::new(InputFieldSettings::new());
    let bindings = InputTextNavigationBindings::standard();
    let none = f.handle_key(&typed("a"), &bindings, &Vec::new());
    assert!(none.is_none());
    assert_eq!(f.buffer.len(), 0);
}

#[test]
fn releases_are_ignored() {
    let mut f = active_field();
    let bindings = InputTextNavigationBindings::standard();
    let mut input = typed("a");
    input.pressed = false;
    f.handle_key(&input, &bindings, &Vec::new());
    assert_eq!(f.buffer.len(), 0);
}

#[test]
fn typing_inserts_at_the_cursor() {
    let mut f = active_field();
    let bindings = InputTextNavigationBindings::standard();
    let held: Vec<KeyCode> = Vec::new();
    f.handle_key(&typed("a"), &bindings, &held);
    f.handle_key(&typed("b"), &bindings, &held);
    f.handle_key(&key(KeyCode::ArrowLeft), &bindings, &held);
    f.handle_key(&typed("c"), &bindings, &held);
    assert_eq!(text(&f.buffer.chars()), "acb");
    assert_eq!(f.buffer.cursor(), 2);
    assert!(f.should_reset_cursor_timer);
}

#[test]
fn word_navigation_needs_the_control_modifier() {
    let mut f = active_field();
    let bindings = InputTextNavigationBindings::standard();
    let held: Vec<KeyCode> = Vec::new();
    for c in ["f", "o", "o", " ", "b", "a", "r"] {
        f.handle_key(&typed(c), &bindings, &held);
    }
    assert_eq!(f.buffer.cursor(), 7);
    let ctrl = vec![KeyCode::ControlLeft];
    f.handle_key(&key(KeyCode::ArrowLeft), &bindings, &ctrl);
    assert_eq!(f.buffer.cursor(), 4);
    f.handle_key(&key(KeyCode::ArrowLeft), &bindings, &held);
    assert_eq!(f.buffer.cursor(), 3);
}

#[test]
fn resolve_action_takes_the_first_matching_entry() {
    let bindings = InputTextNavigationBindings::standard();
    let ctrl = vec![KeyCode::ControlRight];
    assert_eq!(
        resolve_action(&bindings, &ctrl, KeyCode::ArrowLeft),
        Some(InputTextAction::WordLeft)
    );
    assert_eq!(
        resolve_action(&bindings, &Vec::new(), KeyCode::ArrowLeft),
        Some(InputTextAction::CharLeft)
    );
    assert_eq!(
        resolve_action(&bindings, &Vec::new(), KeyCode::Enter),
        Some(InputTextAction::Submit)
    );
    assert_eq!(resolve_action(&bindings, &Vec::new(), KeyCode::Escape), None);
}

#[test]
fn apple_bindings_use_option_for_words() {
    let bindings = InputTextNavigationBindings::apple();
    let alt = vec![KeyCode::AltLeft];
    assert_eq!(
        resolve_action(&bindings, &alt, KeyCode::ArrowRight),
        Some(InputTextAction::WordRight)
    );
    let platform = vec![KeyCode::SuperLeft];
    assert_eq!(
        resolve_action(&bindings, &platform, KeyCode::ArrowLeft),
        Some(InputTextAction::LineStart)
    );
}

#[test]
fn backspace_and_delete_edit_around_the_cursor() {
    let mut f = active_field();
    let bindings = InputTextNavigationBindings::standard();
    let held: Vec<KeyCode> = Vec::new();
    for c in ["a", "b", "c"] {
        f.handle_key(&typed(c), &bindings, &held);
    }
    f.handle_key(&key(KeyCode::Backspace), &bindings, &held);
    assert_eq!(text(&f.buffer.chars()), "ab");
    f.handle_key(&key(KeyCode::Home), &bindings, &held);
    f.handle_key(&key(KeyCode::Delete), &bindings, &held);
    assert_eq!(text(&f.buffer.chars()), "b");
    assert_eq!(f.buffer.cursor(), 0);
}

#[test]
fn submit_retains_by_default() {
    let mut f = active_field();
    let bindings = InputTextNavigationBindings::standard();
    let held: Vec<KeyCode> = Vec::new();
    f.handle_key(&typed("h"), &bindings, &held);
    f.handle_key(&typed("i"), &bindings, &held);
    let submitted = f.handle_key(&key(KeyCode::Enter), &bindings, &held);
    assert_eq!(submitted.map(|v| text(&v)), Some(String::from("hi")));
    assert_eq!(text(&f.buffer.chars()), "hi");
}

#[test]
fn submit_clears_when_configured() {
    let mut settings = InputFieldSettings::new();
    settings.retain_on_submit = false;
    let mut f = TextField::new(settings);
    f.interaction.on_focus_gained();
    let bindings = InputTextNavigationBindings::standard();
    let held: Vec<KeyCode> = Vec::new();
    f.handle_key(&typed("h"), &bindings, &held);
    let submitted = f.handle_key(&key(KeyCode::NumpadEnter), &bindings, &held);
    assert_eq!(submitted.map(|v| text(&v)), Some(String::from("h")));
    assert_eq!(f.buffer.len(), 0);
    assert_eq!(f.buffer.cursor(), 0);
}

#[test]
fn restricted_fields_reject_other_characters() {
    let mut f = active_field();
    f.allowed = Some(allowed_chars_for(NumericKind::U32));
    let bindings = InputTextNavigationBindings::standard();
    let held: Vec<KeyCode> = Vec::new();
    f.handle_key(&typed("1"), &bindings, &held);
    f.handle_key(&typed("a"), &bindings, &held);
    f.handle_key(&typed("-"), &bindings, &held);
    f.handle_key(&typed("2"), &bindings, &held);
    assert_eq!(text(&f.buffer.chars()), "12");
}

#[test]
fn signed_fields_accept_the_minus_sign() {
    let signed = allowed_chars_for(NumericKind::I8);
    assert!(!signed.has_invalid_char('-'));
    assert!(!signed.has_invalid_char('0'));
    assert!(signed.has_invalid_char('.'));
    let unsigned = allowed_chars_for(NumericKind::U8);
    assert!(unsigned.has_invalid_char('-'));
    assert!(!unsigned.has_invalid_chars(&chars("0123456789")));
    assert!(unsigned.has_invalid_chars(&chars("12x")));
}

#[test]
fn charset_filters_invalid_characters_out() {
    let set = AllowedCharSet::new(chars("abc"));
    assert_eq!(text(&set.remove_invalid_chars(&chars("cabbage"))), "cabba");
    assert!(set.contains('a'));
    assert!(!set.contains('z'));
}

#[test]
fn masked_fields_display_sections_by_character_count() {
    let mut settings = InputFieldSettings::new();
    settings.mask_character = Some('*');
    let mut f = TextField::new(settings);
    f.interaction.on_focus_gained();
    let bindings = InputTextNavigationBindings::standard();
    let held: Vec<KeyCode> = Vec::new();
    for c in ["s", "é", "c"] {
        f.handle_key(&typed(c), &bindings, &held);
    }
    f.handle_key(&key(KeyCode::ArrowLeft), &bindings, &held);
    let (before, glyph, after) = f.display_sections();
    assert_eq!(text(&before), "**");
    assert_eq!(text(&glyph), "|");
    assert_eq!(text(&after), "*");
}

#[test]
fn text_builder_fills_the_bundle() {
    let bundle = TextInputBuilder::new()
        .with_size(InputFieldSize::Large)
        .with_label(String::from("name"))
        .with_placeholder(String::from("type here"))
        .with_hint_text(String::from("a hint"))
        .with_initial_value(chars("abc"))
        .password()
        .clear_on_submit()
        .build();
    assert!(!bundle.settings.retain_on_submit);
    assert_eq!(bundle.settings.mask_character, Some('*'));
    assert_eq!(bundle.placeholder.0, "type here");
    assert_eq!(bundle.descriptions.label, Some(String::from("name")));
    assert_eq!(bundle.descriptions.hint, Some(String::from("a hint")));
    assert_eq!(bundle.buffer.len(), 3);
    assert_eq!(bundle.buffer.cursor(), 3);
    assert_eq!(bundle.height, 42);
    assert_eq!(bundle.min_width, 360);
    assert_eq!(bundle.font_size, 13);
    assert_eq!(bundle.padding.vertical, 4);
    assert_eq!(bundle.interaction.state, InputFieldState::Default);
}

#[test]
fn numeric_builder_formats_the_initial_value() {
    let bundle = NumericFieldBuilder::new(NumericKind::I32)
        .with_initial_value(7)
        .with_range(RangeEdge::Included(0), RangeEdge::Excluded(10))
        .clear_on_submit()
        .build();
    assert_eq!(bundle.field.value.get_value(), 7);
    assert_eq!(text(&bundle.field.text), "7");
    assert!(!bundle.field.value.end_inclusive());
    assert!(!bundle.settings.retain_on_submit);
    assert_eq!(bundle.min_width, 52);
    assert_eq!(bundle.max_width, 600);
    assert_eq!(bundle.width, 52);
    assert_eq!(bundle.border_width, 1);
}

#[test]
fn spawn_convenience_builds_a_clamped_medium_field() {
    let bundle = NumericFieldBuilder::spawn_numeric_field(
        NumericKind::U8,
        300,
        RangeEdge::Included(0),
        RangeEdge::Excluded(200),
    );
    assert_eq!(bundle.size, InputFieldSize::Medium);
    assert!(!bundle.settings.retain_on_submit);
    assert_eq!(bundle.field.value.get_value(), 255);
    assert!(!bundle.field.value.end_inclusive());
}

#[test]
fn numeric_field_reverts_unparseable_text() {
    let mut bundle = NumericFieldBuilder::new(NumericKind::I32)
        .with_initial_value(5)
        .build();
    bundle.field.text = chars("12x");
    bundle.field.on_text_changed();
    assert_eq!(bundle.field.value.get_value(), 5);
    assert_eq!(text(&bundle.field.text), "5");
}

#[test]
fn numeric_field_accepts_and_clamps_parseable_text() {
    let mut bundle = NumericFieldBuilder::new(NumericKind::I32)
        .with_range(RangeEdge::Included(0), RangeEdge::Included(10))
        .build();
    bundle.field.text = chars(" 42 ");
    bundle.field.on_text_changed();
    assert_eq!(bundle.field.value.get_value(), 10);
    // The typed text stays as typed: it parsed, it is no garbage.
    assert_eq!(text(&bundle.field.text), " 42 ");
}

#[test]
fn drag_updates_value_and_text_and_escape_restores() {
    let mut bundle = NumericFieldBuilder::new(NumericKind::I32)
        .with_initial_value(50)
        .with_range(RangeEdge::Included(0), RangeEdge::Included(100))
        .with_drag_step(5)
        .build();
    bundle.field.on_drag_start();
    bundle.field.on_drag(2, 0);
    assert_eq!(bundle.field.value.get_value(), 60);
    assert_eq!(text(&bundle.field.text), "60");
    bundle.field.on_escape();
    assert_eq!(bundle.field.value.get_value(), 50);
    assert_eq!(text(&bundle.field.text), "50");
    assert!(bundle.field.drag_snapshot.is_none());

    bundle.field.on_drag_start();
    bundle.field.on_drag(0, 3);
    assert_eq!(bundle.field.value.get_value(), 35);
    bundle.field.on_drag_end();
    // After a normal drag end there is nothing to restore.
    bundle.field.on_escape();
    assert_eq!(bundle.field.value.get_value(), 35);
}
