use widgets::field_state::FieldInteraction;
use widgets::field_state::InputFieldState;
use widgets::style::Rgba;
use widgets::style::numeric_field_visual_update;
use widgets::style::text_field_visual_update;

#[test]
fn validation_overlay_restores_the_covered_state() {
    let mut f = FieldInteraction::new();
    assert_eq!(f.state, InputFieldState::Default);
    f.apply_validation(true, false);
    assert_eq!(f.state, InputFieldState::Warning);
    f.apply_validation(false, false);
    assert_eq!(f.state, InputFieldState::Default);
    assert_eq!(f.validation_origin, None);
}

#[test]
fn validation_restore_returns_to_selected_too() {
    let mut f = FieldInteraction::new();
    f.on_focus_gained();
    assert_eq!(f.state, InputFieldState::Selected);
    f.apply_validation(false, true);
    assert_eq!(f.state, InputFieldState::Error);
    f.apply_validation(false, false);
    assert_eq!(f.state, InputFieldState::Selected);
}

#[test]
fn error_takes_precedence_over_warning() {
    let mut f = FieldInteraction::new();
    f.apply_validation(true, true);
    assert_eq!(f.state, InputFieldState::Error);
}

#[test]
fn overlay_keeps_the_first_remembered_origin() {
    let mut f = FieldInteraction::new();
    f.apply_validation(true, false);
    assert_eq!(f.state, InputFieldState::Warning);
    f.apply_validation(false, true);
    assert_eq!(f.state, InputFieldState::Error);
    f.apply_validation(false, false);
    assert_eq!(f.state, InputFieldState::Default);
}

#[test]
fn states_validation_flag() {
    assert!(InputFieldState::Warning.validation_state());
    assert!(InputFieldState::Error.validation_state());
    assert!(!InputFieldState::Default.validation_state());
    assert!(!InputFieldState::Selected.validation_state());
    assert!(!InputFieldState::Hovered.validation_state());
    assert!(!InputFieldState::Disabled.validation_state());
}

#[test]
fn focus_gain_selects_and_activates() {
    let mut f = FieldInteraction::new();
    f.on_focus_gained();
    assert_eq!(f.state, InputFieldState::Selected);
    assert!(!f.inactive);
    f.on_focus_lost();
    assert_eq!(f.state, InputFieldState::Default);
    assert!(f.inactive);
}

#[test]
fn hover_remembers_and_restores_the_previous_state() {
    let mut f = FieldInteraction::new();
    f.on_pointer_enter();
    assert_eq!(f.state, InputFieldState::Hovered);
    assert_eq!(f.prev_hover, Some(InputFieldState::Default));
    f.on_pointer_exit();
    assert_eq!(f.state, InputFieldState::Default);
    assert_eq!(f.prev_hover, None);
}

#[test]
fn hover_is_ignored_while_focused() {
    let mut f = FieldInteraction::new();
    f.on_focus_gained();
    f.on_pointer_enter();
    assert_eq!(f.state, InputFieldState::Selected);
    f.on_pointer_exit();
    assert_eq!(f.state, InputFieldState::Selected);
}

#[test]
fn pointer_exit_without_memory_falls_back_to_default() {
    let mut f = FieldInteraction::new();
    f.state = InputFieldState::Hovered;
    f.on_pointer_exit();
    assert_eq!(f.state, InputFieldState::Default);
}

#[test]
fn repaint_tables_skip_unchanged_combinations() {
    let selected = text_field_visual_update(InputFieldState::Selected, false)
        .expect("a selected active text field repaints");
    assert_eq!(selected.1, Rgba { red: 5100, green: 7900, blue: 10000, alpha: 10000 });
    assert!(text_field_visual_update(InputFieldState::Selected, true).is_none());
    assert!(text_field_visual_update(InputFieldState::Default, false).is_none());
    assert!(text_field_visual_update(InputFieldState::Hovered, true).is_none());
    assert!(text_field_visual_update(InputFieldState::Error, true).is_some());

    let hovered = numeric_field_visual_update(InputFieldState::Hovered, true)
        .expect("a hovered inactive numeric field repaints");
    assert_eq!(hovered.0, Rgba { red: 7700, green: 9000, blue: 10000, alpha: 10000 });
    assert!(numeric_field_visual_update(InputFieldState::Warning, true).is_none());
}

#[test]
fn disabled_is_sticky_and_short_circuits_everything() {
    let mut f = FieldInteraction::new();
    f.set_disabled();
    assert_eq!(f.state, InputFieldState::Disabled);
    f.on_focus_gained();
    assert_eq!(f.state, InputFieldState::Disabled);
    f.on_pointer_enter();
    assert_eq!(f.state, InputFieldState::Disabled);
    f.apply_validation(true, true);
    assert_eq!(f.state, InputFieldState::Disabled);
    f.set_enabled();
    assert_eq!(f.state, InputFieldState::Default);
    assert!(f.inactive);
}
