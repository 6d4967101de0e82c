use widgets::WidgetId;
use widgets::buttons::ButtonBuilder;
use widgets::buttons::ButtonInteraction;
use widgets::buttons::ButtonRadius;
use widgets::buttons::ButtonSize;
use widgets::buttons::ButtonType;
use widgets::buttons::ButtonsText;
use widgets::buttons::CornerRadius;
use widgets::buttons::Large;
use widgets::buttons::Rounded;
use widgets::buttons::Secondary;
use widgets::buttons::button_update;
use widgets::buttons::button_visuals;
use widgets::style::Rgba;

fn rgb(red: u16, green: u16, blue: u16) -> Rgba {
    Rgba { red, green, blue, alpha: 10000 }
}

#[test]
fn builder_defaults() {
    let bundle = ButtonBuilder::new(String::from("go")).build();
    assert_eq!(bundle.text.0, "go");
    assert_eq!(bundle.button_type, ButtonType::Primary);
    assert_eq!(bundle.height, 24);
    assert_eq!(bundle.font_size, 10);
    assert_eq!(bundle.corner_radius, CornerRadius::Px(4));
    assert_eq!(bundle.width, None);
    assert_eq!(bundle.border_width, 1);
    assert_eq!(bundle.background_color, rgb(1900, 4900, 7100));
}

#[test]
fn builder_options_land_in_the_bundle() {
    let bundle = ButtonBuilder::new(String::from("x"))
        .with_type(ButtonType::Tertiary)
        .with_size(ButtonSize::Large)
        .with_radius(ButtonRadius::Rounded)
        .with_fixed_width(120)
        .build();
    assert_eq!(bundle.button_type, ButtonType::Tertiary);
    assert_eq!(bundle.height, 30);
    assert_eq!(bundle.font_size, 13);
    assert_eq!(bundle.corner_radius, CornerRadius::Full);
    assert_eq!(bundle.width, Some(120));
    assert_eq!(bundle.background_color, rgb(1100, 2900, 4200));
}

#[test]
fn empty_builder_has_no_text() {
    let bundle = ButtonBuilder::empty().build();
    assert_eq!(bundle.text.0, "");
}

#[test]
fn marker_shorthands_configure_the_builder() {
    let b = Secondary.configure(ButtonBuilder::new(String::from("s")));
    assert_eq!(b.button_type, ButtonType::Secondary);
    let b = Large.configure(b);
    assert_eq!(b.button_size, ButtonSize::Large);
    let b = Rounded.configure(b);
    assert_eq!(b.button_radius, ButtonRadius::Rounded);
    let b2 = widgets::buttons::Default.configure(ButtonBuilder::new(String::from("d")));
    assert_eq!(b2.button_type, ButtonType::Primary);
    assert_eq!(b2.button_size, ButtonSize::Medium);
}

#[test]
fn pressed_enabled_button_fires_one_click_event() {
    let text = ButtonsText(String::from("ok"));
    let (visuals, event) = button_update(
        WidgetId(3),
        &text,
        ButtonType::Primary,
        ButtonInteraction::Pressed,
        false,
    );
    let event = event.expect("a pressed enabled button reports its click");
    assert_eq!(event.entity, WidgetId(3));
    assert_eq!(event.value, "ok");
    assert_eq!(visuals.background, rgb(1100, 2900, 4200));
}

#[test]
fn disabled_button_fires_nothing_and_greys_out() {
    let text = ButtonsText(String::from("ok"));
    let (visuals, event) = button_update(
        WidgetId(3),
        &text,
        ButtonType::Primary,
        ButtonInteraction::Pressed,
        true,
    );
    assert!(event.is_none());
    assert_eq!(visuals.background, rgb(8000, 8300, 8500));
    assert_eq!(visuals.border, rgb(8000, 8300, 8500));
}

#[test]
fn hovered_secondary_button_widens_its_border() {
    let visuals = button_visuals(ButtonType::Secondary, ButtonInteraction::Hovered, false);
    assert_eq!(visuals.border_width, 4);
    let visuals = button_visuals(ButtonType::Secondary, ButtonInteraction::Idle, false);
    assert_eq!(visuals.border_width, 1);
}

#[test]
fn focus_visuals_per_role() {
    let primary = button_visuals(ButtonType::Primary, ButtonInteraction::Focus, false);
    assert_eq!(primary.background, rgb(1900, 4900, 7100));
    assert_eq!(primary.border, rgb(7700, 9000, 10000));
    let secondary = button_visuals(ButtonType::Secondary, ButtonInteraction::Focus, false);
    assert_eq!(secondary.border, rgb(1900, 4900, 7100));
}
