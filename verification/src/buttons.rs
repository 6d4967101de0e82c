//! Buttons: their style options, the builder that assembles a spawnable
//! bundle of initial component values, and the per-frame reaction to pointer
//! interaction.

use vstd::prelude::*;

use crate::focus::Clickable;
use crate::style::PaddingAxes;
use crate::style::Rgba;
use crate::style::rgb_spec;
use crate::style::rgb;
use crate::WidgetId;

verus! {

/// The text shown on a button.
#[derive(Clone, PartialEq, Eq, Debug, Hash)]
pub struct ButtonsText(pub String);

/// Fired when a button is pressed, carrying the button's text.
#[derive(Debug)]
pub struct ButtonClickedEvent {
    /// The button that was pressed.
    pub entity: WidgetId,
    /// The text the button showed when pressed.
    pub value: String,
}

/// Marks a button as disabled: it keeps its disabled visuals and fires no
/// click events.
#[derive(Debug, Clone, Copy, PartialEq, Eq, Structural, Hash)]
pub struct DisableButton;

/// The color role of a button.
#[derive(Debug, Clone, Copy, PartialEq, Eq, Structural, Hash)]
pub enum ButtonType {
    /// White text on blue.
    Primary,
    /// Dark text on white.
    Secondary,
    /// White text on dark blue.
    Tertiary,
}

/// The height class of a button.
#[derive(Debug, Clone, Copy, PartialEq, Eq, Structural, Hash)]
pub enum ButtonSize {
    /// Height 20, font 10.
    Small,
    /// Height 24, font 10.
    Medium,
    /// Height 30, font 13.
    Large,
}

/// The corner shape of a button.
#[derive(Debug, Clone, Copy, PartialEq, Eq, Structural, Hash)]
pub enum ButtonRadius {
    /// Soft square corners, radius 4.
    Squared,
    /// Fully round corners.
    Rounded,
}

/// A corner radius: a pixel value, or fully round.
#[derive(Debug, Clone, Copy, PartialEq, Eq, Structural, Hash)]
pub enum CornerRadius {
    /// A radius in pixels.
    Px(u32),
    /// One hundred percent: a circle.
    Full,
}

/// What the pointer is doing to a button, together with its focus and
/// disabled standing, for the purpose of choosing its visuals.
#[derive(Debug, Clone, Copy, PartialEq, Eq, Structural, Hash)]
pub enum ButtonInteraction {
    /// Nothing: the resting look.
    Idle,
    /// The pointer rests on the button.
    Hovered,
    /// The pointer is pressing the button.
    Pressed,
    /// The button is disabled.
    Disabled,
    /// The button holds input focus.
    Focus,
}

impl ButtonSize {
    /// The button text's font size, in pixels.
    pub fn font_size(&self) -> (r: u32)
        ensures
            r == (match *self {
                ButtonSize::Large => 13u32,
                _ => 10u32,
            }),
    {
        match self {
            ButtonSize::Large => 13,
            _ => 10,
        }
    }

    /// The button's height, in pixels.
    pub fn height(&self) -> (r: u32)
        ensures
            r == (match *self {
                ButtonSize::Small => 20u32,
                ButtonSize::Medium => 24u32,
                ButtonSize::Large => 30u32,
            }),
    {
        match self {
            ButtonSize::Small => 20,
            ButtonSize::Medium => 24,
            ButtonSize::Large => 30,
        }
    }

    /// The button's padding on each axis, in pixels.
    pub fn padding(&self) -> (r: PaddingAxes)
        ensures
            r == (match *self {
                ButtonSize::Small => PaddingAxes { horizontal: 16, vertical: 8 },
                ButtonSize::Medium => PaddingAxes { horizontal: 20, vertical: 12 },
                ButtonSize::Large => PaddingAxes { horizontal: 24, vertical: 16 },
            }),
    {
        match self {
            ButtonSize::Small => PaddingAxes { horizontal: 16, vertical: 8 },
            ButtonSize::Medium => PaddingAxes { horizontal: 20, vertical: 12 },
            ButtonSize::Large => PaddingAxes { horizontal: 24, vertical: 16 },
        }
    }
}

impl ButtonRadius {
    /// The corner radius this shape stands for.
    pub fn radius(&self) -> (r: CornerRadius)
        ensures
            r == (match *self {
                ButtonRadius::Squared => CornerRadius::Px(4),
                ButtonRadius::Rounded => CornerRadius::Full,
            }),
    {
        match self {
            ButtonRadius::Squared => CornerRadius::Px(4),
            ButtonRadius::Rounded => CornerRadius::Full,
        }
    }
}

/// The background color of a button under an interaction.
pub open spec fn button_background_spec(t: ButtonType, i: ButtonInteraction) -> Rgba {
    match (t, i) {
        (ButtonType::Primary, ButtonInteraction::Idle) => rgb_spec(1900, 4900, 7100),
        (ButtonType::Secondary, ButtonInteraction::Idle) => rgb_spec(9300, 9700, 10000),
        (ButtonType::Tertiary, ButtonInteraction::Idle) => rgb_spec(1100, 2900, 4200),
        (ButtonType::Primary, ButtonInteraction::Focus) => rgb_spec(1900, 4900, 7100),
        (ButtonType::Secondary, ButtonInteraction::Focus) => rgb_spec(9300, 9700, 10000),
        (ButtonType::Tertiary, ButtonInteraction::Focus) => rgb_spec(1100, 2900, 4200),
        (ButtonType::Primary, ButtonInteraction::Hovered) => rgb_spec(5100, 7900, 10000),
        (ButtonType::Primary, ButtonInteraction::Pressed) => rgb_spec(1100, 2900, 4200),
        (ButtonType::Secondary, ButtonInteraction::Hovered) => rgb_spec(9300, 9700, 10000),
        (ButtonType::Secondary, ButtonInteraction::Pressed) => rgb_spec(5100, 7900, 10000),
        (ButtonType::Tertiary, ButtonInteraction::Hovered) => rgb_spec(5100, 7900, 10000),
        (ButtonType::Tertiary, ButtonInteraction::Pressed) => rgb_spec(1900, 4900, 7100),
        _ => rgb_spec(8000, 8300, 8500),
    }
}

/// The border color of a button under an interaction.
pub open spec fn button_border_spec(t: ButtonType, i: ButtonInteraction) -> Rgba {
    match (t, i) {
        (ButtonType::Primary, ButtonInteraction::Idle) => rgb_spec(1900, 4900, 7100),
        (ButtonType::Primary, ButtonInteraction::Hovered) => rgb_spec(9300, 9700, 10000),
        (ButtonType::Primary, ButtonInteraction::Pressed) => rgb_spec(1100, 2900, 4200),
        (ButtonType::Primary, ButtonInteraction::Focus) => rgb_spec(7700, 9000, 10000),
        (ButtonType::Secondary, ButtonInteraction::Focus) => rgb_spec(1900, 4900, 7100),
        (ButtonType::Secondary, _) => rgb_spec(5100, 7900, 10000),
        (ButtonType::Tertiary, ButtonInteraction::Idle) => rgb_spec(1100, 2900, 4200),
        (ButtonType::Tertiary, ButtonInteraction::Hovered) => rgb_spec(5100, 7900, 10000),
        (ButtonType::Tertiary, ButtonInteraction::Pressed) => rgb_spec(1900, 4900, 7100),
        (ButtonType::Tertiary, ButtonInteraction::Focus) => rgb_spec(7700, 9000, 1000),
        _ => rgb_spec(8000, 8300, 8500),
    }
}

/// The border width of a button under an interaction: wide only for a
/// hovered secondary button.
pub open spec fn button_border_width_spec(t: ButtonType, i: ButtonInteraction) -> u32 {
    match (t, i) {
        (ButtonType::Secondary, ButtonInteraction::Hovered) => 4u32,
        _ => 1u32,
    }
}

impl ButtonType {
    /// The button text's color for this role.
    pub fn font_color(&self) -> (r: Rgba)
        ensures
            r == (match *self {
                ButtonType::Primary => rgb_spec(9700, 9700, 9800),
                ButtonType::Secondary => rgb_spec(2900, 3100, 3300),
                ButtonType::Tertiary => rgb_spec(9700, 9700, 9800),
            }),
    {
        match self {
            ButtonType::Primary => rgb(9700, 9700, 9800),
            ButtonType::Secondary => rgb(2900, 3100, 3300),
            ButtonType::Tertiary => rgb(9700, 9700, 9800),
        }
    }

    /// The background color for this role under an interaction.
    pub fn background_color(&self, interaction: ButtonInteraction) -> (r: Rgba)
        ensures
            r == button_background_spec(*self, interaction),
    {
        match (self, interaction) {
            (ButtonType::Primary, ButtonInteraction::Idle) => rgb(1900, 4900, 7100),
            (ButtonType::Secondary, ButtonInteraction::Idle) => rgb(9300, 9700, 10000),
            (ButtonType::Tertiary, ButtonInteraction::Idle) => rgb(1100, 2900, 4200),
            (ButtonType::Primary, ButtonInteraction::Focus) => rgb(1900, 4900, 7100),
            (ButtonType::Secondary, ButtonInteraction::Focus) => rgb(9300, 9700, 10000),
            (ButtonType::Tertiary, ButtonInteraction::Focus) => rgb(1100, 2900, 4200),
            (ButtonType::Primary, ButtonInteraction::Hovered) => rgb(5100, 7900, 10000),
            (ButtonType::Primary, ButtonInteraction::Pressed) => rgb(1100, 2900, 4200),
            (ButtonType::Secondary, ButtonInteraction::Hovered) => rgb(9300, 9700, 10000),
            (ButtonType::Secondary, ButtonInteraction::Pressed) => rgb(5100, 7900, 10000),
            (ButtonType::Tertiary, ButtonInteraction::Hovered) => rgb(5100, 7900, 10000),
            (ButtonType::Tertiary, ButtonInteraction::Pressed) => rgb(1900, 4900, 7100),
            _ => rgb(8000, 8300, 8500),
        }
    }

    /// The border color for this role under an interaction.
    pub fn border_color(&self, interaction: ButtonInteraction) -> (r: Rgba)
        ensures
            r == button_border_spec(*self, interaction),
    {
        match (self, interaction) {
            (ButtonType::Primary, ButtonInteraction::Idle) => rgb(1900, 4900, 7100),
            (ButtonType::Primary, ButtonInteraction::Hovered) => rgb(9300, 9700, 10000),
            (ButtonType::Primary, ButtonInteraction::Pressed) => rgb(1100, 2900, 4200),
            (ButtonType::Primary, ButtonInteraction::Focus) => rgb(7700, 9000, 10000),
            (ButtonType::Secondary, ButtonInteraction::Focus) => rgb(1900, 4900, 7100),
            (ButtonType::Secondary, _) => rgb(5100, 7900, 10000),
            (ButtonType::Tertiary, ButtonInteraction::Idle) => rgb(1100, 2900, 4200),
            (ButtonType::Tertiary, ButtonInteraction::Hovered) => rgb(5100, 7900, 10000),
            (ButtonType::Tertiary, ButtonInteraction::Pressed) => rgb(1900, 4900, 7100),
            (ButtonType::Tertiary, ButtonInteraction::Focus) => rgb(7700, 9000, 1000),
            _ => rgb(8000, 8300, 8500),
        }
    }

    /// The border width for this role under an interaction.
    pub fn border_width(&self, interaction: ButtonInteraction) -> (r: u32)
        ensures
            r == button_border_width_spec(*self, interaction),
    {
        match (self, interaction) {
            (ButtonType::Secondary, ButtonInteraction::Hovered) => 4,
            _ => 1,
        }
    }
}

/// The complete set of visual values a button shows.
#[derive(Debug, Clone, Copy, PartialEq, Eq, Structural)]
pub struct ButtonVisuals {
    /// Background fill.
    pub background: Rgba,
    /// Border color.
    pub border: Rgba,
    /// Border width in pixels.
    pub border_width: u32,
}

/// The interaction that decides a button's visuals: the disabled flag wins
/// over whatever the pointer does.
pub open spec fn effective_interaction_spec(
    interaction: ButtonInteraction,
    disabled: bool,
) -> ButtonInteraction {
    if disabled {
        ButtonInteraction::Disabled
    } else {
        interaction
    }
}

/// The visuals of a button of role `button_type` under `interaction`, with
/// the disabled flag overriding the pointer.
pub fn button_visuals(button_type: ButtonType, interaction: ButtonInteraction, disabled: bool) -> (r:
    ButtonVisuals)
    ensures
        r.background == button_background_spec(
            button_type,
            effective_interaction_spec(interaction, disabled),
        ),
        r.border == button_border_spec(
            button_type,
            effective_interaction_spec(interaction, disabled),
        ),
        r.border_width == button_border_width_spec(
            button_type,
            effective_interaction_spec(interaction, disabled),
        ),
{
    let sub = if disabled {
        ButtonInteraction::Disabled
    } else {
        interaction
    };
    ButtonVisuals {
        background: button_type.background_color(sub),
        border: button_type.border_color(sub),
        border_width: button_type.border_width(sub),
    }
}

/// Reacts to one interaction change on a button: the new visuals, and a
/// click event exactly when an enabled button is pressed, carrying a copy of
/// its text.
pub fn button_update(
    entity: WidgetId,
    text: &ButtonsText,
    button_type: ButtonType,
    interaction: ButtonInteraction,
    disabled: bool,
) -> (r: (ButtonVisuals, Option<ButtonClickedEvent>))
    ensures
        r.0.background == button_background_spec(
            button_type,
            effective_interaction_spec(interaction, disabled),
        ),
        r.0.border == button_border_spec(
            button_type,
            effective_interaction_spec(interaction, disabled),
        ),
        r.0.border_width == button_border_width_spec(
            button_type,
            effective_interaction_spec(interaction, disabled),
        ),
        (r.1 is Some) <==> (!disabled && interaction == ButtonInteraction::Pressed),
        r.1 is Some ==> r.1->0.entity == entity && r.1->0.value@ == text.0@,
{
    let visuals = button_visuals(button_type, interaction, disabled);
    if !disabled && matches!(interaction, ButtonInteraction::Pressed) {
        (visuals, Option::Some(ButtonClickedEvent { entity, value: text.0.clone() }))
    } else {
        (visuals, Option::None)
    }
}

/// Everything a freshly built button starts with.
#[derive(Debug, Clone, PartialEq, Eq)]
pub struct ButtonBundle {
    /// Buttons take focus from clicks.
    pub clickable: Clickable,
    /// The button's text.
    pub text: ButtonsText,
    /// The color role.
    pub button_type: ButtonType,
    /// A fixed width, when one was configured.
    pub width: Option<u32>,
    /// The height in pixels.
    pub height: u32,
    /// The padding on each axis.
    pub padding: PaddingAxes,
    /// The initial border width.
    pub border_width: u32,
    /// The initial border color.
    pub border_color: Rgba,
    /// The initial background fill.
    pub background_color: Rgba,
    /// The corner shape.
    pub corner_radius: CornerRadius,
    /// The text's font size.
    pub font_size: u32,
    /// The text's color.
    pub font_color: Rgba,
}

/// Assembles the initial component values of one button.
#[derive(Debug, Clone, PartialEq, Eq)]
pub struct ButtonBuilder {
    /// The color role.
    pub button_type: ButtonType,
    /// The height class.
    pub button_size: ButtonSize,
    /// The corner shape.
    pub button_radius: ButtonRadius,
    /// The text to show, if any.
    pub text: Option<String>,
    /// A fixed width, if one was configured.
    pub width: Option<u32>,
}

impl ButtonBuilder {
    /// A builder for a button showing `text`, with every option at its
    /// default: primary, medium, squared, no fixed width.
    pub fn new(text: String) -> (r: ButtonBuilder)
        ensures
            r.button_type == ButtonType::Primary,
            r.button_size == ButtonSize::Medium,
            r.button_radius == ButtonRadius::Squared,
            r.text == Option::Some(text),
            r.width is None,
    {
        ButtonBuilder {
            button_type: ButtonType::Primary,
            button_size: ButtonSize::Medium,
            button_radius: ButtonRadius::Squared,
            text: Option::Some(text),
            width: Option::None,
        }
    }

    /// A builder for a button with no text and every option at its default.
    pub fn empty() -> (r: ButtonBuilder)
        ensures
            r.button_type == ButtonType::Primary,
            r.button_size == ButtonSize::Medium,
            r.button_radius == ButtonRadius::Squared,
            r.text is None,
            r.width is None,
    {
        ButtonBuilder {
            button_type: ButtonType::Primary,
            button_size: ButtonSize::Medium,
            button_radius: ButtonRadius::Squared,
            text: Option::None,
            width: Option::None,
        }
    }

    /// Sets the color role.
    pub fn with_type(self, button_type: ButtonType) -> (r: ButtonBuilder)
        ensures
            r == (ButtonBuilder { button_type, ..self }),
    {
        ButtonBuilder { button_type, ..self }
    }

    /// Sets the height class.
    pub fn with_size(self, button_size: ButtonSize) -> (r: ButtonBuilder)
        ensures
            r == (ButtonBuilder { button_size, ..self }),
    {
        ButtonBuilder { button_size, ..self }
    }

    /// Sets the corner shape.
    pub fn with_radius(self, button_radius: ButtonRadius) -> (r: ButtonBuilder)
        ensures
            r == (ButtonBuilder { button_radius, ..self }),
    {
        ButtonBuilder { button_radius, ..self }
    }

    /// Fixes the button's width, in pixels.
    pub fn with_fixed_width(self, width: u32) -> (r: ButtonBuilder)
        ensures
            r == (ButtonBuilder { width: Option::Some(width), ..self }),
    {
        ButtonBuilder { width: Option::Some(width), ..self }
    }

    /// Builds the bundle of initial component values for this button.
    pub fn build(self) -> (r: ButtonBundle)
        ensures
            self.text is Some ==> r.text.0@ == self.text->0@,
            self.text is None ==> r.text.0@ == Seq::<char>::empty(),
            r.button_type == self.button_type,
            r.width == self.width,
            r.height == (match self.button_size {
                ButtonSize::Small => 20u32,
                ButtonSize::Medium => 24u32,
                ButtonSize::Large => 30u32,
            }),
            r.padding == (match self.button_size {
                ButtonSize::Small => PaddingAxes { horizontal: 16, vertical: 8 },
                ButtonSize::Medium => PaddingAxes { horizontal: 20, vertical: 12 },
                ButtonSize::Large => PaddingAxes { horizontal: 24, vertical: 16 },
            }),
            r.border_width == 1,
            r.border_color == button_border_spec(self.button_type, ButtonInteraction::Idle),
            r.background_color == button_background_spec(
                self.button_type,
                ButtonInteraction::Idle,
            ),
            r.corner_radius == (match self.button_radius {
                ButtonRadius::Squared => CornerRadius::Px(4),
                ButtonRadius::Rounded => CornerRadius::Full,
            }),
            r.font_size == (match self.button_size {
                ButtonSize::Large => 13u32,
                _ => 10u32,
            }),
    {
        let text = match self.text {
            Option::Some(t) => t,
            Option::None => String::new(),
        };
        let border_color = self.button_type.border_color(ButtonInteraction::Idle);
        let background_color = self.button_type.background_color(ButtonInteraction::Idle);
        let font_color = self.button_type.font_color();
        ButtonBundle {
            clickable: Clickable,
            text: ButtonsText(text),
            button_type: self.button_type,
            width: self.width,
            height: self.button_size.height(),
            padding: self.button_size.padding(),
            border_width: 1,
            border_color,
            background_color,
            corner_radius: self.button_radius.radius(),
            font_size: self.button_size.font_size(),
            font_color,
        }
    }
}

/// Shorthand for the primary color role, handed to a builder.
#[derive(Debug, Clone, Copy, PartialEq, Eq, Structural, Hash)]
pub struct Primary;

/// Shorthand for the secondary color role, handed to a builder.
#[derive(Debug, Clone, Copy, PartialEq, Eq, Structural, Hash)]
pub struct Secondary;

/// Shorthand for the tertiary color role, handed to a builder.
#[derive(Debug, Clone, Copy, PartialEq, Eq, Structural, Hash)]
pub struct Tertiary;

/// Shorthand for the small height class, handed to a builder.
#[derive(Debug, Clone, Copy, PartialEq, Eq, Structural, Hash)]
pub struct Small;

/// Shorthand for the medium height class, handed to a builder.
#[derive(Debug, Clone, Copy, PartialEq, Eq, Structural, Hash)]
pub struct Medium;

/// Shorthand for the large height class, handed to a builder.
#[derive(Debug, Clone, Copy, PartialEq, Eq, Structural, Hash)]
pub struct Large;

/// Shorthand for square corners, handed to a builder.
#[derive(Debug, Clone, Copy, PartialEq, Eq, Structural, Hash)]
pub struct Squared;

/// Shorthand for round corners, handed to a builder.
#[derive(Debug, Clone, Copy, PartialEq, Eq, Structural, Hash)]
pub struct Rounded;

/// Shorthand for a button with every option at its default.
#[derive(Debug, Clone, Copy, PartialEq, Eq, Structural, Hash)]
pub struct Default;

impl Primary {
    /// Applies this option: the primary role (the default one).
    pub fn configure(self, builder: ButtonBuilder) -> (r: ButtonBuilder)
        ensures
            r == (ButtonBuilder { button_type: ButtonType::Primary, ..builder }),
    {
        builder.with_type(ButtonType::Primary)
    }
}

impl Secondary {
    /// Applies this option: the secondary role.
    pub fn configure(self, builder: ButtonBuilder) -> (r: ButtonBuilder)
        ensures
            r == (ButtonBuilder { button_type: ButtonType::Secondary, ..builder }),
    {
        builder.with_type(ButtonType::Secondary)
    }
}

impl Tertiary {
    /// Applies this option: the tertiary role.
    pub fn configure(self, builder: ButtonBuilder) -> (r: ButtonBuilder)
        ensures
            r == (ButtonBuilder { button_type: ButtonType::Tertiary, ..builder }),
    {
        builder.with_type(ButtonType::Tertiary)
    }
}

impl Small {
    /// Applies this option: the small height class.
    pub fn configure(self, builder: ButtonBuilder) -> (r: ButtonBuilder)
        ensures
            r == (ButtonBuilder { button_size: ButtonSize::Small, ..builder }),
    {
        builder.with_size(ButtonSize::Small)
    }
}

impl Medium {
    /// Applies this option: the medium height class (the default one).
    pub fn configure(self, builder: ButtonBuilder) -> (r: ButtonBuilder)
        ensures
            r == (ButtonBuilder { button_size: ButtonSize::Medium, ..builder }),
    {
        builder.with_size(ButtonSize::Medium)
    }
}

impl Large {
    /// Applies this option: the large height class.
    pub fn configure(self, builder: ButtonBuilder) -> (r: ButtonBuilder)
        ensures
            r == (ButtonBuilder { button_size: ButtonSize::Large, ..builder }),
    {
        builder.with_size(ButtonSize::Large)
    }
}

impl Squared {
    /// Applies this option: square corners (the default ones).
    pub fn configure(self, builder: ButtonBuilder) -> (r: ButtonBuilder)
        ensures
            r == (ButtonBuilder { button_radius: ButtonRadius::Squared, ..builder }),
    {
        builder.with_radius(ButtonRadius::Squared)
    }
}

impl Rounded {
    /// Applies this option: round corners.
    pub fn configure(self, builder: ButtonBuilder) -> (r: ButtonBuilder)
        ensures
            r == (ButtonBuilder { button_radius: ButtonRadius::Rounded, ..builder }),
    {
        builder.with_radius(ButtonRadius::Rounded)
    }
}

impl Default {
    /// Applies this option: every default, so the builder is unchanged.
    pub fn configure(self, builder: ButtonBuilder) -> (r: ButtonBuilder)
        ensures
            r == builder,
    {
        builder
    }
}

} // verus!
