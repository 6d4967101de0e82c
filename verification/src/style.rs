//! The style tables the widgets derive their visuals from: colors per field
//! state, size metrics per field size, and the placeholder's derived color.
//!
//! Colors are carried as RGBA channels in ten-thousandths (10000 is full
//! intensity), which represents every constant of the design palette
//! exactly; the host divides by 10000 when it hands them to its renderer.

use vstd::prelude::*;

use crate::field_state::InputFieldState;

verus! {

/// An RGBA color; each channel in ten-thousandths of full intensity.
#[derive(Clone, Copy, PartialEq, Eq, Structural, Debug)]
pub struct Rgba {
    /// Red, `0 ..= 10000`.
    pub red: u16,
    /// Green, `0 ..= 10000`.
    pub green: u16,
    /// Blue, `0 ..= 10000`.
    pub blue: u16,
    /// Alpha, `0 ..= 10000`; 0 is fully transparent.
    pub alpha: u16,
}

/// An opaque color from three channels.
pub open spec fn rgb_spec(red: u16, green: u16, blue: u16) -> Rgba {
    Rgba { red, green, blue, alpha: 10000 }
}

/// An opaque color from three channels in ten-thousandths.
pub fn rgb(red: u16, green: u16, blue: u16) -> (r: Rgba)
    ensures
        r == rgb_spec(red, green, blue),
{
    Rgba { red, green, blue, alpha: 10000 }
}

/// The fully transparent color.
pub fn transparent() -> (r: Rgba)
    ensures
        r == (Rgba { red: 0, green: 0, blue: 0, alpha: 0 }),
{
    Rgba { red: 0, green: 0, blue: 0, alpha: 0 }
}

/// The background color of a field in a given state.
pub fn field_background_color(state: InputFieldState) -> (r: Rgba)
    ensures
        r == (match state {
            InputFieldState::Default => rgb_spec(9300, 9700, 10000),
            InputFieldState::Selected => rgb_spec(9300, 9700, 10000),
            InputFieldState::Warning => rgb_spec(10000, 9800, 9000),
            InputFieldState::Error => rgb_spec(10000, 9000, 9000),
            InputFieldState::Disabled => rgb_spec(8000, 8300, 8500),
            InputFieldState::Hovered => rgb_spec(7700, 9000, 10000),
        }),
{
    match state {
        InputFieldState::Default => rgb(9300, 9700, 10000),
        InputFieldState::Selected => rgb(9300, 9700, 10000),
        InputFieldState::Warning => rgb(10000, 9800, 9000),
        InputFieldState::Error => rgb(10000, 9000, 9000),
        InputFieldState::Disabled => rgb(8000, 8300, 8500),
        InputFieldState::Hovered => rgb(7700, 9000, 10000),
    }
}

/// The border color of a field in a given state.
pub fn field_border_color(state: InputFieldState) -> (r: Rgba)
    ensures
        r == (match state {
            InputFieldState::Default => rgb_spec(9300, 9700, 10000),
            InputFieldState::Selected => rgb_spec(5100, 7900, 10000),
            InputFieldState::Warning => rgb_spec(10000, 7800, 0),
            InputFieldState::Error => rgb_spec(10000, 0, 0),
            InputFieldState::Disabled => rgb_spec(8000, 8300, 8500),
            InputFieldState::Hovered => rgb_spec(7700, 9000, 10000),
        }),
{
    match state {
        InputFieldState::Default => rgb(9300, 9700, 10000),
        InputFieldState::Selected => rgb(5100, 7900, 10000),
        InputFieldState::Warning => rgb(10000, 7800, 0),
        InputFieldState::Error => rgb(10000, 0, 0),
        InputFieldState::Disabled => rgb(8000, 8300, 8500),
        InputFieldState::Hovered => rgb(7700, 9000, 10000),
    }
}

/// The hint text color of a field in a given state.
pub fn field_hint_color(state: InputFieldState) -> (r: Rgba)
    ensures
        r == (match state {
            InputFieldState::Warning => rgb_spec(9100, 7100, 0),
            InputFieldState::Error => rgb_spec(9100, 0, 0),
            InputFieldState::Disabled => rgb_spec(4900, 5300, 5500),
            _ => rgb_spec(1900, 4900, 7100),
        }),
{
    match state {
        InputFieldState::Warning => rgb(9100, 7100, 0),
        InputFieldState::Error => rgb(9100, 0, 0),
        InputFieldState::Disabled => rgb(4900, 5300, 5500),
        _ => rgb(1900, 4900, 7100),
    }
}

/// The label color of a field in a given state.
pub fn field_label_color(state: InputFieldState) -> (r: Rgba)
    ensures
        r == (match state {
            InputFieldState::Warning => rgb_spec(9100, 7100, 0),
            InputFieldState::Error => rgb_spec(9100, 0, 0),
            _ => rgb_spec(4900, 5300, 5500),
        }),
{
    match state {
        InputFieldState::Warning => rgb(9100, 7100, 0),
        InputFieldState::Error => rgb(9100, 0, 0),
        _ => rgb(4900, 5300, 5500),
    }
}

/// The color the cursor glyph is drawn in: invisible while the field is
/// inactive, the text color otherwise.
pub fn cursor_display_color(inactive: bool, text_color: Rgba) -> (r: Rgba)
    ensures
        inactive ==> r == (Rgba { red: 0, green: 0, blue: 0, alpha: 0 }),
        !inactive ==> r == text_color,
{
    if inactive {
        transparent()
    } else {
        text_color
    }
}

/// The placeholder's color, derived from the text color: the same channels
/// at a quarter of the alpha (rounded down).
pub fn placeholder_color(color: &Rgba) -> (r: Rgba)
    ensures
        r == (Rgba { alpha: (color.alpha / 4) as u16, ..*color }),
{
    Rgba { red: color.red, green: color.green, blue: color.blue, alpha: color.alpha / 4 }
}

/// The fixed color of placeholder text.
pub fn placeholder_text_color() -> (r: Rgba)
    ensures
        r == (Rgba { red: 2900, green: 3100, blue: 3300, alpha: 8700 }),
{
    Rgba { red: 2900, green: 3100, blue: 3300, alpha: 8700 }
}

/// The default text color of a field.
pub fn default_text_color() -> (r: Rgba)
    ensures
        r == rgb_spec(2900, 3100, 3300),
{
    rgb(2900, 3100, 3300)
}

/// The background and border a text field repaints to when its state
/// changes, or `None` when that combination leaves the visuals alone (a
/// `Default` state repaints only once the field is inactive again, and a
/// `Selected` one only while it accepts input).
pub fn text_field_visual_update(state: InputFieldState, inactive: bool) -> (r: Option<(Rgba, Rgba)>)
    ensures
        r == (match (state, inactive) {
            (InputFieldState::Default, true) => Option::Some(
                (rgb_spec(9300, 9700, 10000), rgb_spec(9300, 9700, 10000)),
            ),
            (InputFieldState::Selected, false) => Option::Some(
                (rgb_spec(9300, 9700, 10000), rgb_spec(5100, 7900, 10000)),
            ),
            (InputFieldState::Warning, _) => Option::Some(
                (rgb_spec(10000, 9800, 9000), rgb_spec(10000, 7800, 0)),
            ),
            (InputFieldState::Error, _) => Option::Some(
                (rgb_spec(10000, 9000, 9000), rgb_spec(10000, 0, 0)),
            ),
            (InputFieldState::Disabled, _) => Option::Some(
                (rgb_spec(8000, 8300, 8500), rgb_spec(8000, 8300, 8500)),
            ),
            _ => Option::<(Rgba, Rgba)>::None,
        }),
{
    match (state, inactive) {
        (InputFieldState::Default, true) => Option::Some(
            (rgb(9300, 9700, 10000), rgb(9300, 9700, 10000)),
        ),
        (InputFieldState::Selected, false) => Option::Some(
            (rgb(9300, 9700, 10000), rgb(5100, 7900, 10000)),
        ),
        (InputFieldState::Warning, _) => Option::Some(
            (rgb(10000, 9800, 9000), rgb(10000, 7800, 0)),
        ),
        (InputFieldState::Error, _) => Option::Some((rgb(10000, 9000, 9000), rgb(10000, 0, 0))),
        (InputFieldState::Disabled, _) => Option::Some(
            (rgb(8000, 8300, 8500), rgb(8000, 8300, 8500)),
        ),
        _ => Option::None,
    }
}

/// The background and border a numeric field repaints to when its state
/// changes, or `None` when that combination leaves the visuals alone. A
/// numeric field has no validation overlays but repaints on hover.
pub fn numeric_field_visual_update(state: InputFieldState, inactive: bool) -> (r: Option<
    (Rgba, Rgba),
>)
    ensures
        r == (match (state, inactive) {
            (InputFieldState::Default, true) => Option::Some(
                (rgb_spec(9300, 9700, 10000), rgb_spec(9300, 9700, 10000)),
            ),
            (InputFieldState::Selected, false) => Option::Some(
                (rgb_spec(9300, 9700, 10000), rgb_spec(5100, 7900, 10000)),
            ),
            (InputFieldState::Disabled, _) => Option::Some(
                (rgb_spec(8000, 8300, 8500), rgb_spec(8000, 8300, 8500)),
            ),
            (InputFieldState::Hovered, true) => Option::Some(
                (rgb_spec(7700, 9000, 10000), rgb_spec(7700, 9000, 10000)),
            ),
            _ => Option::<(Rgba, Rgba)>::None,
        }),
{
    match (state, inactive) {
        (InputFieldState::Default, true) => Option::Some(
            (rgb(9300, 9700, 10000), rgb(9300, 9700, 10000)),
        ),
        (InputFieldState::Selected, false) => Option::Some(
            (rgb(9300, 9700, 10000), rgb(5100, 7900, 10000)),
        ),
        (InputFieldState::Disabled, _) => Option::Some(
            (rgb(8000, 8300, 8500), rgb(8000, 8300, 8500)),
        ),
        (InputFieldState::Hovered, true) => Option::Some(
            (rgb(7700, 9000, 10000), rgb(7700, 9000, 10000)),
        ),
        _ => Option::None,
    }
}

/// Heights a field can be laid out at.
#[derive(Clone, Copy, PartialEq, Eq, Structural, Debug, Hash)]
pub enum InputFieldSize {
    /// Font 10, height 28, minimum width 110.
    Small,
    /// Font 13, height 36, minimum width 200.
    Medium,
    /// Font 13, height 42, minimum width 360.
    Large,
}

/// Horizontal and vertical padding, in pixels on each axis.
#[derive(Clone, Copy, PartialEq, Eq, Structural, Debug)]
pub struct PaddingAxes {
    /// Left and right padding.
    pub horizontal: u32,
    /// Top and bottom padding.
    pub vertical: u32,
}

impl InputFieldSize {
    /// Whether this is the large size.
    pub fn is_large(&self) -> (r: bool)
        ensures
            r == (*self == InputFieldSize::Large),
    {
        match self {
            InputFieldSize::Large => true,
            _ => false,
        }
    }

    /// The font size of the field's text, in pixels.
    pub fn font_size(&self) -> (r: u32)
        ensures
            r == (match *self {
                InputFieldSize::Small => 10u32,
                _ => 13u32,
            }),
    {
        match self {
            InputFieldSize::Small => 10,
            _ => 13,
        }
    }

    /// The font size of the field's hint text, in pixels.
    pub fn hint_font_size(&self) -> (r: u32)
        ensures
            r == 8,
    {
        8
    }

    /// The font size of the field's label, in pixels.
    pub fn label_font_size(&self) -> (r: u32)
        ensures
            r == (match *self {
                InputFieldSize::Small => 8u32,
                _ => 10u32,
            }),
    {
        match self {
            InputFieldSize::Small => 8,
            _ => 10,
        }
    }

    /// The field's height, in pixels.
    pub fn height(&self) -> (r: u32)
        ensures
            r == (match *self {
                InputFieldSize::Small => 28u32,
                InputFieldSize::Medium => 36u32,
                InputFieldSize::Large => 42u32,
            }),
    {
        match self {
            InputFieldSize::Small => 28,
            InputFieldSize::Medium => 36,
            InputFieldSize::Large => 42,
        }
    }

    /// The gap between the field and its hint text, in pixels.
    pub fn hint_text_spacing(&self) -> (r: u32)
        ensures
            r == (match *self {
                InputFieldSize::Small => 2u32,
                _ => 10u32,
            }),
    {
        match self {
            InputFieldSize::Small => 2,
            _ => 10,
        }
    }

    /// The field's minimum width, in pixels.
    pub fn min_width(&self) -> (r: u32)
        ensures
            r == (match *self {
                InputFieldSize::Small => 110u32,
                InputFieldSize::Medium => 200u32,
                InputFieldSize::Large => 360u32,
            }),
    {
        match self {
            InputFieldSize::Small => 110,
            InputFieldSize::Medium => 200,
            InputFieldSize::Large => 360,
        }
    }

    /// The field's padding: 16 pixels horizontally; vertically 8, or less
    /// when a label sits inside the field.
    pub fn padding(&self, has_label: bool) -> (r: PaddingAxes)
        ensures
            r.horizontal == 16,
            r.vertical == (if has_label {
                match *self {
                    InputFieldSize::Small => 2u32,
                    _ => 4u32,
                }
            } else {
                8u32
            }),
    {
        let vertical = if has_label {
            match self {
                InputFieldSize::Small => 2,
                _ => 4,
            }
        } else {
            8
        };
        PaddingAxes { horizontal: 16, vertical }
    }
}

} // verus!
