//! Core state machines for a small widget toolkit: focus coordination,
//! text-field editing, numeric value models with clamping, validation
//! overlays, and the style tables that the widgets derive their visuals from.
//!
//! The crate is engine-agnostic: widgets are identified by plain ids, events
//! come in and go out as plain values, and a host application is expected to
//! run the per-tick loop that feeds pointer and keyboard input to these state
//! machines and applies the resulting visual values.

pub mod buttons;
pub mod display;
pub mod field_state;
pub mod focus;
pub mod input_fields;
pub mod numeric;
pub mod style;
pub mod text_edit;

use vstd::prelude::*;

verus! {

/// Identity of a widget, assigned by the host application.
#[derive(Clone, Copy, PartialEq, Eq, Structural, Debug)]
pub struct WidgetId(pub u64);

} // verus!
