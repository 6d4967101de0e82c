//! The per-field interaction state machine: the visual/input state of one
//! interactive field, driven by focus changes, pointer enter/exit and
//! validation results, with a sticky disabled flag that short-circuits every
//! transition.

use vstd::prelude::*;

verus! {

/// The visual/input state of an interactive field.
#[derive(Clone, Copy, PartialEq, Eq, Structural, Debug, Hash)]
pub enum InputFieldState {
    /// Enabled but inactive.
    Default,
    /// Focused and ready to receive input.
    Selected,
    /// Under the pointer while not focused.
    Hovered,
    /// A warning validation overlay.
    Warning,
    /// An error validation overlay.
    Error,
    /// Cannot receive input.
    Disabled,
}

impl InputFieldState {
    /// Whether this state is a validation overlay.
    pub open spec fn validation_state_spec(self) -> bool {
        self == InputFieldState::Warning || self == InputFieldState::Error
    }

    /// Whether this state is a validation overlay (`Warning` or `Error`).
    pub fn validation_state(&self) -> (r: bool)
        ensures
            r == self.validation_state_spec(),
    {
        match self {
            InputFieldState::Warning | InputFieldState::Error => true,
            _ => false,
        }
    }
}

/// The interaction record of one field: its visual state, whether keyboard
/// input is currently ignored (`inactive`), the sticky disabled flag, the
/// state remembered before a hover, and the state remembered when a
/// validation overlay first fired.
#[derive(Clone, Copy, PartialEq, Eq, Debug)]
pub struct FieldInteraction {
    /// The current visual state.
    pub state: InputFieldState,
    /// True while the field ignores keyboard input (it is not focused).
    pub inactive: bool,
    /// Sticky: while set, every transition is ignored.
    pub disabled: bool,
    /// The state to restore when the pointer leaves.
    pub prev_hover: Option<InputFieldState>,
    /// The state to restore when validation clears.
    pub validation_origin: Option<InputFieldState>,
}

/// The record after the field gains focus: `Selected`, accepting keyboard
/// input. Ignored while disabled.
pub open spec fn focus_gained_spec(s: FieldInteraction) -> FieldInteraction {
    if s.disabled {
        s
    } else {
        FieldInteraction { state: InputFieldState::Selected, inactive: false, ..s }
    }
}

/// The record after the field loses focus: `Default`, ignoring keyboard
/// input. Ignored while disabled.
pub open spec fn focus_lost_spec(s: FieldInteraction) -> FieldInteraction {
    if s.disabled {
        s
    } else {
        FieldInteraction { state: InputFieldState::Default, inactive: true, ..s }
    }
}

/// The record after the pointer enters the field while it is not focused:
/// the current state is remembered (unless already `Hovered`) and the state
/// becomes `Hovered`. Ignored while disabled or focused.
pub open spec fn pointer_enter_spec(s: FieldInteraction) -> FieldInteraction {
    if s.disabled || !s.inactive {
        s
    } else if s.state != InputFieldState::Hovered {
        FieldInteraction {
            state: InputFieldState::Hovered,
            prev_hover: Option::Some(s.state),
            ..s
        }
    } else {
        s
    }
}

/// The record after the pointer leaves the field while it is not focused:
/// the remembered pre-hover state is restored, or `Default` when none was
/// recorded. Ignored while disabled or focused.
pub open spec fn pointer_exit_spec(s: FieldInteraction) -> FieldInteraction {
    if s.disabled || !s.inactive {
        s
    } else {
        match s.prev_hover {
            Option::Some(p) => FieldInteraction { state: p, prev_hover: Option::None, ..s },
            Option::None => FieldInteraction { state: InputFieldState::Default, ..s },
        }
    }
}

/// The record after the validation predicates report. `error` wins over
/// `warning`; the first overlay remembers the state it covered; when both
/// predicates are quiet again and an overlay is showing, the remembered
/// state returns. Ignored while disabled.
pub open spec fn apply_validation_spec(
    s: FieldInteraction,
    warning: bool,
    error: bool,
) -> FieldInteraction {
    if s.disabled {
        s
    } else if error {
        FieldInteraction {
            state: InputFieldState::Error,
            validation_origin: if s.validation_origin is Some {
                s.validation_origin
            } else {
                Option::Some(s.state)
            },
            ..s
        }
    } else if warning {
        FieldInteraction {
            state: InputFieldState::Warning,
            validation_origin: if s.validation_origin is Some {
                s.validation_origin
            } else {
                Option::Some(s.state)
            },
            ..s
        }
    } else if s.state.validation_state_spec() && s.validation_origin is Some {
        FieldInteraction {
            state: s.validation_origin->0,
            validation_origin: Option::None,
            ..s
        }
    } else {
        s
    }
}

impl FieldInteraction {
    /// A fresh field: `Default`, inactive, enabled, nothing remembered.
    pub fn new() -> (r: FieldInteraction)
        ensures
            r == (FieldInteraction {
                state: InputFieldState::Default,
                inactive: true,
                disabled: false,
                prev_hover: Option::None,
                validation_origin: Option::None,
            }),
    {
        FieldInteraction {
            state: InputFieldState::Default,
            inactive: true,
            disabled: false,
            prev_hover: Option::None,
            validation_origin: Option::None,
        }
    }

    /// The field gained focus.
    pub fn on_focus_gained(&mut self)
        ensures
            *final(self) == focus_gained_spec(*old(self)),
    {
        if !self.disabled {
            self.state = InputFieldState::Selected;
            self.inactive = false;
        }
    }

    /// The field lost focus.
    pub fn on_focus_lost(&mut self)
        ensures
            *final(self) == focus_lost_spec(*old(self)),
    {
        if !self.disabled {
            self.state = InputFieldState::Default;
            self.inactive = true;
        }
    }

    /// The pointer entered the field.
    pub fn on_pointer_enter(&mut self)
        ensures
            *final(self) == pointer_enter_spec(*old(self)),
    {
        if !self.disabled && self.inactive {
            if !matches!(self.state, InputFieldState::Hovered) {
                self.prev_hover = Option::Some(self.state);
                self.state = InputFieldState::Hovered;
            }
        }
    }

    /// The pointer left the field.
    pub fn on_pointer_exit(&mut self)
        ensures
            *final(self) == pointer_exit_spec(*old(self)),
    {
        if !self.disabled && self.inactive {
            match self.prev_hover {
                Option::Some(p) => {
                    self.state = p;
                    self.prev_hover = Option::None;
                },
                Option::None => {
                    self.state = InputFieldState::Default;
                },
            }
        }
    }

    /// The validation predicates reported `warning` and `error`.
    pub fn apply_validation(&mut self, warning: bool, error: bool)
        ensures
            *final(self) == apply_validation_spec(*old(self), warning, error),
    {
        if self.disabled {
            return ;
        }
        if error {
            if matches!(self.validation_origin, Option::None) {
                self.validation_origin = Option::Some(self.state);
            }
            self.state = InputFieldState::Error;
        } else if warning {
            if matches!(self.validation_origin, Option::None) {
                self.validation_origin = Option::Some(self.state);
            }
            self.state = InputFieldState::Warning;
        } else {
            if self.state.validation_state() {
                match self.validation_origin {
                    Option::Some(origin) => {
                        self.state = origin;
                        self.validation_origin = Option::None;
                    },
                    Option::None => {},
                }
            }
        }
    }

    /// Marks the field disabled; every later transition is ignored until it
    /// is enabled again.
    pub fn set_disabled(&mut self)
        ensures
            *final(self) == (FieldInteraction {
                disabled: true,
                state: InputFieldState::Disabled,
                ..*old(self)
            }),
    {
        self.disabled = true;
        self.state = InputFieldState::Disabled;
    }

    /// Clears the disabled flag; the field returns to `Default`, inactive.
    pub fn set_enabled(&mut self)
        ensures
            *final(self) == (FieldInteraction {
                disabled: false,
                state: InputFieldState::Default,
                inactive: true,
                ..*old(self)
            }),
    {
        self.disabled = false;
        self.state = InputFieldState::Default;
        self.inactive = true;
    }
}

/// Law: a validation overlay restores exactly the state it covered. From any
/// enabled field showing no overlay and remembering none, a predicate firing
/// (warning or error) and later clearing returns the field to exactly the
/// state it had before, with nothing remembered, when no other predicate is
/// active in between.
pub proof fn lemma_validation_restore(s: FieldInteraction, warning: bool, error: bool)
    requires
        !s.disabled,
        !s.state.validation_state_spec(),
        s.validation_origin is None,
        warning || error,
    ensures
        apply_validation_spec(apply_validation_spec(s, warning, error), false, false) == (
        FieldInteraction {
            state: s.state,
            validation_origin: Option::None,
            ..s
        }),
        apply_validation_spec(apply_validation_spec(s, warning, error), false, false).state
            == s.state,
{
}

} // verus!
