//! The input-field widgets: their components, the key-binding table, the
//! keyboard handling that drives the text editing engine, the numeric field
//! built on the bounded value model, and the builders that assemble
//! spawnable bundles of initial component values.

use vstd::prelude::*;

use crate::field_state::FieldInteraction;
use crate::numeric::NumericKind;
use crate::numeric::NumericValue;
use crate::numeric::RangeEdge;
use crate::numeric::clamp_spec;
use crate::numeric::fmt_i128_spec;
use crate::numeric::format_i128;
use crate::numeric::kind_max_spec;
use crate::numeric::kind_min_spec;
use crate::style::InputFieldSize;
use crate::text_edit::EditOp;
use crate::text_edit::TextBuffer;
use crate::text_edit::edit_result;
use crate::WidgetId;

verus! {

/// Marks a text input widget.
#[derive(Clone, Copy, PartialEq, Eq, Structural, Debug)]
pub struct TextInput;

/// Marks a numeric input widget.
#[derive(Clone, Copy, PartialEq, Eq, Structural, Debug)]
pub struct NumericInput;

/// Marks the fixed label text of a field, which keyboard handling and
/// scrolling leave alone.
#[derive(Clone, Copy, PartialEq, Eq, Structural, Debug)]
pub struct FixedTextLabel;

/// A field's submit and masking settings.
#[derive(Clone, Copy, PartialEq, Eq, Structural, Debug)]
pub struct InputFieldSettings {
    /// When true, submitting keeps the text; when false, it clears it.
    pub retain_on_submit: bool,
    /// When set, the display shows this character instead of each typed one.
    pub mask_character: Option<char>,
}

impl InputFieldSettings {
    /// The default settings: text kept on submit, no mask.
    pub fn new() -> (r: InputFieldSettings)
        ensures
            r == (InputFieldSettings { retain_on_submit: true, mask_character: Option::None }),
    {
        InputFieldSettings { retain_on_submit: true, mask_character: Option::None }
    }
}

/// Whether a field ignores keyboard input (true whenever it is not focused).
#[derive(Clone, Copy, PartialEq, Eq, Structural, Debug)]
pub struct InputInactive(pub bool);

impl InputInactive {
    /// A fresh field starts inactive.
    pub fn new() -> (r: InputInactive)
        ensures
            r == InputInactive(true),
    {
        InputInactive(true)
    }

    /// The field now accepts keyboard input.
    pub fn active(&mut self)
        ensures
            *final(self) == InputInactive(false),
    {
        self.0 = false;
    }

    /// The field now ignores keyboard input.
    pub fn inactive(&mut self)
        ensures
            *final(self) == InputInactive(true),
    {
        self.0 = true;
    }
}

/// The label and hint texts of a field.
#[derive(Clone, PartialEq, Eq, Debug, Hash)]
pub struct TextInputDescriptions {
    /// The label shown inside the field's top edge, if any.
    pub label: Option<String>,
    /// The hint shown under the field, if any.
    pub hint: Option<String>,
}

/// The text shown over an empty, inactive field.
#[derive(Clone, PartialEq, Eq, Debug, Hash)]
pub struct Placeholder(pub String);

/// The characters a field accepts from the keyboard.
#[derive(Clone, PartialEq, Eq, Debug)]
pub struct AllowedCharSet(pub Vec<char>);

impl AllowedCharSet {
    /// Whether `c` is accepted.
    pub open spec fn allows(self, c: char) -> bool {
        self.0@.contains(c)
    }

    /// A set accepting exactly the given characters.
    pub fn new(input: Vec<char>) -> (r: AllowedCharSet)
        ensures
            forall|c: char| r.allows(c) <==> input@.contains(c),
    {
        AllowedCharSet(input)
    }

    /// Whether `c` is accepted.
    pub fn contains(&self, c: char) -> (r: bool)
        ensures
            r == self.allows(c),
    {
        let mut i: usize = 0;
        while i < self.0.len()
            invariant
                0 <= i <= self.0@.len(),
                forall|k: int| 0 <= k < i ==> self.0@[k] != c,
            decreases self.0@.len() - i,
        {
            if self.0[i] == c {
                return true;
            }
            i += 1;
        }
        false
    }

    /// Whether `input` is not accepted: true exactly when `input` lies
    /// outside the set.
    pub fn has_invalid_char(&self, input: char) -> (r: bool)
        ensures
            r == !self.allows(input),
    {
        !self.contains(input)
    }

    /// Whether any character of `input` lies outside the set.
    pub fn has_invalid_chars(&self, input: &Vec<char>) -> (r: bool)
        ensures
            r == exists|i: int| 0 <= i < input@.len() && !self.allows(input@[i]),
    {
        let mut i: usize = 0;
        while i < input.len()
            invariant
                0 <= i <= input@.len(),
                forall|k: int| 0 <= k < i ==> self.allows(input@[k]),
            decreases input@.len() - i,
        {
            if self.has_invalid_char(input[i]) {
                return true;
            }
            i += 1;
        }
        false
    }

    /// A copy of `input` keeping only the accepted characters.
    pub fn remove_invalid_chars(&self, input: &Vec<char>) -> (r: Vec<char>)
        ensures
            r@ == input@.filter(|c: char| self.allows(c)),
    {
        let mut r: Vec<char> = Vec::new();
        let mut i: usize = 0;
        while i < input.len()
            invariant
                0 <= i <= input@.len(),
                r@ =~= input@.take(i as int).filter(|c: char| self.allows(c)),
            decreases input@.len() - i,
        {
            if self.contains(input[i]) {
                r.push(input[i]);
            }
            proof {
                let p = |c: char| self.allows(c);
                assert(input@.take(i + 1) =~= input@.take(i as int).push(input@[i as int]));
                input@.take(i as int).lemma_filter_push(input@[i as int], p);
                assert(r@ =~= input@.take(i + 1).filter(p));
            }
            i += 1;
        }
        proof {
            assert(input@.take(input@.len() as int) =~= input@);
        }
        r
    }
}

/// The characters the keyboard may type into a field of the given kind:
/// digits, and a leading-minus candidate for signed kinds.
pub fn allowed_chars_for(kind: NumericKind) -> (r: AllowedCharSet)
    ensures
        forall|c: char| #[trigger]
            r.allows(c) <==> ('0' <= c <= '9' || (kind_signed_char(kind) && c == '-')),
{
    let mut v: Vec<char> = Vec::new();
    if kind.is_signed() {
        v.push('-');
    }
    v.push('0');
    v.push('1');
    v.push('2');
    v.push('3');
    v.push('4');
    v.push('5');
    v.push('6');
    v.push('7');
    v.push('8');
    v.push('9');
    let ghost vv = v@;
    let r = AllowedCharSet(v);
    proof {
        assert(forall|c: char| vv.contains(c) ==> ('0' <= c <= '9' || (kind_signed_char(kind)
            && c == '-'))) by {
            assert(forall|i: int| 0 <= i < vv.len() ==> ('0' <= #[trigger] vv[i] <= '9' || (
            kind_signed_char(kind) && vv[i] == '-')));
        }
        assert(forall|c: char| ('0' <= c <= '9' || (kind_signed_char(kind) && c == '-'))
            ==> vv.contains(c)) by {
            assert(vv[vv.len() - 10] == '0' && vv[vv.len() - 9] == '1' && vv[vv.len() - 8] == '2'
                && vv[vv.len() - 7] == '3' && vv[vv.len() - 6] == '4' && vv[vv.len() - 5] == '5'
                && vv[vv.len() - 4] == '6' && vv[vv.len() - 3] == '7' && vv[vv.len() - 2] == '8'
                && vv[vv.len() - 1] == '9');
            if kind_signed_char(kind) {
                assert(vv[0] == '-');
            }
            assert forall|c: char| '0' <= c <= '9' implies vv.contains(c) by {
                let d = (c as u32) - 48;
                assert(vv[vv.len() - 10 + d] == c);
            }
        }
    }
    r
}

/// Whether the kind admits a minus sign.
pub open spec fn kind_signed_char(kind: NumericKind) -> bool {
    crate::numeric::kind_signed_spec(kind)
}

/// A text navigation or editing action a key can be bound to.
#[derive(Clone, Copy, PartialEq, Eq, Structural, Debug)]
pub enum InputTextAction {
    /// Moves the cursor one character to the left.
    CharLeft,
    /// Moves the cursor one character to the right.
    CharRight,
    /// Moves the cursor to the start of the line.
    LineStart,
    /// Moves the cursor to the end of the line.
    LineEnd,
    /// Moves the cursor one word to the left.
    WordLeft,
    /// Moves the cursor one word to the right.
    WordRight,
    /// Removes the character left of the cursor.
    DeletePrev,
    /// Removes the character right of the cursor.
    DeleteNext,
    /// Submits the field's value, optionally clearing it.
    Submit,
}

/// The physical keys the binding table speaks of.
#[derive(Clone, Copy, PartialEq, Eq, Structural, Debug)]
pub enum KeyCode {
    /// Left arrow.
    ArrowLeft,
    /// Right arrow.
    ArrowRight,
    /// Home.
    Home,
    /// End.
    End,
    /// Backspace.
    Backspace,
    /// The keypad's backspace.
    NumpadBackspace,
    /// Delete.
    Delete,
    /// Enter.
    Enter,
    /// The keypad's enter.
    NumpadEnter,
    /// Left control.
    ControlLeft,
    /// Right control.
    ControlRight,
    /// Left alt or option.
    AltLeft,
    /// Right alt or option.
    AltRight,
    /// Left platform key.
    SuperLeft,
    /// Right platform key.
    SuperRight,
    /// Escape.
    Escape,
    /// Space.
    Space,
    /// Any key the table does not name.
    Other,
}

/// One key binding: the key, and the modifiers that must all be held.
#[derive(Clone, PartialEq, Eq, Debug)]
pub struct TextInputBinding {
    /// The key that triggers the action.
    pub key: KeyCode,
    /// Every one of these must be held.
    pub modifiers: Vec<KeyCode>,
}

impl TextInputBinding {
    /// A binding of `key` under the given modifiers.
    pub fn new(key: KeyCode, modifiers: Vec<KeyCode>) -> (r: TextInputBinding)
        ensures
            r.key == key,
            r.modifiers@ == modifiers@,
    {
        TextInputBinding { key, modifiers }
    }
}

/// The key-binding table: the first entry whose key and held modifiers match
/// decides the action.
pub struct InputTextNavigationBindings(pub Vec<(InputTextAction, TextInputBinding)>);

/// Whether every modifier of `binding` is held.
pub open spec fn modifiers_held_spec(binding: TextInputBinding, held: Seq<KeyCode>) -> bool {
    forall|i: int| 0 <= i < binding.modifiers@.len() ==> held.contains(#[trigger] binding.modifiers@[i])
}

/// The action of the first table entry whose key is `key` and whose
/// modifiers are all held.
pub open spec fn resolve_action_spec(
    table: Seq<(InputTextAction, TextInputBinding)>,
    held: Seq<KeyCode>,
    key: KeyCode,
) -> Option<InputTextAction>
    decreases table.len(),
{
    if table.len() == 0 {
        Option::None
    } else if table[0].1.key == key && modifiers_held_spec(table[0].1, held) {
        Option::Some(table[0].0)
    } else {
        resolve_action_spec(table.skip(1), held, key)
    }
}

fn contains_key(held: &Vec<KeyCode>, key: KeyCode) -> (r: bool)
    ensures
        r == held@.contains(key),
{
    let mut i: usize = 0;
    while i < held.len()
        invariant
            0 <= i <= held@.len(),
            forall|k: int| 0 <= k < i ==> held@[k] != key,
        decreases held@.len() - i,
    {
        if matches_key(held[i], key) {
            return true;
        }
        i += 1;
    }
    false
}

fn matches_key(a: KeyCode, b: KeyCode) -> (r: bool)
    ensures
        r == (a == b),
{
    match (a, b) {
        (KeyCode::ArrowLeft, KeyCode::ArrowLeft) => true,
        (KeyCode::ArrowRight, KeyCode::ArrowRight) => true,
        (KeyCode::Home, KeyCode::Home) => true,
        (KeyCode::End, KeyCode::End) => true,
        (KeyCode::Backspace, KeyCode::Backspace) => true,
        (KeyCode::NumpadBackspace, KeyCode::NumpadBackspace) => true,
        (KeyCode::Delete, KeyCode::Delete) => true,
        (KeyCode::Enter, KeyCode::Enter) => true,
        (KeyCode::NumpadEnter, KeyCode::NumpadEnter) => true,
        (KeyCode::ControlLeft, KeyCode::ControlLeft) => true,
        (KeyCode::ControlRight, KeyCode::ControlRight) => true,
        (KeyCode::AltLeft, KeyCode::AltLeft) => true,
        (KeyCode::AltRight, KeyCode::AltRight) => true,
        (KeyCode::SuperLeft, KeyCode::SuperLeft) => true,
        (KeyCode::SuperRight, KeyCode::SuperRight) => true,
        (KeyCode::Escape, KeyCode::Escape) => true,
        (KeyCode::Space, KeyCode::Space) => true,
        (KeyCode::Other, KeyCode::Other) => true,
        _ => false,
    }
}

fn modifiers_held(binding: &TextInputBinding, held: &Vec<KeyCode>) -> (r: bool)
    ensures
        r == modifiers_held_spec(*binding, held@),
{
    let mut i: usize = 0;
    while i < binding.modifiers.len()
        invariant
            0 <= i <= binding.modifiers@.len(),
            forall|k: int| 0 <= k < i ==> held@.contains(#[trigger] binding.modifiers@[k]),
        decreases binding.modifiers@.len() - i,
    {
        if !contains_key(held, binding.modifiers[i]) {
            return false;
        }
        i += 1;
    }
    true
}

/// Finds the action bound to `key` under the held modifiers: the first
/// matching table entry wins.
pub fn resolve_action(
    bindings: &InputTextNavigationBindings,
    held: &Vec<KeyCode>,
    key: KeyCode,
) -> (r: Option<InputTextAction>)
    ensures
        r == resolve_action_spec(bindings.0@, held@, key),
{
    let ghost table = bindings.0@;
    proof {
        assert(table.skip(0) =~= table);
    }
    let mut i: usize = 0;
    while i < bindings.0.len()
        invariant
            0 <= i <= table.len(),
            table == bindings.0@,
            resolve_action_spec(table, held@, key) == resolve_action_spec(
                table.skip(i as int),
                held@,
                key,
            ),
        decreases table.len() - i,
    {
        let entry = &bindings.0[i];
        proof {
            assert(table.skip(i as int)[0] == table[i as int]);
            assert(table.skip(i as int).skip(1) =~= table.skip(i + 1));
        }
        if matches_key(entry.1.key, key) && modifiers_held(&entry.1, held) {
            return Option::Some(entry.0);
        }
        i += 1;
    }
    proof {
        assert(table.skip(table.len() as int).len() == 0);
    }
    Option::None
}

impl InputTextNavigationBindings {
    /// The standard binding table: Home and End for the line, the arrows
    /// for characters, Control-arrows for words, Backspace and Delete for
    /// removal, Enter to submit.
    pub fn standard() -> (r: InputTextNavigationBindings)
        ensures
            r.0@.len() == 13,
            r.0@[0].0 == InputTextAction::LineStart && r.0@[0].1.key == KeyCode::Home
                && r.0@[0].1.modifiers@ =~= Seq::<KeyCode>::empty(),
            r.0@[1].0 == InputTextAction::LineEnd && r.0@[1].1.key == KeyCode::End
                && r.0@[1].1.modifiers@ =~= Seq::<KeyCode>::empty(),
            r.0@[2].0 == InputTextAction::WordLeft && r.0@[2].1.key == KeyCode::ArrowLeft
                && r.0@[2].1.modifiers@ =~= seq![KeyCode::ControlLeft],
            r.0@[3].0 == InputTextAction::WordLeft && r.0@[3].1.key == KeyCode::ArrowLeft
                && r.0@[3].1.modifiers@ =~= seq![KeyCode::ControlRight],
            r.0@[4].0 == InputTextAction::WordRight && r.0@[4].1.key == KeyCode::ArrowRight
                && r.0@[4].1.modifiers@ =~= seq![KeyCode::ControlLeft],
            r.0@[5].0 == InputTextAction::WordRight && r.0@[5].1.key == KeyCode::ArrowRight
                && r.0@[5].1.modifiers@ =~= seq![KeyCode::ControlRight],
            r.0@[6].0 == InputTextAction::CharLeft && r.0@[6].1.key == KeyCode::ArrowLeft
                && r.0@[6].1.modifiers@ =~= Seq::<KeyCode>::empty(),
            r.0@[7].0 == InputTextAction::CharRight && r.0@[7].1.key == KeyCode::ArrowRight
                && r.0@[7].1.modifiers@ =~= Seq::<KeyCode>::empty(),
            r.0@[8].0 == InputTextAction::DeletePrev && r.0@[8].1.key == KeyCode::Backspace
                && r.0@[8].1.modifiers@ =~= Seq::<KeyCode>::empty(),
            r.0@[9].0 == InputTextAction::DeletePrev && r.0@[9].1.key == KeyCode::NumpadBackspace
                && r.0@[9].1.modifiers@ =~= Seq::<KeyCode>::empty(),
            r.0@[10].0 == InputTextAction::DeleteNext && r.0@[10].1.key == KeyCode::Delete
                && r.0@[10].1.modifiers@ =~= Seq::<KeyCode>::empty(),
            r.0@[11].0 == InputTextAction::Submit && r.0@[11].1.key == KeyCode::Enter
                && r.0@[11].1.modifiers@ =~= Seq::<KeyCode>::empty(),
            r.0@[12].0 == InputTextAction::Submit && r.0@[12].1.key == KeyCode::NumpadEnter
                && r.0@[12].1.modifiers@ =~= Seq::<KeyCode>::empty(),
    {
        let mut v: Vec<(InputTextAction, TextInputBinding)> = Vec::new();
        v.push((InputTextAction::LineStart, TextInputBinding::new(KeyCode::Home, Vec::new())));
        v.push((InputTextAction::LineEnd, TextInputBinding::new(KeyCode::End, Vec::new())));
        v.push(
            (
                InputTextAction::WordLeft,
                TextInputBinding::new(KeyCode::ArrowLeft, one_key(KeyCode::ControlLeft)),
            ),
        );
        v.push(
            (
                InputTextAction::WordLeft,
                TextInputBinding::new(KeyCode::ArrowLeft, one_key(KeyCode::ControlRight)),
            ),
        );
        v.push(
            (
                InputTextAction::WordRight,
                TextInputBinding::new(KeyCode::ArrowRight, one_key(KeyCode::ControlLeft)),
            ),
        );
        v.push(
            (
                InputTextAction::WordRight,
                TextInputBinding::new(KeyCode::ArrowRight, one_key(KeyCode::ControlRight)),
            ),
        );
        v.push((InputTextAction::CharLeft, TextInputBinding::new(KeyCode::ArrowLeft, Vec::new())));
        v.push(
            (InputTextAction::CharRight, TextInputBinding::new(KeyCode::ArrowRight, Vec::new())),
        );
        v.push(
            (InputTextAction::DeletePrev, TextInputBinding::new(KeyCode::Backspace, Vec::new())),
        );
        v.push(
            (
                InputTextAction::DeletePrev,
                TextInputBinding::new(KeyCode::NumpadBackspace, Vec::new()),
            ),
        );
        v.push((InputTextAction::DeleteNext, TextInputBinding::new(KeyCode::Delete, Vec::new())));
        v.push((InputTextAction::Submit, TextInputBinding::new(KeyCode::Enter, Vec::new())));
        v.push((InputTextAction::Submit, TextInputBinding::new(KeyCode::NumpadEnter, Vec::new())));
        InputTextNavigationBindings(v)
    }

    /// The binding table for platforms where the platform key moves to the
    /// line edges and the option key moves by words.
    pub fn apple() -> (r: InputTextNavigationBindings)
        ensures
            r.0@.len() == 15,
            r.0@[0].0 == InputTextAction::LineStart && r.0@[0].1.key == KeyCode::ArrowLeft
                && r.0@[0].1.modifiers@ =~= seq![KeyCode::SuperLeft],
            r.0@[1].0 == InputTextAction::LineStart && r.0@[1].1.key == KeyCode::ArrowLeft
                && r.0@[1].1.modifiers@ =~= seq![KeyCode::SuperRight],
            r.0@[2].0 == InputTextAction::LineEnd && r.0@[2].1.key == KeyCode::ArrowRight
                && r.0@[2].1.modifiers@ =~= seq![KeyCode::SuperLeft],
            r.0@[3].0 == InputTextAction::LineEnd && r.0@[3].1.key == KeyCode::ArrowRight
                && r.0@[3].1.modifiers@ =~= seq![KeyCode::SuperRight],
            r.0@[4].0 == InputTextAction::WordLeft && r.0@[4].1.key == KeyCode::ArrowLeft
                && r.0@[4].1.modifiers@ =~= seq![KeyCode::AltLeft],
            r.0@[5].0 == InputTextAction::WordLeft && r.0@[5].1.key == KeyCode::ArrowLeft
                && r.0@[5].1.modifiers@ =~= seq![KeyCode::AltRight],
            r.0@[6].0 == InputTextAction::WordRight && r.0@[6].1.key == KeyCode::ArrowRight
                && r.0@[6].1.modifiers@ =~= seq![KeyCode::AltLeft],
            r.0@[7].0 == InputTextAction::WordRight && r.0@[7].1.key == KeyCode::ArrowRight
                && r.0@[7].1.modifiers@ =~= seq![KeyCode::AltRight],
            r.0@[8].0 == InputTextAction::CharLeft && r.0@[8].1.key == KeyCode::ArrowLeft
                && r.0@[8].1.modifiers@ =~= Seq::<KeyCode>::empty(),
            r.0@[9].0 == InputTextAction::CharRight && r.0@[9].1.key == KeyCode::ArrowRight
                && r.0@[9].1.modifiers@ =~= Seq::<KeyCode>::empty(),
            r.0@[10].0 == InputTextAction::DeletePrev && r.0@[10].1.key == KeyCode::Backspace
                && r.0@[10].1.modifiers@ =~= Seq::<KeyCode>::empty(),
            r.0@[11].0 == InputTextAction::DeletePrev && r.0@[11].1.key == KeyCode::NumpadBackspace
                && r.0@[11].1.modifiers@ =~= Seq::<KeyCode>::empty(),
            r.0@[12].0 == InputTextAction::DeleteNext && r.0@[12].1.key == KeyCode::Delete
                && r.0@[12].1.modifiers@ =~= Seq::<KeyCode>::empty(),
            r.0@[13].0 == InputTextAction::Submit && r.0@[13].1.key == KeyCode::Enter
                && r.0@[13].1.modifiers@ =~= Seq::<KeyCode>::empty(),
            r.0@[14].0 == InputTextAction::Submit && r.0@[14].1.key == KeyCode::NumpadEnter
                && r.0@[14].1.modifiers@ =~= Seq::<KeyCode>::empty(),
    {
        let mut v: Vec<(InputTextAction, TextInputBinding)> = Vec::new();
        v.push(
            (
                InputTextAction::LineStart,
                TextInputBinding::new(KeyCode::ArrowLeft, one_key(KeyCode::SuperLeft)),
            ),
        );
        v.push(
            (
                InputTextAction::LineStart,
                TextInputBinding::new(KeyCode::ArrowLeft, one_key(KeyCode::SuperRight)),
            ),
        );
        v.push(
            (
                InputTextAction::LineEnd,
                TextInputBinding::new(KeyCode::ArrowRight, one_key(KeyCode::SuperLeft)),
            ),
        );
        v.push(
            (
                InputTextAction::LineEnd,
                TextInputBinding::new(KeyCode::ArrowRight, one_key(KeyCode::SuperRight)),
            ),
        );
        v.push(
            (
                InputTextAction::WordLeft,
                TextInputBinding::new(KeyCode::ArrowLeft, one_key(KeyCode::AltLeft)),
            ),
        );
        v.push(
            (
                InputTextAction::WordLeft,
                TextInputBinding::new(KeyCode::ArrowLeft, one_key(KeyCode::AltRight)),
            ),
        );
        v.push(
            (
                InputTextAction::WordRight,
                TextInputBinding::new(KeyCode::ArrowRight, one_key(KeyCode::AltLeft)),
            ),
        );
        v.push(
            (
                InputTextAction::WordRight,
                TextInputBinding::new(KeyCode::ArrowRight, one_key(KeyCode::AltRight)),
            ),
        );
        v.push((InputTextAction::CharLeft, TextInputBinding::new(KeyCode::ArrowLeft, Vec::new())));
        v.push(
            (InputTextAction::CharRight, TextInputBinding::new(KeyCode::ArrowRight, Vec::new())),
        );
        v.push(
            (InputTextAction::DeletePrev, TextInputBinding::new(KeyCode::Backspace, Vec::new())),
        );
        v.push(
            (
                InputTextAction::DeletePrev,
                TextInputBinding::new(KeyCode::NumpadBackspace, Vec::new()),
            ),
        );
        v.push((InputTextAction::DeleteNext, TextInputBinding::new(KeyCode::Delete, Vec::new())));
        v.push((InputTextAction::Submit, TextInputBinding::new(KeyCode::Enter, Vec::new())));
        v.push((InputTextAction::Submit, TextInputBinding::new(KeyCode::NumpadEnter, Vec::new())));
        InputTextNavigationBindings(v)
    }
}

fn one_key(key: KeyCode) -> (r: Vec<KeyCode>)
    ensures
        r@ =~= seq![key],
{
    let mut v: Vec<KeyCode> = Vec::new();
    v.push(key);
    v
}

/// Fired when a field's value is submitted.
#[derive(Clone, PartialEq, Eq, Debug)]
pub struct InputFieldSubmitEvent {
    /// The field that submitted.
    pub entity: WidgetId,
    /// The field's text at the time of the submit.
    pub value: Vec<char>,
}

/// One keyboard event, as the host hands it in.
#[derive(Clone, PartialEq, Eq, Debug)]
pub struct KeyboardInput {
    /// The physical key.
    pub key_code: KeyCode,
    /// Whether the key went down (releases are ignored).
    pub pressed: bool,
    /// The characters the key produces, when it produces any.
    pub text: Option<Vec<char>>,
}

/// The editing operation an action stands for; `None` for `Submit`, which
/// is not an edit.
pub open spec fn action_edit_op_spec(a: InputTextAction) -> Option<EditOp> {
    match a {
        InputTextAction::CharLeft => Option::Some(EditOp::CharLeft),
        InputTextAction::CharRight => Option::Some(EditOp::CharRight),
        InputTextAction::LineStart => Option::Some(EditOp::LineStart),
        InputTextAction::LineEnd => Option::Some(EditOp::LineEnd),
        InputTextAction::WordLeft => Option::Some(EditOp::WordLeft),
        InputTextAction::WordRight => Option::Some(EditOp::WordRight),
        InputTextAction::DeletePrev => Option::Some(EditOp::DeletePrev),
        InputTextAction::DeleteNext => Option::Some(EditOp::DeleteNext),
        InputTextAction::Submit => Option::None,
    }
}

/// Whether the optional character set accepts every character of `s`.
pub open spec fn insertion_allowed_spec(allowed: Option<AllowedCharSet>, s: Seq<char>) -> bool {
    match allowed {
        Option::Some(cs) => forall|i: int| 0 <= i < s.len() ==> cs.allows(#[trigger] s[i]),
        Option::None => true,
    }
}

/// A text input field: its buffer, interaction state, settings, and the
/// optional restriction on typable characters.
pub struct TextField {
    /// Submit and masking settings.
    pub settings: InputFieldSettings,
    /// The text and its cursor.
    pub buffer: TextBuffer,
    /// The interaction state machine.
    pub interaction: FieldInteraction,
    /// When set, only these characters can be typed.
    pub allowed: Option<AllowedCharSet>,
    /// Set when an edit should restart the cursor blink timer.
    pub should_reset_cursor_timer: bool,
}

impl TextField {
    /// The cursor sits inside the buffer.
    pub open spec fn wf(self) -> bool {
        self.buffer.wf()
    }

    /// A fresh unrestricted field with the given settings.
    pub fn new(settings: InputFieldSettings) -> (r: TextField)
        ensures
            r.wf(),
            r.settings == settings,
            r.buffer.text() == Seq::<char>::empty(),
            r.buffer.cursor_at() == 0,
            r.interaction == (FieldInteraction {
                state: crate::field_state::InputFieldState::Default,
                inactive: true,
                disabled: false,
                prev_hover: Option::None,
                validation_origin: Option::None,
            }),
            r.allowed is None,
            !r.should_reset_cursor_timer,
    {
        TextField {
            settings,
            buffer: TextBuffer::new(),
            interaction: FieldInteraction::new(),
            allowed: Option::None,
            should_reset_cursor_timer: false,
        }
    }

    /// What the field displays: the masked text before the cursor, the
    /// cursor glyph, and the masked text after the cursor.
    pub fn display_sections(&self) -> (r: (Vec<char>, Vec<char>, Vec<char>))
        requires
            self.wf(),
        ensures
            r.0@ == crate::display::masked_spec(
                self.buffer.text(),
                self.settings.mask_character,
            ).take(self.buffer.cursor_at()),
            r.1@ =~= seq![
                crate::display::cursor_glyph_spec(
                    self.buffer.text().len() as int,
                    self.buffer.cursor_at(),
                ),
            ],
            r.2@ == crate::display::masked_spec(
                self.buffer.text(),
                self.settings.mask_character,
            ).skip(self.buffer.cursor_at()),
    {
        let chars = self.buffer.chars();
        let masked = crate::display::masked_value(&chars, self.settings.mask_character);
        crate::display::get_section_values(&masked, self.buffer.cursor())
    }

    /// Handles one keyboard event.
    ///
    /// Nothing happens unless the key went down and the field accepts input
    /// (active, not disabled). A bound action drives the editing engine, or
    /// submits: a submit returns the field's text, clearing it first when
    /// the settings say so. An unbound key types its characters, unless the
    /// field restricts its characters and one of them is not accepted.
    pub fn handle_key(
        &mut self,
        input: &KeyboardInput,
        bindings: &InputTextNavigationBindings,
        held: &Vec<KeyCode>,
    ) -> (submitted: Option<Vec<char>>)
        requires
            old(self).wf(),
        ensures
            final(self).wf(),
            final(self).settings == old(self).settings,
            final(self).interaction == old(self).interaction,
            final(self).allowed == old(self).allowed,
            ({
                let pre = *old(self);
                let post = *final(self);
                let act = resolve_action_spec(bindings.0@, held@, input.key_code);
                let text0 = pre.buffer.text();
                let cur0 = pre.buffer.cursor_at();
                if !input.pressed || pre.interaction.inactive || pre.interaction.disabled {
                    post == pre && submitted is None
                } else if act == Option::Some(InputTextAction::Submit) {
                    submitted is Some && submitted->0@ == text0
                        && post.should_reset_cursor_timer == pre.should_reset_cursor_timer && (
                    if pre.settings.retain_on_submit {
                        post.buffer.text() == text0 && post.buffer.cursor_at() == cur0
                    } else {
                        post.buffer.text() == Seq::<char>::empty() && post.buffer.cursor_at() == 0
                    })
                } else if act is Some {
                    let step = edit_result(text0, cur0, action_edit_op_spec(act->0)->0);
                    submitted is None && post.should_reset_cursor_timer && post.buffer.text()
                        == step.0 && post.buffer.cursor_at() == step.1
                } else if input.text is Some && insertion_allowed_spec(
                    pre.allowed,
                    input.text->0@,
                ) {
                    submitted is None && post.should_reset_cursor_timer && post.buffer.text()
                        =~= text0.take(cur0) + input.text->0@ + text0.skip(cur0)
                        && post.buffer.cursor_at() == cur0 + input.text->0@.len()
                } else {
                    post == pre && submitted is None
                }
            }),
    {
        if !input.pressed || self.interaction.inactive || self.interaction.disabled {
            return Option::None;
        }
        let action = resolve_action(bindings, held, input.key_code);
        match action {
            Option::Some(InputTextAction::Submit) => {
                if self.settings.retain_on_submit {
                    let value = self.buffer.chars();
                    Option::Some(value)
                } else {
                    let value = self.buffer.take_value();
                    Option::Some(value)
                }
            },
            Option::Some(InputTextAction::CharLeft) => {
                self.buffer.apply(&EditOp::CharLeft);
                self.should_reset_cursor_timer = true;
                Option::None
            },
            Option::Some(InputTextAction::CharRight) => {
                self.buffer.apply(&EditOp::CharRight);
                self.should_reset_cursor_timer = true;
                Option::None
            },
            Option::Some(InputTextAction::LineStart) => {
                self.buffer.apply(&EditOp::LineStart);
                self.should_reset_cursor_timer = true;
                Option::None
            },
            Option::Some(InputTextAction::LineEnd) => {
                self.buffer.apply(&EditOp::LineEnd);
                self.should_reset_cursor_timer = true;
                Option::None
            },
            Option::Some(InputTextAction::WordLeft) => {
                self.buffer.apply(&EditOp::WordLeft);
                self.should_reset_cursor_timer = true;
                Option::None
            },
            Option::Some(InputTextAction::WordRight) => {
                self.buffer.apply(&EditOp::WordRight);
                self.should_reset_cursor_timer = true;
                Option::None
            },
            Option::Some(InputTextAction::DeletePrev) => {
                self.buffer.apply(&EditOp::DeletePrev);
                self.should_reset_cursor_timer = true;
                Option::None
            },
            Option::Some(InputTextAction::DeleteNext) => {
                self.buffer.apply(&EditOp::DeleteNext);
                self.should_reset_cursor_timer = true;
                Option::None
            },
            Option::None => {
                match &input.text {
                    Option::Some(chars) => {
                        let ok = match &self.allowed {
                            Option::Some(cs) => !cs.has_invalid_chars(chars),
                            Option::None => true,
                        };
                        if ok {
                            self.buffer.insert_text(chars);
                            self.should_reset_cursor_timer = true;
                        }
                        Option::None
                    },
                    Option::None => Option::None,
                }
            },
        }
    }
}

/// A numeric input field: the bounded value model, the text shown for it,
/// and the snapshot a drag gesture can be cancelled back to.
pub struct NumericField {
    /// The bounded value model.
    pub value: NumericValue,
    /// The text currently shown for the value.
    pub text: Vec<char>,
    /// The value at drag start, restored when the drag is cancelled.
    pub drag_snapshot: Option<i128>,
}

impl NumericField {
    /// The value model is well formed.
    pub open spec fn wf(self) -> bool {
        self.value.wf()
    }

    /// A field over `value`, showing its decimal form, with no drag active.
    pub fn new(value: NumericValue) -> (r: NumericField)
        requires
            value.wf(),
        ensures
            r.wf(),
            r.value == value,
            r.text@ == fmt_i128_spec(value.value_spec()),
            r.drag_snapshot is None,
    {
        let text = format_i128(value.get_value());
        NumericField { value, text, drag_snapshot: Option::None }
    }

    /// Reacts to the text having been edited: a parseable text is stored
    /// (clamped); anything else puts the stored value's decimal form back.
    pub fn on_text_changed(&mut self)
        requires
            old(self).wf(),
        ensures
            final(self).wf(),
            final(self).value.same_config(old(self).value),
            final(self).drag_snapshot == old(self).drag_snapshot,
            ({
                let parsed = crate::numeric::parse_i128_spec(
                    crate::numeric::trim_spec(old(self).text@),
                );
                if parsed is Some {
                    final(self).value.value_spec() == clamp_spec(
                        parsed->0 as int,
                        old(self).value.lo(),
                        old(self).value.hi(),
                    ) && final(self).text@ == old(self).text@
                } else {
                    final(self).value.value_spec() == old(self).value.value_spec()
                        && final(self).text@ == fmt_i128_spec(old(self).value.value_spec())
                }
            }),
    {
        self.value.sync_with_text(&mut self.text);
    }

    /// A drag begins: the current value is remembered.
    pub fn on_drag_start(&mut self)
        requires
            old(self).wf(),
        ensures
            final(self).wf(),
            final(self).value == old(self).value,
            final(self).text@ == old(self).text@,
            final(self).drag_snapshot == Option::Some(
                (old(self).value.value_spec()) as i128,
            ),
    {
        let v = self.value.get_value();
        self.drag_snapshot = Option::Some(v);
    }

    /// A drag movement: the value moves by the drag step per unit of
    /// movement (vertical inverted), clamped, and the text shows the new
    /// value.
    pub fn on_drag(&mut self, dx: i32, dy: i32)
        requires
            old(self).wf(),
        ensures
            final(self).wf(),
            final(self).value.same_config(old(self).value),
            final(self).drag_snapshot == old(self).drag_snapshot,
            final(self).value.value_spec() == clamp_spec(
                old(self).value.value_spec() + old(self).value.drag_step_spec() * (dx as int
                    - dy as int),
                old(self).value.lo(),
                old(self).value.hi(),
            ),
            final(self).text@ == fmt_i128_spec(final(self).value.value_spec()),
    {
        self.value.drag_by(dx, dy);
        self.text = format_i128(self.value.get_value());
    }

    /// The drag ended normally: the snapshot is discarded, the value stays.
    pub fn on_drag_end(&mut self)
        ensures
            final(self).value == old(self).value,
            final(self).text@ == old(self).text@,
            final(self).drag_snapshot is None,
    {
        self.drag_snapshot = Option::None;
    }

    /// The cancel key was pressed: when a drag snapshot exists, the
    /// remembered value is stored back (clamped), shown, and the snapshot
    /// discarded; otherwise nothing changes.
    pub fn on_escape(&mut self)
        requires
            old(self).wf(),
        ensures
            final(self).wf(),
            final(self).value.same_config(old(self).value),
            ({
                let pre = *old(self);
                let post = *final(self);
                match pre.drag_snapshot {
                    Option::Some(snap) => post.drag_snapshot is None
                        && post.value.value_spec() == clamp_spec(
                        snap as int,
                        pre.value.lo(),
                        pre.value.hi(),
                    ) && post.text@ == fmt_i128_spec(post.value.value_spec()),
                    Option::None => post == pre,
                }
            }),
    {
        match self.drag_snapshot {
            Option::Some(snap) => {
                self.value.set_value(snap);
                self.text = format_i128(self.value.get_value());
                self.drag_snapshot = Option::None;
            },
            Option::None => {},
        }
    }
}

/// Assembles the initial component values of one text input field.
#[derive(Clone, PartialEq, Eq, Debug)]
pub struct TextInputBuilder {
    /// The field's height class.
    pub size: InputFieldSize,
    /// The label shown inside the field's top edge, if any.
    pub label: Option<String>,
    /// The placeholder shown over the empty field, if any.
    pub placeholder: Option<String>,
    /// The hint shown under the field, if any.
    pub hint_text: Option<String>,
    /// The mask character for password-like display, if any.
    pub mask: Option<char>,
    /// Whether submitting keeps the text.
    pub retain_on_submit: bool,
    /// The initial text.
    pub value: Vec<char>,
}

/// Everything a freshly built text input starts with.
pub struct TextInputBundle {
    /// The text input marker.
    pub marker: TextInput,
    /// Text inputs take focus from clicks.
    pub clickable: crate::focus::Clickable,
    /// Submit and masking settings.
    pub settings: InputFieldSettings,
    /// The interaction state machine, at its defaults.
    pub interaction: FieldInteraction,
    /// The height class.
    pub size: InputFieldSize,
    /// The text and cursor.
    pub buffer: TextBuffer,
    /// The placeholder text (empty when none was configured).
    pub placeholder: Placeholder,
    /// The label and hint texts.
    pub descriptions: TextInputDescriptions,
    /// The field's height in pixels.
    pub height: u32,
    /// The field's minimum width in pixels.
    pub min_width: u32,
    /// The field's border width in pixels.
    pub border_width: u32,
    /// The field's corner radius in pixels.
    pub corner_radius: u32,
    /// The field's padding.
    pub padding: crate::style::PaddingAxes,
    /// The text's font size in pixels.
    pub font_size: u32,
    /// The text's color.
    pub text_color: crate::style::Rgba,
    /// The initial background fill.
    pub background_color: crate::style::Rgba,
    /// The initial border color.
    pub border_color: crate::style::Rgba,
}

impl core::default::Default for TextInputBuilder {
    /// A builder with every option at its default, as [`TextInputBuilder::new`].
    fn default() -> (r: TextInputBuilder)
        ensures
            r.size == InputFieldSize::Medium,
            r.label is None,
            r.placeholder is None,
            r.hint_text is None,
            r.mask is None,
            r.retain_on_submit,
            r.value@ == Seq::<char>::empty(),
    {
        TextInputBuilder::new()
    }
}

impl TextInputBuilder {
    /// A builder with every option at its default: medium, no texts, no
    /// mask, text kept on submit, empty value.
    pub fn new() -> (r: TextInputBuilder)
        ensures
            r.size == InputFieldSize::Medium,
            r.label is None,
            r.placeholder is None,
            r.hint_text is None,
            r.mask is None,
            r.retain_on_submit,
            r.value@ == Seq::<char>::empty(),
    {
        TextInputBuilder {
            size: InputFieldSize::Medium,
            label: Option::None,
            placeholder: Option::None,
            hint_text: Option::None,
            mask: Option::None,
            retain_on_submit: true,
            value: Vec::new(),
        }
    }

    /// Clears the text on submit instead of keeping it.
    pub fn clear_on_submit(self) -> (r: TextInputBuilder)
        ensures
            r == (TextInputBuilder { retain_on_submit: false, ..self }),
    {
        TextInputBuilder { retain_on_submit: false, ..self }
    }

    /// Masks the display with `*`.
    pub fn password(self) -> (r: TextInputBuilder)
        ensures
            r == (TextInputBuilder { mask: Option::Some('*'), ..self }),
    {
        TextInputBuilder { mask: Option::Some('*'), ..self }
    }

    /// Masks the display with the given character.
    pub fn with_mask(self, mask: char) -> (r: TextInputBuilder)
        ensures
            r == (TextInputBuilder { mask: Option::Some(mask), ..self }),
    {
        TextInputBuilder { mask: Option::Some(mask), ..self }
    }

    /// Sets the height class.
    pub fn with_size(self, size: InputFieldSize) -> (r: TextInputBuilder)
        ensures
            r == (TextInputBuilder { size, ..self }),
    {
        TextInputBuilder { size, ..self }
    }

    /// Adds a label.
    pub fn with_label(self, label: String) -> (r: TextInputBuilder)
        ensures
            r == (TextInputBuilder { label: Option::Some(label), ..self }),
    {
        TextInputBuilder { label: Option::Some(label), ..self }
    }

    /// Sets the initial text.
    pub fn with_initial_value(self, value: Vec<char>) -> (r: TextInputBuilder)
        ensures
            r == (TextInputBuilder { value, ..self }),
    {
        TextInputBuilder { value, ..self }
    }

    /// Adds a placeholder.
    pub fn with_placeholder(self, placeholder: String) -> (r: TextInputBuilder)
        ensures
            r == (TextInputBuilder { placeholder: Option::Some(placeholder), ..self }),
    {
        TextInputBuilder { placeholder: Option::Some(placeholder), ..self }
    }

    /// Adds a hint text.
    pub fn with_hint_text(self, hint_text: String) -> (r: TextInputBuilder)
        ensures
            r == (TextInputBuilder { hint_text: Option::Some(hint_text), ..self }),
    {
        TextInputBuilder { hint_text: Option::Some(hint_text), ..self }
    }

    /// Builds the bundle of initial component values for this field.
    pub fn build(self) -> (r: TextInputBundle)
        ensures
            r.settings == (InputFieldSettings {
                retain_on_submit: self.retain_on_submit,
                mask_character: self.mask,
            }),
            r.interaction == (FieldInteraction {
                state: crate::field_state::InputFieldState::Default,
                inactive: true,
                disabled: false,
                prev_hover: Option::None,
                validation_origin: Option::None,
            }),
            r.size == self.size,
            r.buffer.wf(),
            r.buffer.text() == self.value@,
            r.buffer.cursor_at() == self.value@.len(),
            self.placeholder is Some ==> r.placeholder.0@ == self.placeholder->0@,
            self.placeholder is None ==> r.placeholder.0@ == Seq::<char>::empty(),
            r.descriptions.label == self.label,
            r.descriptions.hint == self.hint_text,
            r.height == (match self.size {
                InputFieldSize::Small => 28u32,
                InputFieldSize::Medium => 36u32,
                InputFieldSize::Large => 42u32,
            }),
            r.min_width == (match self.size {
                InputFieldSize::Small => 110u32,
                InputFieldSize::Medium => 200u32,
                InputFieldSize::Large => 360u32,
            }),
            r.border_width == 2,
            r.corner_radius == 8,
            r.padding.horizontal == 16,
            r.padding.vertical == (if self.label is Some {
                match self.size {
                    InputFieldSize::Small => 2u32,
                    _ => 4u32,
                }
            } else {
                8u32
            }),
            r.font_size == (match self.size {
                InputFieldSize::Small => 10u32,
                _ => 13u32,
            }),
            r.text_color == crate::style::rgb_spec(2900, 3100, 3300),
            r.background_color == crate::style::rgb_spec(9300, 9700, 10000),
            r.border_color == crate::style::rgb_spec(9300, 9700, 10000),
    {
        let settings = InputFieldSettings {
            retain_on_submit: self.retain_on_submit,
            mask_character: self.mask,
        };
        let interaction = FieldInteraction::new();
        let has_label = matches!(&self.label, Option::Some(_));
        let padding = self.size.padding(has_label);
        let height = self.size.height();
        let min_width = self.size.min_width();
        let font_size = self.size.font_size();
        let placeholder = match self.placeholder {
            Option::Some(p) => Placeholder(p),
            Option::None => Placeholder(String::new()),
        };
        let descriptions = TextInputDescriptions { label: self.label, hint: self.hint_text };
        let state = crate::field_state::InputFieldState::Default;
        let background_color = crate::style::field_background_color(state);
        let border_color = crate::style::field_border_color(state);
        TextInputBundle {
            marker: TextInput,
            clickable: crate::focus::Clickable,
            settings,
            interaction,
            size: self.size,
            buffer: TextBuffer::with_value(self.value),
            placeholder,
            descriptions,
            height,
            min_width,
            border_width: 2,
            corner_radius: 8,
            padding,
            font_size,
            text_color: crate::style::default_text_color(),
            background_color,
            border_color,
        }
    }
}

/// Assembles the initial component values of one numeric input field.
#[derive(Clone, Copy, PartialEq, Eq, Debug)]
pub struct NumericFieldBuilder {
    /// The kind of number the field holds.
    pub kind: NumericKind,
    /// The initial value, if any (zero otherwise).
    pub value: Option<i128>,
    /// The configured minimum, if any.
    pub min: Option<i128>,
    /// The configured maximum, if any.
    pub max: Option<i128>,
    /// Whether the range was described with an inclusive upper edge.
    pub end_inclusive: bool,
    /// The change per drag step, if configured (one unit otherwise).
    pub drag_step: Option<i64>,
    /// The field's height class.
    pub size: InputFieldSize,
    /// The maximum component width, if configured.
    pub max_width: Option<u32>,
    /// The minimum component width, if configured.
    pub min_width: Option<u32>,
    /// The initial component width, if configured.
    pub width: Option<u32>,
    /// The mask character, if any.
    pub mask: Option<char>,
    /// Whether submitting keeps the text.
    pub retain_on_submit: bool,
}

/// Everything a freshly built numeric input starts with.
pub struct NumericFieldBundle {
    /// The numeric input marker.
    pub marker: NumericInput,
    /// Numeric inputs take focus from clicks.
    pub clickable: crate::focus::Clickable,
    /// The characters the keyboard may type.
    pub allowed: AllowedCharSet,
    /// The value model, its text, and the drag snapshot slot.
    pub field: NumericField,
    /// Submit and masking settings.
    pub settings: InputFieldSettings,
    /// The interaction state machine, at its defaults.
    pub interaction: FieldInteraction,
    /// The height class.
    pub size: InputFieldSize,
    /// The field's height in pixels.
    pub height: u32,
    /// The minimum component width in pixels.
    pub min_width: u32,
    /// The maximum component width in pixels.
    pub max_width: u32,
    /// The initial component width in pixels.
    pub width: u32,
    /// The border width in pixels.
    pub border_width: u32,
    /// The corner radius in pixels.
    pub corner_radius: u32,
    /// The field's padding.
    pub padding: crate::style::PaddingAxes,
    /// The text's font size in pixels.
    pub font_size: u32,
    /// The text's color.
    pub text_color: crate::style::Rgba,
    /// The initial background fill.
    pub background_color: crate::style::Rgba,
    /// The initial border color.
    pub border_color: crate::style::Rgba,
}

impl NumericFieldBuilder {
    /// A builder for a field of the given kind, with every option at its
    /// default: no bounds, drag step of one, medium size, text kept on
    /// submit.
    pub fn new(kind: NumericKind) -> (r: NumericFieldBuilder)
        ensures
            r == (NumericFieldBuilder {
                kind,
                value: Option::None,
                min: Option::None,
                max: Option::None,
                end_inclusive: false,
                drag_step: Option::None,
                size: InputFieldSize::Medium,
                max_width: Option::None,
                min_width: Option::None,
                width: Option::None,
                mask: Option::None,
                retain_on_submit: true,
            }),
    {
        NumericFieldBuilder {
            kind,
            value: Option::None,
            min: Option::None,
            max: Option::None,
            end_inclusive: false,
            drag_step: Option::None,
            size: InputFieldSize::Medium,
            max_width: Option::None,
            min_width: Option::None,
            width: Option::None,
            mask: Option::None,
            retain_on_submit: true,
        }
    }

    /// Sets the initial value.
    pub fn with_initial_value(self, value: i128) -> (r: NumericFieldBuilder)
        ensures
            r == (NumericFieldBuilder { value: Option::Some(value), ..self }),
    {
        NumericFieldBuilder { value: Option::Some(value), ..self }
    }

    /// Clears the text on submit instead of keeping it.
    pub fn clear_on_submit(self) -> (r: NumericFieldBuilder)
        ensures
            r == (NumericFieldBuilder { retain_on_submit: false, ..self }),
    {
        NumericFieldBuilder { retain_on_submit: false, ..self }
    }

    /// Masks the display with the given character.
    pub fn with_mask(self, mask: char) -> (r: NumericFieldBuilder)
        ensures
            r == (NumericFieldBuilder { mask: Option::Some(mask), ..self }),
    {
        NumericFieldBuilder { mask: Option::Some(mask), ..self }
    }

    /// Derives the bounds from a range description: either edge value
    /// becomes the bound on its side, and an excluded upper edge is
    /// recorded as such.
    pub fn with_range(self, start: RangeEdge, end: RangeEdge) -> (r: NumericFieldBuilder)
        ensures
            r.min == (match start {
                RangeEdge::Included(m) | RangeEdge::Excluded(m) => Option::Some(m),
                RangeEdge::Unbounded => Option::<i128>::None,
            }),
            r.max == (match end {
                RangeEdge::Included(m) | RangeEdge::Excluded(m) => Option::Some(m),
                RangeEdge::Unbounded => Option::<i128>::None,
            }),
            r.end_inclusive == !(end is Excluded),
            r == (NumericFieldBuilder {
                min: r.min,
                max: r.max,
                end_inclusive: r.end_inclusive,
                ..self
            }),
    {
        let min = match start {
            RangeEdge::Included(m) | RangeEdge::Excluded(m) => Option::Some(m),
            RangeEdge::Unbounded => Option::None,
        };
        let max = match end {
            RangeEdge::Included(m) | RangeEdge::Excluded(m) => Option::Some(m),
            RangeEdge::Unbounded => Option::None,
        };
        let end_inclusive = match end {
            RangeEdge::Excluded(_) => false,
            RangeEdge::Included(_) | RangeEdge::Unbounded => true,
        };
        NumericFieldBuilder { min, max, end_inclusive, ..self }
    }

    /// Sets the change per drag step.
    pub fn with_drag_step(self, drag_step: i64) -> (r: NumericFieldBuilder)
        ensures
            r == (NumericFieldBuilder { drag_step: Option::Some(drag_step), ..self }),
    {
        NumericFieldBuilder { drag_step: Option::Some(drag_step), ..self }
    }

    /// Sets the height class.
    pub fn with_size(self, size: InputFieldSize) -> (r: NumericFieldBuilder)
        ensures
            r == (NumericFieldBuilder { size, ..self }),
    {
        NumericFieldBuilder { size, ..self }
    }

    /// Sets the maximum component width.
    pub fn with_max_width(self, width: u32) -> (r: NumericFieldBuilder)
        ensures
            r == (NumericFieldBuilder { max_width: Option::Some(width), ..self }),
    {
        NumericFieldBuilder { max_width: Option::Some(width), ..self }
    }

    /// Sets the minimum component width.
    pub fn with_min_width(self, width: u32) -> (r: NumericFieldBuilder)
        ensures
            r == (NumericFieldBuilder { min_width: Option::Some(width), ..self }),
    {
        NumericFieldBuilder { min_width: Option::Some(width), ..self }
    }

    /// Sets the initial component width.
    pub fn with_initial_width(self, width: u32) -> (r: NumericFieldBuilder)
        ensures
            r == (NumericFieldBuilder { width: Option::Some(width), ..self }),
    {
        NumericFieldBuilder { width: Option::Some(width), ..self }
    }

    /// Fixes the component width: initial, minimum and maximum all at the
    /// given value.
    pub fn with_fixed_width(self, width: u32) -> (r: NumericFieldBuilder)
        ensures
            r == (NumericFieldBuilder {
                width: Option::Some(width),
                min_width: Option::Some(width),
                max_width: Option::Some(width),
                ..self
            }),
    {
        NumericFieldBuilder {
            width: Option::Some(width),
            min_width: Option::Some(width),
            max_width: Option::Some(width),
            ..self
        }
    }

    /// The bundle of a constrained numeric field as the one-call
    /// convenience assembles it: medium size, the given initial value and
    /// range, text cleared on submit.
    pub fn spawn_numeric_field(kind: NumericKind, initial_value: i128, start: RangeEdge, end: RangeEdge) -> (r:
        NumericFieldBundle)
        ensures
            r.field.wf(),
            r.field.value.kind_spec() == kind,
            r.size == InputFieldSize::Medium,
            !r.settings.retain_on_submit,
            r.field.value.value_spec() == clamp_spec(
                initial_value as int,
                kind_min_spec(kind),
                kind_max_spec(kind),
            ),
            r.field.value.end_inclusive_spec() == !(end is Excluded),
    {
        NumericFieldBuilder::new(kind)
            .with_size(InputFieldSize::Medium)
            .with_initial_value(initial_value)
            .with_range(start, end)
            .clear_on_submit()
            .build()
    }

    /// Builds the bundle of initial component values for this field.
    pub fn build(self) -> (r: NumericFieldBundle)
        ensures
            r.field.wf(),
            r.field.value.kind_spec() == self.kind,
            r.field.value.end_inclusive_spec() == self.end_inclusive,
            r.field.value.drag_step_spec() == (match self.drag_step {
                Option::Some(s) => s as int,
                Option::None => 1int,
            }),
            r.field.value.min_spec() == (match self.min {
                Option::Some(m) => Option::Some(
                    clamp_spec(m as int, kind_min_spec(self.kind), kind_max_spec(self.kind)),
                ),
                Option::None => Option::<int>::None,
            }),
            r.field.value.max_spec() == (match self.max {
                Option::Some(m) => Option::Some(
                    clamp_spec(m as int, r.field.value.lo(), kind_max_spec(self.kind)),
                ),
                Option::None => Option::<int>::None,
            }),
            r.field.value.value_spec() == clamp_spec(
                (match self.value {
                    Option::Some(v) => v as int,
                    Option::None => 0int,
                }),
                kind_min_spec(self.kind),
                kind_max_spec(self.kind),
            ),
            r.field.text@ == fmt_i128_spec(r.field.value.value_spec()),
            r.field.drag_snapshot is None,
            forall|c: char| #[trigger]
                r.allowed.allows(c) <==> ('0' <= c <= '9' || (kind_signed_char(self.kind) && c
                    == '-')),
            r.settings == (InputFieldSettings {
                retain_on_submit: self.retain_on_submit,
                mask_character: self.mask,
            }),
            r.interaction == (FieldInteraction {
                state: crate::field_state::InputFieldState::Default,
                inactive: true,
                disabled: false,
                prev_hover: Option::None,
                validation_origin: Option::None,
            }),
            r.size == self.size,
            r.height == (match self.size {
                InputFieldSize::Small => 28u32,
                InputFieldSize::Medium => 36u32,
                InputFieldSize::Large => 42u32,
            }),
            r.min_width == (match self.min_width {
                Option::Some(w) => w,
                Option::None => 52u32,
            }),
            r.max_width as int == (match self.max_width {
                Option::Some(w) => w as int,
                Option::None => 3 * (match self.size {
                    InputFieldSize::Small => 110int,
                    InputFieldSize::Medium => 200int,
                    InputFieldSize::Large => 360int,
                }),
            }),
            r.width == (match self.width {
                Option::Some(w) => w,
                Option::None => r.min_width,
            }),
            r.border_width == 1,
            r.corner_radius == 8,
            r.padding.horizontal == 16,
            r.padding.vertical == 8,
            r.font_size == (match self.size {
                InputFieldSize::Small => 10u32,
                _ => 13u32,
            }),
            r.text_color == crate::style::rgb_spec(2900, 3100, 3300),
            r.background_color == crate::style::rgb_spec(9300, 9700, 10000),
            r.border_color == crate::style::rgb_spec(9300, 9700, 10000),
    {
        let initial = match self.value {
            Option::Some(v) => v,
            Option::None => 0,
        };
        let drag_step = match self.drag_step {
            Option::Some(s) => s,
            Option::None => self.kind.default_drag_step(),
        };
        let value = NumericValue::with_config(
            self.kind,
            initial,
            self.min,
            self.max,
            self.end_inclusive,
            drag_step,
        );
        let field = NumericField::new(value);
        let allowed = allowed_chars_for(self.kind);
        let settings = InputFieldSettings {
            retain_on_submit: self.retain_on_submit,
            mask_character: self.mask,
        };
        let interaction = FieldInteraction::new();
        let min_width = match self.min_width {
            Option::Some(w) => w,
            Option::None => 52,
        };
        let max_width = match self.max_width {
            Option::Some(w) => w,
            Option::None => 3 * self.size.min_width(),
        };
        let width = match self.width {
            Option::Some(w) => w,
            Option::None => min_width,
        };
        let state = crate::field_state::InputFieldState::Default;
        NumericFieldBundle {
            marker: NumericInput,
            clickable: crate::focus::Clickable,
            allowed,
            field,
            settings,
            interaction,
            size: self.size,
            height: self.size.height(),
            min_width,
            max_width,
            width,
            border_width: 1,
            corner_radius: 8,
            padding: self.size.padding(false),
            font_size: self.size.font_size(),
            text_color: crate::style::default_text_color(),
            background_color: crate::style::field_background_color(state),
            border_color: crate::style::field_border_color(state),
        }
    }
}

} // verus!
