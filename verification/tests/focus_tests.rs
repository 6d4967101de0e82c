use widgets::WidgetId;
use widgets::field_state::FieldInteraction;
use widgets::field_state::InputFieldState;
use widgets::focus::ClearFocus;
use widgets::focus::FocusCommand;
use widgets::focus::FocusNotice;
use widgets::focus::FocusSet;
use widgets::focus::GotFocus;
use widgets::focus::LostFocus;
use widgets::focus::SetFocus;

fn lost_count_for(notices: &[FocusNotice], w: WidgetId) -> usize {
    notices
        .iter()
        .filter(|n| matches!(n, FocusNotice::Lost(LostFocus(x)) if *x == w))
        .count()
}

fn got_count_for(notices: &[FocusNotice], w: WidgetId) -> usize {
    notices
        .iter()
        .filter(|n| matches!(n, FocusNotice::Got(GotFocus(x)) if *x == w))
        .count()
}

#[test]
fn single_focus_holder_over_a_sequence() {
    let a = WidgetId(1);
    let b = WidgetId(2);
    let c = WidgetId(3);
    let mut focus = FocusSet::new();
    for target in [a, b, c, b, b, a] {
        let notices = focus.set_focus(target);
        assert!(focus.is_focused(target));
        for other in [a, b, c] {
            if other != target {
                assert!(!focus.is_focused(other));
            }
        }
        assert_eq!(got_count_for(&notices, target), 1);
    }
}

#[test]
fn set_focus_notifies_each_loser_once() {
    let a = WidgetId(10);
    let b = WidgetId(20);
    let mut focus = FocusSet::new();
    let first = focus.set_focus(a);
    assert_eq!(first.len(), 1);
    assert_eq!(got_count_for(&first, a), 1);
    assert_eq!(lost_count_for(&first, a), 0);

    let second = focus.set_focus(b);
    assert_eq!(second.len(), 2);
    assert_eq!(lost_count_for(&second, a), 1);
    assert_eq!(lost_count_for(&second, b), 0);
    assert_eq!(got_count_for(&second, b), 1);
    assert_eq!(second[0], FocusNotice::Lost(LostFocus(a)));
    assert_eq!(second[1], FocusNotice::Got(GotFocus(b)));
}

#[test]
fn refocusing_the_holder_renotifies_it_only() {
    let a = WidgetId(7);
    let mut focus = FocusSet::new();
    focus.set_focus(a);
    let notices = focus.set_focus(a);
    assert_eq!(notices, vec![FocusNotice::Got(GotFocus(a))]);
    assert!(focus.is_focused(a));
}

#[test]
fn clear_focus_notifies_the_holder() {
    let a = WidgetId(4);
    let mut focus = FocusSet::new();
    focus.set_focus(a);
    let notices = focus.clear_focus();
    assert_eq!(notices, vec![FocusNotice::Lost(LostFocus(a))]);
    assert!(!focus.is_focused(a));
}

#[test]
fn clear_focus_on_nothing_is_silent() {
    let mut focus = FocusSet::new();
    let notices = focus.clear_focus();
    assert!(notices.is_empty());
}

#[test]
fn commands_dispatch_to_set_and_clear() {
    let a = WidgetId(5);
    let mut focus = FocusSet::new();
    let got = focus.apply(FocusCommand::Focus(SetFocus(a)));
    assert_eq!(got, vec![FocusNotice::Got(GotFocus(a))]);
    let lost = focus.apply(FocusCommand::Blur(ClearFocus));
    assert_eq!(lost, vec![FocusNotice::Lost(LostFocus(a))]);
}

#[test]
fn clicks_focus_only_clickable_widgets_on_primary() {
    let a = WidgetId(8);
    let b = WidgetId(9);
    let mut focus = FocusSet::new();
    focus.set_focus(a);

    let (notices, suppressed) = focus.click(b, false, true);
    assert!(notices.is_empty());
    assert!(!suppressed);
    assert!(focus.is_focused(a));

    let (notices, suppressed) = focus.click(b, true, false);
    assert!(notices.is_empty());
    assert!(!suppressed);
    assert!(focus.is_focused(a));

    let (notices, suppressed) = focus.click(b, true, true);
    assert!(suppressed);
    assert_eq!(lost_count_for(&notices, a), 1);
    assert_eq!(got_count_for(&notices, b), 1);
    assert!(focus.is_focused(b));
    assert!(!focus.is_focused(a));
}

#[test]
fn focus_handover_drives_field_states() {
    let a = WidgetId(100);
    let b = WidgetId(200);
    let mut focus = FocusSet::new();
    let mut field_a = FieldInteraction::new();
    let mut field_b = FieldInteraction::new();

    let mut a_lost = 0;
    let mut b_got = 0;

    for notice in focus.set_focus(a) {
        match notice {
            FocusNotice::Got(GotFocus(w)) if w == a => field_a.on_focus_gained(),
            FocusNotice::Lost(LostFocus(w)) if w == a => field_a.on_focus_lost(),
            _ => {}
        }
    }
    assert_eq!(field_a.state, InputFieldState::Selected);
    assert!(!field_a.inactive);

    for notice in focus.set_focus(b) {
        match notice {
            FocusNotice::Got(GotFocus(w)) => {
                if w == a {
                    field_a.on_focus_gained();
                } else if w == b {
                    field_b.on_focus_gained();
                    b_got += 1;
                }
            }
            FocusNotice::Lost(LostFocus(w)) => {
                if w == a {
                    field_a.on_focus_lost();
                    a_lost += 1;
                } else if w == b {
                    field_b.on_focus_lost();
                }
            }
        }
    }
    assert_eq!(a_lost, 1);
    assert_eq!(b_got, 1);
    assert_eq!(field_a.state, InputFieldState::Default);
    assert!(field_a.inactive);
    assert_eq!(field_b.state, InputFieldState::Selected);
    assert!(!field_b.inactive);
}
