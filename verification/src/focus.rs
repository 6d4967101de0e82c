//! Focus coordination: a process-wide tracker of which single widget holds
//! input focus, with got-/lost-focus notifications.
//!
//! The tracker keeps a set of holders (defensively a set, although every
//! operation leaves at most one holder) and every mutation reports the
//! notifications it produced, in order, for the host to deliver.

use vstd::prelude::*;

use crate::WidgetId;

verus! {

/// Marks the widget that currently holds input focus, for hosts that track
/// focus as a per-widget component.
#[derive(Clone, Copy, PartialEq, Eq, Structural, Debug)]
pub struct Focus;

/// Marks a widget that takes focus from pointer clicks.
#[derive(Clone, Copy, PartialEq, Eq, Structural, Debug)]
pub struct Clickable;

/// Notification that a widget has received input focus.
#[derive(Clone, Copy, PartialEq, Eq, Structural, Debug)]
pub struct GotFocus(pub WidgetId);

/// Notification that a widget has lost input focus.
#[derive(Clone, Copy, PartialEq, Eq, Structural, Debug)]
pub struct LostFocus(pub WidgetId);

/// Request to make a widget the sole focus holder.
#[derive(Clone, Copy, PartialEq, Eq, Structural, Debug)]
pub struct SetFocus(pub WidgetId);

/// Request to remove focus from every widget.
#[derive(Clone, Copy, PartialEq, Eq, Structural, Debug)]
pub struct ClearFocus;

/// A focus change notification, queued for delivery to the host.
#[derive(Clone, Copy, PartialEq, Eq, Structural, Debug)]
pub enum FocusNotice {
    /// The widget became the focus holder.
    Got(GotFocus),
    /// The widget stopped being a focus holder.
    Lost(LostFocus),
}

/// A focus change request, as raised by input handling.
#[derive(Clone, Copy, PartialEq, Eq, Structural, Debug)]
pub enum FocusCommand {
    /// Give focus to one widget.
    Focus(SetFocus),
    /// Clear focus everywhere.
    Blur(ClearFocus),
}

/// The `LostFocus` notices produced when `target` takes focus away from the
/// holders in `prev`: one notice per holder other than `target`, in order.
pub open spec fn lost_notices(prev: Seq<WidgetId>, target: WidgetId) -> Seq<FocusNotice>
    decreases prev.len(),
{
    if prev.len() == 0 {
        Seq::empty()
    } else {
        let rest = lost_notices(prev.drop_last(), target);
        if prev.last() == target {
            rest
        } else {
            rest.push(FocusNotice::Lost(LostFocus(prev.last())))
        }
    }
}

/// The `LostFocus` notices produced when focus is cleared from all of `prev`.
pub open spec fn cleared_notices(prev: Seq<WidgetId>) -> Seq<FocusNotice> {
    prev.map_values(|w: WidgetId| FocusNotice::Lost(LostFocus(w)))
}

/// How many notices in `s` say that `w` lost focus.
pub open spec fn lost_count(s: Seq<FocusNotice>, w: WidgetId) -> int
    decreases s.len(),
{
    if s.len() == 0 {
        0
    } else {
        lost_count(s.drop_last(), w) + if s.last() == FocusNotice::Lost(LostFocus(w)) {
            1int
        } else {
            0int
        }
    }
}

/// How many notices in `s` say that `w` got focus.
pub open spec fn got_count(s: Seq<FocusNotice>, w: WidgetId) -> int
    decreases s.len(),
{
    if s.len() == 0 {
        0
    } else {
        got_count(s.drop_last(), w) + if s.last() == FocusNotice::Got(GotFocus(w)) {
            1int
        } else {
            0int
        }
    }
}

/// Everything `set_focus` reports when `target` takes focus away from the
/// holders in `prev`.
pub open spec fn set_focus_notices(prev: Seq<WidgetId>, target: WidgetId) -> Seq<FocusNotice> {
    lost_notices(prev, target).push(FocusNotice::Got(GotFocus(target)))
}

proof fn lemma_lost_notices_counts(prev: Seq<WidgetId>, target: WidgetId, w: WidgetId)
    requires
        forall|i: int, j: int| 0 <= i < j < prev.len() ==> prev[i] != prev[j],
    ensures
        lost_count(lost_notices(prev, target), w) == if prev.contains(w) && w != target {
            1int
        } else {
            0int
        },
        got_count(lost_notices(prev, target), w) == 0,
    decreases prev.len(),
{
    if prev.len() == 0 {
        assert(!prev.contains(w));
    } else {
        let pl = prev.drop_last();
        lemma_lost_notices_counts(pl, target, w);
        let rest = lost_notices(pl, target);
        if prev.last() == target {
            assert(lost_notices(prev, target) == rest);
            if w == target {
                assert(lost_count(rest, w) == 0);
            } else {
                assert(prev.contains(w) <==> pl.contains(w)) by {
                    if prev.contains(w) {
                        let k = choose|k: int| 0 <= k < prev.len() && prev[k] == w;
                        assert(k < prev.len() - 1);
                        assert(pl[k] == w);
                    }
                    if pl.contains(w) {
                        let k = choose|k: int| 0 <= k < pl.len() && pl[k] == w;
                        assert(prev[k] == w);
                    }
                }
            }
        } else {
            let n = rest.push(FocusNotice::Lost(LostFocus(prev.last())));
            assert(lost_notices(prev, target) == n);
            assert(n.drop_last() =~= rest);
            if prev.last() == w {
                assert(!pl.contains(w)) by {
                    if pl.contains(w) {
                        let k = choose|k: int| 0 <= k < pl.len() && pl[k] == w;
                        assert(prev[k] == prev[prev.len() - 1]);
                    }
                }
                assert(prev.contains(w)) by {
                    assert(prev[prev.len() - 1] == w);
                }
                assert(lost_count(n, w) == 1);
            } else {
                assert(prev.contains(w) <==> pl.contains(w)) by {
                    if prev.contains(w) {
                        let k = choose|k: int| 0 <= k < prev.len() && prev[k] == w;
                        assert(k < prev.len() - 1);
                        assert(pl[k] == w);
                    }
                    if pl.contains(w) {
                        let k = choose|k: int| 0 <= k < pl.len() && pl[k] == w;
                        assert(prev[k] == w);
                    }
                }
            }
        }
    }
}

/// Law: when `target` takes focus away from the holders `prev` (a list with no
/// duplicates), the notices report exactly one `LostFocus` for every previous
/// holder other than `target`, no `LostFocus` for any widget that did not hold
/// focus, and exactly one `GotFocus`, for `target` alone.
pub proof fn lemma_single_focus_notices(prev: Seq<WidgetId>, target: WidgetId, w: WidgetId)
    requires
        forall|i: int, j: int| 0 <= i < j < prev.len() ==> prev[i] != prev[j],
    ensures
        lost_count(set_focus_notices(prev, target), w) == if prev.contains(w) && w != target {
            1int
        } else {
            0int
        },
        got_count(set_focus_notices(prev, target), w) == if w == target {
            1int
        } else {
            0int
        },
{
    lemma_lost_notices_counts(prev, target, w);
    let n = set_focus_notices(prev, target);
    assert(n.drop_last() =~= lost_notices(prev, target));
}

/// Law: clearing focus reports exactly one `LostFocus` for every holder in
/// `prev` (a list with no duplicates), none for any other widget, and no
/// `GotFocus` at all.
pub proof fn lemma_clear_focus_notices(prev: Seq<WidgetId>, w: WidgetId)
    requires
        forall|i: int, j: int| 0 <= i < j < prev.len() ==> prev[i] != prev[j],
    ensures
        lost_count(cleared_notices(prev), w) == if prev.contains(w) {
            1int
        } else {
            0int
        },
        got_count(cleared_notices(prev), w) == 0,
    decreases prev.len(),
{
    if prev.len() == 0 {
        assert(cleared_notices(prev).len() == 0);
        assert(!prev.contains(w));
    } else {
        let pl = prev.drop_last();
        lemma_clear_focus_notices(pl, w);
        let n = cleared_notices(prev);
        assert(n.drop_last() =~= cleared_notices(pl));
        assert(n.last() == FocusNotice::Lost(LostFocus(prev.last())));
        if prev.last() == w {
            assert(!pl.contains(w)) by {
                if pl.contains(w) {
                    let k = choose|k: int| 0 <= k < pl.len() && pl[k] == w;
                    assert(prev[k] == prev[prev.len() - 1]);
                }
            }
            assert(prev.contains(w)) by {
                assert(prev[prev.len() - 1] == w);
            }
        } else {
            assert(prev.contains(w) <==> pl.contains(w)) by {
                if prev.contains(w) {
                    let k = choose|k: int| 0 <= k < prev.len() && prev[k] == w;
                    assert(k < prev.len() - 1);
                    assert(pl[k] == w);
                }
                if pl.contains(w) {
                    let k = choose|k: int| 0 <= k < pl.len() && pl[k] == w;
                    assert(prev[k] == w);
                }
            }
        }
    }
}

/// Tracks which widgets currently hold input focus.
///
/// The holder list never contains a widget twice; after any operation at most
/// one widget holds focus.
pub struct FocusSet {
    holders: Vec<WidgetId>,
}

impl FocusSet {
    /// The widgets currently holding focus, in registration order.
    pub closed spec fn holders_seq(self) -> Seq<WidgetId> {
        self.holders@
    }

    /// The holder list holds no widget twice.
    pub open spec fn wf(self) -> bool {
        forall|i: int, j: int|
            0 <= i < j < self.holders_seq().len() ==> self.holders_seq()[i]
                != self.holders_seq()[j]
    }

    /// Whether `w` currently holds focus.
    pub open spec fn is_focused_spec(self, w: WidgetId) -> bool {
        self.holders_seq().contains(w)
    }

    /// A fresh tracker: nothing is focused.
    pub fn new() -> (r: FocusSet)
        ensures
            r.wf(),
            r.holders_seq() == Seq::<WidgetId>::empty(),
    {
        FocusSet { holders: Vec::new() }
    }

    /// Whether `w` currently holds focus.
    pub fn is_focused(&self, w: WidgetId) -> (r: bool)
        ensures
            r == self.is_focused_spec(w),
    {
        let mut i: usize = 0;
        while i < self.holders.len()
            invariant
                0 <= i <= self.holders@.len(),
                forall|k: int| 0 <= k < i ==> self.holders@[k] != w,
            decreases self.holders@.len() - i,
        {
            if self.holders[i].0 == w.0 {
                assert(self.holders@[i as int] == w);
                return true;
            }
            i += 1;
        }
        assert(!self.holders@.contains(w));
        false
    }

    /// Makes `target` the sole focus holder.
    ///
    /// Every other current holder is removed and gets one `LostFocus` notice;
    /// `target` gets one `GotFocus` notice, last. Setting focus on the current
    /// sole holder re-notifies it, which observers must tolerate.
    pub fn set_focus(&mut self, target: WidgetId) -> (notices: Vec<FocusNotice>)
        requires
            old(self).wf(),
        ensures
            final(self).wf(),
            final(self).holders_seq() =~= seq![target],
            notices@ =~= set_focus_notices(old(self).holders_seq(), target),
    {
        let ghost prev = self.holders@;
        let mut notices: Vec<FocusNotice> = Vec::new();
        let mut i: usize = 0;
        while i < self.holders.len()
            invariant
                0 <= i <= self.holders@.len(),
                self.holders@ == prev,
                notices@ =~= lost_notices(prev.take(i as int), target),
            decreases self.holders@.len() - i,
        {
            let w = self.holders[i];
            proof {
                assert(prev.take(i + 1).drop_last() =~= prev.take(i as int));
                assert(prev.take(i + 1).last() == prev[i as int]);
            }
            if w.0 != target.0 {
                notices.push(FocusNotice::Lost(LostFocus(w)));
            } else {
                assert(w == target);
            }
            i += 1;
        }
        proof {
            assert(prev.take(prev.len() as int) =~= prev);
        }
        self.holders.clear();
        self.holders.push(target);
        notices.push(FocusNotice::Got(GotFocus(target)));
        notices
    }

    /// Removes focus from every holder, one `LostFocus` notice each, in order.
    /// Produces no notices when nothing was focused.
    pub fn clear_focus(&mut self) -> (notices: Vec<FocusNotice>)
        requires
            old(self).wf(),
        ensures
            final(self).wf(),
            final(self).holders_seq() =~= Seq::<WidgetId>::empty(),
            notices@ =~= cleared_notices(old(self).holders_seq()),
    {
        let ghost prev = self.holders@;
        let mut notices: Vec<FocusNotice> = Vec::new();
        let mut i: usize = 0;
        while i < self.holders.len()
            invariant
                0 <= i <= self.holders@.len(),
                self.holders@ == prev,
                notices@ =~= prev.take(i as int).map_values(
                    |w: WidgetId| FocusNotice::Lost(LostFocus(w)),
                ),
            decreases self.holders@.len() - i,
        {
            let w = self.holders[i];
            notices.push(FocusNotice::Lost(LostFocus(w)));
            proof {
                assert(notices@ =~= prev.take(i + 1).map_values(
                    |w: WidgetId| FocusNotice::Lost(LostFocus(w)),
                ));
            }
            i += 1;
        }
        proof {
            assert(prev.take(prev.len() as int) =~= prev);
        }
        self.holders.clear();
        notices
    }

    /// Applies a focus change request.
    pub fn apply(&mut self, cmd: FocusCommand) -> (notices: Vec<FocusNotice>)
        requires
            old(self).wf(),
        ensures
            final(self).wf(),
            cmd is Focus ==> final(self).holders_seq() =~= seq![cmd->Focus_0.0]
                && notices@ =~= set_focus_notices(old(self).holders_seq(), cmd->Focus_0.0),
            cmd is Blur ==> final(self).holders_seq() =~= Seq::<WidgetId>::empty()
                && notices@ =~= cleared_notices(old(self).holders_seq()),
    {
        match cmd {
            FocusCommand::Focus(SetFocus(target)) => self.set_focus(target),
            FocusCommand::Blur(ClearFocus) => self.clear_focus(),
        }
    }

    /// Handles a pointer click: a primary-button click on a clickable widget
    /// moves focus to it and suppresses further propagation of the click;
    /// any other click changes nothing.
    pub fn click(&mut self, target: WidgetId, clickable: bool, primary: bool) -> (r: (
        Vec<FocusNotice>,
        bool,
    ))
        requires
            old(self).wf(),
        ensures
            final(self).wf(),
            primary && clickable ==> final(self).holders_seq() =~= seq![target]
                && r.0@ =~= set_focus_notices(old(self).holders_seq(), target)
                && r.1,
            !(primary && clickable) ==> *final(self) == *old(self) && r.0@ =~= Seq::<
                FocusNotice,
            >::empty() && !r.1,
    {
        if primary && clickable {
            let notices = self.set_focus(target);
            (notices, true)
        } else {
            (Vec::new(), false)
        }
    }
}

} // verus!
