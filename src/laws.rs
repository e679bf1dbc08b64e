use vstd::prelude::*;

use crate::timer::{action_between, live_after, SchedulerAction, TimerState};

verus! {

/// One tick keeps a well-formed state well-formed.
pub proof fn lemma_tick_keeps_wf(s: TimerState)
    requires
        s.wf(),
    ensures
        s.ticked().wf(),
{
}

/// While fewer ticks arrive than there are seconds left, an active timer
/// counts down by exactly one second per tick and changes nothing else.
pub proof fn lemma_countdown(s: TimerState, n: nat)
    requires
        s.wf(),
        s.is_active,
        n < s.seconds_remaining,
    ensures
        s.ticked_n(n) == (TimerState { seconds_remaining: (s.seconds_remaining - n) as u64, ..s }),
        s.ticked_n(n).wf(),
    decreases n,
{
    if n > 0 {
        let t = s.ticked();
        lemma_countdown(t, (n - 1) as nat);
    }
}

/// As many ticks as there are seconds left complete the interval: the timer
/// ends up paused at the start of the next one, never below zero.
pub proof fn lemma_countdown_completes(s: TimerState)
    requires
        s.wf(),
        s.is_active,
    ensures
        s.ticked_n(s.seconds_remaining as nat) == s.completed(),
        s.completed().wf(),
        !s.completed().is_active,
    decreases s.seconds_remaining,
{
    let t = s.ticked();
    assert(s.ticked_n(s.seconds_remaining as nat) == t.ticked_n((s.seconds_remaining - 1) as nat));
    if s.seconds_remaining > 1 {
        assert(t.completed() == s.completed());
        lemma_countdown_completes(t);
    } else {
        assert(t.ticked_n(0) == t);
    }
}

/// Ticks never take a well-formed state out of its bounds.
pub proof fn lemma_ticks_keep_wf(s: TimerState, n: nat)
    requires
        s.wf(),
    ensures
        s.ticked_n(n).wf(),
    decreases n,
{
    if n > 0 {
        lemma_tick_keeps_wf(s);
        lemma_ticks_keep_wf(s.ticked(), (n - 1) as nat);
    }
}

/// Pausing and then starting again resumes with the remaining time it had
/// when paused; a running timer comes back to exactly where it was.
pub proof fn lemma_pause_then_start(s: TimerState)
    requires
        s.wf(),
    ensures
        s.paused().started().seconds_remaining == s.seconds_remaining,
        s.paused().started() == s.started(),
        s.is_active ==> s.paused().started() == s,
{
}

/// A host that applies every returned action has a live tick registration
/// exactly while the timer is active: a registration is only armed when
/// none is live, and only cancelled when one is.
pub proof fn lemma_single_registration(before: TimerState, after: TimerState)
    ensures
        live_after(before.is_active, action_between(before, after)) == after.is_active,
        action_between(before, after) == SchedulerAction::Arm ==> !before.is_active,
        action_between(before, after) == SchedulerAction::Cancel ==> before.is_active,
{
}

} // verus!
