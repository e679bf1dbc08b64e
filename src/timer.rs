use vstd::prelude::*;

use crate::display::{clock_display, clock_text};

verus! {

/// The kind of interval the timer is counting down.
#[derive(Clone, Copy, Debug, PartialEq, Eq, Structural)]
pub enum TimerMode {
    Work,
    ShortBreak,
    LongBreak,
}

/// What the host's once-a-second tick source has to do after an operation.
///
/// `Arm` is only ever returned when no registration is live, and `Cancel`
/// only when one is, so following these actions keeps at most one live
/// registration per engine.
#[derive(Clone, Copy, Debug, PartialEq, Eq, Structural)]
pub enum SchedulerAction {
    /// Leave the tick source as it is.
    Keep,
    /// Register a recurring one-second tick.
    Arm,
    /// Drop the live registration.
    Cancel,
}

/// Interval lengths in minutes and the long-break cadence, fixed for a run.
#[derive(Clone, Copy, Debug, PartialEq, Eq, Structural)]
pub struct TimerSettings {
    pub work_minutes: u32,
    pub short_break_minutes: u32,
    pub long_break_minutes: u32,
    pub sessions_before_long_break: u32,
}

impl TimerSettings {
    /// All four settings are positive.
    pub open spec fn wf(&self) -> bool {
        &&& self.work_minutes > 0
        &&& self.short_break_minutes > 0
        &&& self.long_break_minutes > 0
        &&& self.sessions_before_long_break > 0
    }

    pub open spec fn minutes_for(&self, mode: TimerMode) -> nat {
        match mode {
            TimerMode::Work => self.work_minutes as nat,
            TimerMode::ShortBreak => self.short_break_minutes as nat,
            TimerMode::LongBreak => self.long_break_minutes as nat,
        }
    }

    /// Length of a full interval of `mode`, in seconds.
    pub open spec fn full_seconds(&self, mode: TimerMode) -> nat {
        self.minutes_for(mode) * 60
    }

    /// Checked construction: `None` exactly when one of the values is zero.
    pub fn new(
        work_minutes: u32,
        short_break_minutes: u32,
        long_break_minutes: u32,
        sessions_before_long_break: u32,
    ) -> (r: Option<TimerSettings>)
        ensures
            r is Some <==> (work_minutes > 0 && short_break_minutes > 0 && long_break_minutes > 0
                && sessions_before_long_break > 0),
            r matches Some(s) ==> s == (TimerSettings {
                work_minutes,
                short_break_minutes,
                long_break_minutes,
                sessions_before_long_break,
            }),
    {
        if work_minutes == 0 || short_break_minutes == 0 || long_break_minutes == 0
            || sessions_before_long_break == 0 {
            None
        } else {
            Some(TimerSettings {
                work_minutes,
                short_break_minutes,
                long_break_minutes,
                sessions_before_long_break,
            })
        }
    }

    /// Length of a full interval of `mode`, in seconds.
    pub fn seconds_for(&self, mode: TimerMode) -> (r: u64)
        ensures
            r == self.full_seconds(mode),
    {
        let minutes = match mode {
            TimerMode::Work => self.work_minutes,
            TimerMode::ShortBreak => self.short_break_minutes,
            TimerMode::LongBreak => self.long_break_minutes,
        };
        minutes as u64 * 60
    }
}

impl Default for TimerSettings {
    /// 25 minutes of work, 5 of short break, 15 of long break, and a long
    /// break after every 4th work session.
    fn default() -> (r: TimerSettings)
        ensures
            r == (TimerSettings {
                work_minutes: 25,
                short_break_minutes: 5,
                long_break_minutes: 15,
                sessions_before_long_break: 4,
            }),
    {
        TimerSettings {
            work_minutes: 25,
            short_break_minutes: 5,
            long_break_minutes: 15,
            sessions_before_long_break: 4,
        }
    }
}


/// A snapshot of the timer: what a display reads, and the model that the
/// engine's contracts speak of.
#[derive(Clone, Copy, Debug, PartialEq, Eq, Structural)]
pub struct TimerState {
    pub settings: TimerSettings,
    pub mode: TimerMode,
    pub seconds_remaining: u64,
    pub is_active: bool,
    pub sessions_completed: u64,
}

impl TimerState {
    /// Valid settings, and a remaining time within the current interval.
    /// The time is never zero between operations: reaching zero completes
    /// the interval and loads the next one.
    pub open spec fn wf(&self) -> bool {
        &&& self.settings.wf()
        &&& 0 < self.seconds_remaining <= self.settings.full_seconds(self.mode)
    }

    /// A fresh timer: paused at the start of a work interval, no sessions done.
    pub open spec fn initial(settings: TimerSettings) -> TimerState {
        TimerState {
            settings,
            mode: TimerMode::Work,
            seconds_remaining: settings.full_seconds(TimerMode::Work) as u64,
            is_active: false,
            sessions_completed: 0,
        }
    }

    pub open spec fn started(self) -> TimerState {
        TimerState { is_active: true, ..self }
    }

    pub open spec fn paused(self) -> TimerState {
        TimerState { is_active: false, ..self }
    }

    /// Paused at the start of the current interval.
    pub open spec fn rewound(self) -> TimerState {
        TimerState {
            is_active: false,
            seconds_remaining: self.settings.full_seconds(self.mode) as u64,
            ..self
        }
    }

    /// Unchanged when `mode` is current; otherwise paused at the start of a
    /// `mode` interval.
    pub open spec fn switched_to(self, mode: TimerMode) -> TimerState {
        if mode == self.mode {
            self
        } else {
            TimerState {
                mode,
                is_active: false,
                seconds_remaining: self.settings.full_seconds(mode) as u64,
                ..self
            }
        }
    }

    /// The session count once the current interval has run out.
    pub open spec fn sessions_after_completion(self) -> nat {
        if self.mode == TimerMode::Work {
            (self.sessions_completed + 1) as nat
        } else {
            self.sessions_completed as nat
        }
    }

    /// The interval that follows the current one: a break after work (a long
    /// one when the new session count is a multiple of the cadence), work
    /// after either break.
    pub open spec fn mode_after_completion(self) -> TimerMode {
        match self.mode {
            TimerMode::Work => if self.sessions_after_completion()
                % (self.settings.sessions_before_long_break as nat) == 0 {
                TimerMode::LongBreak
            } else {
                TimerMode::ShortBreak
            },
            _ => TimerMode::Work,
        }
    }

    /// The current interval has run out: paused at the start of the next one.
    pub open spec fn completed(self) -> TimerState {
        let mode = self.mode_after_completion();
        TimerState {
            settings: self.settings,
            mode,
            seconds_remaining: self.settings.full_seconds(mode) as u64,
            is_active: false,
            sessions_completed: self.sessions_after_completion() as u64,
        }
    }

    /// One elapsed second. A paused timer ignores it (a tick that raced
    /// with a cancellation); the last second of an interval completes it.
    pub open spec fn ticked(self) -> TimerState {
        if !self.is_active {
            self
        } else if self.seconds_remaining <= 1 {
            self.completed()
        } else {
            TimerState { seconds_remaining: (self.seconds_remaining - 1) as u64, ..self }
        }
    }

    /// `n` elapsed seconds.
    pub open spec fn ticked_n(self, n: nat) -> TimerState
        decreases n,
    {
        if n == 0 {
            self
        } else {
            self.ticked().ticked_n((n - 1) as nat)
        }
    }
}

/// The action that keeps the tick source registered exactly while the timer
/// is active, going from `before` to `after`.
pub open spec fn action_between(before: TimerState, after: TimerState) -> SchedulerAction {
    if !before.is_active && after.is_active {
        SchedulerAction::Arm
    } else if before.is_active && !after.is_active {
        SchedulerAction::Cancel
    } else {
        SchedulerAction::Keep
    }
}

/// Whether a registration is live once `action` is applied to a tick source
/// whose registration was live exactly when `live` holds.
pub open spec fn live_after(live: bool, action: SchedulerAction) -> bool {
    match action {
        SchedulerAction::Keep => live,
        SchedulerAction::Arm => true,
        SchedulerAction::Cancel => false,
    }
}

/// The countdown engine. It owns the timer state; every change goes through
/// its operations, and each operation tells the host what to do with the
/// tick source.
pub struct TimerEngine {
    state: TimerState,
}

impl View for TimerEngine {
    type V = TimerState;

    closed spec fn view(&self) -> TimerState {
        self.state
    }
}

impl TimerEngine {
    /// A paused timer at the start of a work interval.
    pub fn new(settings: TimerSettings) -> (r: TimerEngine)
        requires
            settings.wf(),
        ensures
            r@ == TimerState::initial(settings),
            r@.wf(),
    {
        let seconds_remaining = settings.seconds_for(TimerMode::Work);
        TimerEngine {
            state: TimerState {
                settings,
                mode: TimerMode::Work,
                seconds_remaining,
                is_active: false,
                sessions_completed: 0,
            },
        }
    }

    /// Begins or resumes the countdown. Already running: nothing changes.
    pub fn start(&mut self) -> (r: SchedulerAction)
        requires
            old(self)@.wf(),
        ensures
            final(self)@ == old(self)@.started(),
            final(self)@.wf(),
            r == action_between(old(self)@, final(self)@),
            r == (if old(self)@.is_active { SchedulerAction::Keep } else { SchedulerAction::Arm }),
    {
        if self.state.is_active {
            SchedulerAction::Keep
        } else {
            self.state.is_active = true;
            SchedulerAction::Arm
        }
    }

    /// Stops the countdown, keeping the remaining time. Already paused:
    /// nothing changes.
    pub fn pause(&mut self) -> (r: SchedulerAction)
        requires
            old(self)@.wf(),
        ensures
            final(self)@ == old(self)@.paused(),
            final(self)@.wf(),
            r == action_between(old(self)@, final(self)@),
            r == (if old(self)@.is_active { SchedulerAction::Cancel } else { SchedulerAction::Keep }),
    {
        if self.state.is_active {
            self.state.is_active = false;
            SchedulerAction::Cancel
        } else {
            SchedulerAction::Keep
        }
    }

    /// Stops the countdown and rewinds the current interval to its full
    /// length. The mode and the session count stay as they are.
    pub fn reset(&mut self) -> (r: SchedulerAction)
        requires
            old(self)@.wf(),
        ensures
            final(self)@ == old(self)@.rewound(),
            final(self)@.wf(),
            final(self)@.mode == old(self)@.mode,
            final(self)@.sessions_completed == old(self)@.sessions_completed,
            r == action_between(old(self)@, final(self)@),
    {
        let was_active = self.state.is_active;
        self.state.is_active = false;
        self.state.seconds_remaining = self.state.settings.seconds_for(self.state.mode);
        if was_active {
            SchedulerAction::Cancel
        } else {
            SchedulerAction::Keep
        }
    }

    /// Switches to a full, paused interval of `new_mode`. Selecting the
    /// current mode changes nothing.
    pub fn change_mode(&mut self, new_mode: TimerMode) -> (r: SchedulerAction)
        requires
            old(self)@.wf(),
        ensures
            final(self)@ == old(self)@.switched_to(new_mode),
            final(self)@.wf(),
            new_mode == old(self)@.mode ==> final(self)@ == old(self)@ && r == SchedulerAction::Keep,
            final(self)@.sessions_completed == old(self)@.sessions_completed,
            r == action_between(old(self)@, final(self)@),
    {
        if self.state.mode == new_mode {
            return SchedulerAction::Keep;
        }
        let was_active = self.state.is_active;
        self.state.mode = new_mode;
        self.state.is_active = false;
        self.state.seconds_remaining = self.state.settings.seconds_for(new_mode);
        if was_active {
            SchedulerAction::Cancel
        } else {
            SchedulerAction::Keep
        }
    }
    /// One elapsed second, delivered by the tick source. A paused timer
    /// ignores it. Otherwise the countdown goes down by one; on its last
    /// second the interval completes: the timer stops, a finished work
    /// interval counts as a session, and the next interval is loaded in full.
    pub fn tick(&mut self) -> (r: SchedulerAction)
        requires
            old(self)@.wf(),
            old(self)@.sessions_completed < u64::MAX,
        ensures
            final(self)@ == old(self)@.ticked(),
            final(self)@.wf(),
            r == action_between(old(self)@, final(self)@),
            old(self)@.is_active && old(self)@.seconds_remaining > 1 ==> final(self)@.is_active
                && final(self)@.seconds_remaining == old(self)@.seconds_remaining - 1,
            old(self)@.is_active && old(self)@.seconds_remaining <= 1 ==> !final(self)@.is_active,
            old(self)@.is_active && old(self)@.seconds_remaining <= 1 && old(self)@.mode
                == TimerMode::Work ==> {
                let n = old(self)@.settings.sessions_before_long_break;
                &&& final(self)@.sessions_completed == old(self)@.sessions_completed + 1
                &&& (final(self)@.sessions_completed as int) % (n as int) == 0 ==> final(self)@.mode
                    == TimerMode::LongBreak && final(self)@.seconds_remaining
                    == old(self)@.settings.long_break_minutes * 60
                &&& (final(self)@.sessions_completed as int) % (n as int) != 0 ==> final(self)@.mode
                    == TimerMode::ShortBreak && final(self)@.seconds_remaining
                    == old(self)@.settings.short_break_minutes * 60
            },
            old(self)@.is_active && old(self)@.seconds_remaining <= 1 && old(self)@.mode
                != TimerMode::Work ==> {
                &&& final(self)@.mode == TimerMode::Work
                &&& final(self)@.seconds_remaining == old(self)@.settings.work_minutes * 60
                &&& final(self)@.sessions_completed == old(self)@.sessions_completed
            },
    {
        if !self.state.is_active {
            return SchedulerAction::Keep;
        }
        if self.state.seconds_remaining > 1 {
            self.state.seconds_remaining = self.state.seconds_remaining - 1;
            return SchedulerAction::Keep;
        }
        self.state.seconds_remaining = 0;
        self.state.is_active = false;
        let next = match self.state.mode {
            TimerMode::Work => {
                let sessions = self.state.sessions_completed + 1;
                self.state.sessions_completed = sessions;
                if sessions % (self.state.settings.sessions_before_long_break as u64) == 0 {
                    TimerMode::LongBreak
                } else {
                    TimerMode::ShortBreak
                }
            },
            TimerMode::ShortBreak | TimerMode::LongBreak => TimerMode::Work,
        };
        self.state.mode = next;
        self.state.seconds_remaining = self.state.settings.seconds_for(next);
        SchedulerAction::Cancel
    }

    /// A copy of the whole state, for display.
    pub fn state(&self) -> (r: TimerState)
        ensures
            r == self@,
    {
        self.state
    }

    pub fn settings(&self) -> (r: TimerSettings)
        ensures
            r == self@.settings,
    {
        self.state.settings
    }

    pub fn mode(&self) -> (r: TimerMode)
        ensures
            r == self@.mode,
    {
        self.state.mode
    }

    pub fn seconds_remaining(&self) -> (r: u64)
        ensures
            r == self@.seconds_remaining,
    {
        self.state.seconds_remaining
    }

    pub fn is_active(&self) -> (r: bool)
        ensures
            r == self@.is_active,
    {
        self.state.is_active
    }

    pub fn sessions_completed(&self) -> (r: u64)
        ensures
            r == self@.sessions_completed,
    {
        self.state.sessions_completed
    }
    /// The remaining time as `mm:ss`.
    pub fn time_display(&self) -> (r: String)
        ensures
            r@ == clock_text(self@.seconds_remaining as nat),
    {
        clock_display(self.state.seconds_remaining)
    }
}

impl Default for TimerEngine {
    /// A fresh timer with the default settings.
    fn default() -> (r: TimerEngine)
        ensures
            r@ == TimerState::initial(TimerSettings {
                work_minutes: 25,
                short_break_minutes: 5,
                long_break_minutes: 15,
                sessions_before_long_break: 4,
            }),
            r@.wf(),
    {
        TimerEngine::new(TimerSettings::default())
    }
}

} // verus!
