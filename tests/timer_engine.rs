use pomodoro::display::clock_display;
use pomodoro::timer::{SchedulerAction, TimerEngine, TimerMode, TimerSettings};

/// A stand-in for the host's tick source: counts live registrations and
/// delivers ticks only while one is live.
struct FakeScheduler {
    live: u32,
}

impl FakeScheduler {
    fn apply(&mut self, action: SchedulerAction) {
        match action {
            SchedulerAction::Keep => {}
            SchedulerAction::Arm => self.live += 1,
            SchedulerAction::Cancel => self.live -= 1,
        }
    }

    /// Runs for `seconds`, one callback per live registration each second;
    /// returns how many callbacks were delivered.
    fn run(&mut self, engine: &mut TimerEngine, seconds: u32) -> u32 {
        let mut delivered = 0;
        for _ in 0..seconds {
            for _ in 0..self.live {
                delivered += 1;
                let action = engine.tick();
                self.apply(action);
            }
        }
        delivered
    }
}

fn settings(work: u32, short: u32, long: u32, cadence: u32) -> TimerSettings {
    TimerSettings::new(work, short, long, cadence).unwrap()
}

fn run_ticks(engine: &mut TimerEngine, n: u32) {
    for _ in 0..n {
        engine.tick();
    }
}

#[test]
fn fresh_timer_is_paused_at_full_work_interval() {
    let e = TimerEngine::default();
    assert_eq!(e.mode(), TimerMode::Work);
    assert_eq!(e.seconds_remaining(), 1500);
    assert!(!e.is_active());
    assert_eq!(e.sessions_completed(), 0);
    assert_eq!(e.time_display(), "25:00");
    assert_eq!(e.settings(), TimerSettings::default());
}

#[test]
fn default_settings_values() {
    let s = TimerSettings::default();
    assert_eq!(s.work_minutes, 25);
    assert_eq!(s.short_break_minutes, 5);
    assert_eq!(s.long_break_minutes, 15);
    assert_eq!(s.sessions_before_long_break, 4);
}

#[test]
fn settings_with_a_zero_are_rejected() {
    assert!(TimerSettings::new(0, 5, 15, 4).is_none());
    assert!(TimerSettings::new(25, 0, 15, 4).is_none());
    assert!(TimerSettings::new(25, 5, 0, 4).is_none());
    assert!(TimerSettings::new(25, 5, 15, 0).is_none());
    assert_eq!(TimerSettings::new(25, 5, 15, 4), Some(TimerSettings::default()));
}

#[test]
fn seconds_for_each_mode() {
    let s = settings(50, 10, 30, 2);
    assert_eq!(s.seconds_for(TimerMode::Work), 3000);
    assert_eq!(s.seconds_for(TimerMode::ShortBreak), 600);
    assert_eq!(s.seconds_for(TimerMode::LongBreak), 1800);
}

#[test]
fn ticks_count_down_one_second_each() {
    let mut e = TimerEngine::default();
    assert_eq!(e.start(), SchedulerAction::Arm);
    for _ in 0..10 {
        assert_eq!(e.tick(), SchedulerAction::Keep);
    }
    assert_eq!(e.seconds_remaining(), 1490);
    assert!(e.is_active());
    assert_eq!(e.mode(), TimerMode::Work);
    assert_eq!(e.time_display(), "24:50");
}

#[test]
fn full_work_interval_gives_short_break() {
    let mut e = TimerEngine::default();
    e.start();
    run_ticks(&mut e, 1499);
    assert_eq!(e.seconds_remaining(), 1);
    assert!(e.is_active());
    assert_eq!(e.tick(), SchedulerAction::Cancel);
    assert_eq!(e.mode(), TimerMode::ShortBreak);
    assert!(!e.is_active());
    assert_eq!(e.seconds_remaining(), 300);
    assert_eq!(e.sessions_completed(), 1);
}

#[test]
fn fourth_work_session_gives_long_break() {
    let mut e = TimerEngine::default();
    for round in 1..=4u64 {
        assert_eq!(e.mode(), TimerMode::Work);
        e.start();
        run_ticks(&mut e, 1500);
        assert_eq!(e.sessions_completed(), round);
        if round < 4 {
            assert_eq!(e.mode(), TimerMode::ShortBreak);
            assert_eq!(e.seconds_remaining(), 300);
            assert_eq!(e.change_mode(TimerMode::Work), SchedulerAction::Keep);
        }
    }
    assert_eq!(e.sessions_completed(), 4);
    assert_eq!(e.mode(), TimerMode::LongBreak);
    assert_eq!(e.seconds_remaining(), 900);
    assert!(!e.is_active());
}

#[test]
fn cadence_of_two_alternates_break_kinds() {
    let mut e = TimerEngine::new(settings(1, 2, 3, 2));
    e.start();
    run_ticks(&mut e, 60);
    assert_eq!(e.mode(), TimerMode::ShortBreak);
    assert_eq!(e.seconds_remaining(), 120);
    e.start();
    run_ticks(&mut e, 120);
    assert_eq!(e.mode(), TimerMode::Work);
    assert_eq!(e.seconds_remaining(), 60);
    e.start();
    run_ticks(&mut e, 60);
    assert_eq!(e.sessions_completed(), 2);
    assert_eq!(e.mode(), TimerMode::LongBreak);
    assert_eq!(e.seconds_remaining(), 180);
}

#[test]
fn cadence_of_one_always_gives_long_break() {
    let mut e = TimerEngine::new(settings(1, 2, 3, 1));
    e.start();
    run_ticks(&mut e, 60);
    assert_eq!(e.mode(), TimerMode::LongBreak);
    assert_eq!(e.seconds_remaining(), 180);
}

#[test]
fn completing_a_long_break_gives_work() {
    let mut e = TimerEngine::default();
    e.change_mode(TimerMode::LongBreak);
    e.start();
    run_ticks(&mut e, 900);
    assert_eq!(e.mode(), TimerMode::Work);
    assert_eq!(e.seconds_remaining(), 1500);
    assert_eq!(e.sessions_completed(), 0);
    assert!(!e.is_active());
}

#[test]
fn completing_a_short_break_gives_work() {
    let mut e = TimerEngine::default();
    e.change_mode(TimerMode::ShortBreak);
    e.start();
    run_ticks(&mut e, 300);
    assert_eq!(e.mode(), TimerMode::Work);
    assert_eq!(e.seconds_remaining(), 1500);
    assert_eq!(e.sessions_completed(), 0);
}

#[test]
fn pause_then_start_resumes_where_it_stopped() {
    let mut e = TimerEngine::default();
    e.start();
    run_ticks(&mut e, 42);
    assert_eq!(e.pause(), SchedulerAction::Cancel);
    assert_eq!(e.seconds_remaining(), 1458);
    assert_eq!(e.start(), SchedulerAction::Arm);
    assert_eq!(e.seconds_remaining(), 1458);
    assert!(e.is_active());
}

#[test]
fn pause_while_paused_changes_nothing() {
    let mut e = TimerEngine::default();
    e.start();
    run_ticks(&mut e, 5);
    e.pause();
    let before = e.state();
    assert_eq!(e.pause(), SchedulerAction::Keep);
    assert_eq!(e.state(), before);
}

#[test]
fn ticks_while_paused_are_ignored() {
    let mut e = TimerEngine::default();
    assert_eq!(e.tick(), SchedulerAction::Keep);
    assert_eq!(e.seconds_remaining(), 1500);
    e.start();
    e.tick();
    e.pause();
    assert_eq!(e.tick(), SchedulerAction::Keep);
    assert_eq!(e.seconds_remaining(), 1499);
}

#[test]
fn reset_rewinds_current_interval_only() {
    let mut e = TimerEngine::default();
    e.start();
    run_ticks(&mut e, 1500);
    assert_eq!(e.mode(), TimerMode::ShortBreak);
    e.start();
    run_ticks(&mut e, 100);
    assert_eq!(e.reset(), SchedulerAction::Cancel);
    assert_eq!(e.mode(), TimerMode::ShortBreak);
    assert_eq!(e.sessions_completed(), 1);
    assert_eq!(e.seconds_remaining(), 300);
    assert!(!e.is_active());
    assert_eq!(e.reset(), SchedulerAction::Keep);
    assert_eq!(e.seconds_remaining(), 300);
}

#[test]
fn change_to_current_mode_is_a_no_op() {
    let mut e = TimerEngine::default();
    e.start();
    run_ticks(&mut e, 7);
    let before = e.state();
    assert_eq!(e.change_mode(TimerMode::Work), SchedulerAction::Keep);
    assert_eq!(e.state(), before);
    assert!(e.is_active());
}

#[test]
fn change_mode_loads_full_paused_interval() {
    let mut e = TimerEngine::default();
    e.start();
    run_ticks(&mut e, 7);
    assert_eq!(e.change_mode(TimerMode::LongBreak), SchedulerAction::Cancel);
    assert_eq!(e.mode(), TimerMode::LongBreak);
    assert_eq!(e.seconds_remaining(), 900);
    assert!(!e.is_active());
    assert_eq!(e.change_mode(TimerMode::ShortBreak), SchedulerAction::Keep);
    assert_eq!(e.seconds_remaining(), 300);
    assert_eq!(e.sessions_completed(), 0);
}

#[test]
fn start_twice_keeps_one_registration() {
    let mut e = TimerEngine::default();
    let mut scheduler = FakeScheduler { live: 0 };
    let first = e.start();
    scheduler.apply(first);
    let second = e.start();
    assert_eq!(second, SchedulerAction::Keep);
    scheduler.apply(second);
    assert_eq!(scheduler.live, 1);
    assert_eq!(scheduler.run(&mut e, 5), 5);
    assert_eq!(e.seconds_remaining(), 1495);
}

#[test]
fn completion_cancels_the_registration() {
    let mut e = TimerEngine::new(settings(1, 1, 1, 4));
    let mut scheduler = FakeScheduler { live: 0 };
    let action = e.start();
    scheduler.apply(action);
    assert_eq!(scheduler.run(&mut e, 100), 60);
    assert_eq!(scheduler.live, 0);
    assert_eq!(e.mode(), TimerMode::ShortBreak);
}

#[test]
fn clock_display_pads_to_two_digits() {
    assert_eq!(clock_display(1500), "25:00");
    assert_eq!(clock_display(299), "04:59");
    assert_eq!(clock_display(0), "00:00");
    assert_eq!(clock_display(61), "01:01");
    assert_eq!(clock_display(6000), "100:00");
}
