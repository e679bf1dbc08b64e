//! A Pomodoro countdown engine: work and break intervals, automatic rotation
//! with a long break after a fixed number of work sessions, and the actions
//! that keep a host's one-second tick source in step with it.

pub mod display;
pub mod laws;
pub mod timer;
