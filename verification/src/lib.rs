//! Core logic of a command-line Pomodoro timer: interval planning, session
//! sequencing, the per-second countdown, time formatting, and models of the
//! task log and of the completion notifier.

pub mod clock;
pub mod countdown;
pub mod install;
pub mod interval;
pub mod messages;
pub mod notify;
pub mod render;
pub mod schedule;
pub mod sound;
pub mod tasklog;
