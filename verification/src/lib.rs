//! A small library behind a desktop eye-rest reminder: every twenty minutes
//! the user is told to look away from the screen, unless reminders are paused
//! from the tray menu or a fullscreen application has the foreground.
//!
//! The library holds the decision logic of that utility, verified: the
//! fullscreen heuristic, the icon bitmap, the wall-clock reminder schedule,
//! the control-loop state machine and the one-slot pause mailbox. The
//! operating-system work around it (the tray icon, the event loop, the
//! notification service, the window queries) lives outside, hands the library
//! plain values and performs the actions the library decides on.

pub mod control;
pub mod detector;
pub mod icon;
pub mod mailbox;
pub mod scheduler;
pub mod tray;
