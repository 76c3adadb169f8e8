//! The decisions of a screen recorder for Hyprland: how recordings are named and
//! placed, how the recorder is invoked, what its action telemetry may contain, and how
//! a recording session is started, observed and stopped.
//!
//! Everything here computes on plain values. Processes, sockets and files belong to the
//! program around this library.

pub mod cli;
pub mod clock;
pub mod command;
pub mod error;
pub mod hyprland;
pub mod input;
pub mod keys;
pub mod launch;
pub mod naming;
pub mod options;
pub mod path;
pub mod places;
pub mod recorder;
pub mod recordings;
pub mod session;
pub mod slot;
pub mod telemetry;
pub mod text;
