//! Launches a program between restore and backup phases of its save data,
//! optionally mirroring backups to a remote location and loading extra
//! modules into the launched process before it starts.
//!
//! The library holds the decisions: what each phase runs, in which order,
//! what a failure leads to, and in which order the operating-system steps of
//! a launch happen and are undone. The program around it performs them.

pub mod cmdline;
pub mod config;
pub mod prompt;
pub mod sequencer;
pub mod supervisor;
