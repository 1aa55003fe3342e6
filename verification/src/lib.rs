//! A fixed four-phase traffic light: red, orange, green, orange, and round
//! again, with the writes, the log line and the dwell of each phase.

pub mod action;
pub mod cycle;
pub mod lamp;
pub mod phase;
pub mod sequencer;
pub mod trace;
