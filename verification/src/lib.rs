//! Decision core of a small tool that reads the latest body weight from
//! Withings and forwards it to Strava.
//!
//! The functions here take what was read from the environment, the file
//! system and the two APIs as plain values, and say what is to be done or
//! reported next. Of the outside world they read the clock, and nothing else.

pub mod cli;
pub mod strava;
pub mod text;
pub mod utils;
pub mod withings;
