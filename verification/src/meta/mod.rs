//! What is playing: tracks, the gateway that tells of them, and when the window shows which.
pub mod control;
pub mod controller;
pub mod history;
pub mod session;
pub mod time_parse;
pub mod track;
