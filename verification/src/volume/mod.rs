//! Desktop volume: the levels, the streams that carry them and how a stream is recognised.
pub mod controller;
pub mod identity;
pub mod level;
pub mod properties;
pub mod tracker;
