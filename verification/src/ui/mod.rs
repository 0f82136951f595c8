//! The window: its options, actions and what it shows.
pub mod actions;
pub mod controls;
pub mod discord;
pub mod menu;
pub mod options;
pub mod state;
pub mod updates;
pub mod volume;
