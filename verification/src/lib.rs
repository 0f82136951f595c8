//! Verified core of a desktop player for the LISTEN.moe radio stations.
#![allow(unused_imports)]

pub mod cli;
pub mod listen;
pub mod locale;
pub mod meta;
pub mod number;
pub mod preferences;
pub mod station;
pub mod text;
pub mod ui;
pub mod updater;
pub mod volume;
pub mod wall;
