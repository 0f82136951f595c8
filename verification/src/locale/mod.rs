//! Languages and translations.
pub mod catalog;
pub mod directory;
pub mod language;
