//! Finding a newer release and putting it in place.
pub mod installer;
pub mod release;
pub mod version;
