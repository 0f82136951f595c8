//! Playback: the clock, the recorded audio behind it and the loops that feed it.
pub mod clock;
pub mod controller;
pub mod ingest;
pub mod live;
pub mod output;
pub mod pcm;
pub mod recording;
pub mod source;
pub mod store;
pub mod times;
pub mod volume;
