//! Time-to-lyric mapping for a terminal karaoke display.
//!
//! All times are whole milliseconds. The library resolves which lyric line is
//! active at a playback instant, how far through it the listener is, keeps the
//! playback clock, and projects that state onto a five-row window and a
//! progress bar.

pub mod clock;
pub mod lyrics;
pub mod player;
pub mod render;
pub mod song_config;
