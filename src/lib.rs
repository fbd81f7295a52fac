//! Resolution of local audio tracks to canonical MusicBrainz recording identifiers.
//!
//! Each resolution is a step machine: the caller performs the lookup or search that
//! a step asks for and hands the answer back, and the library decides what comes next.
pub mod artist;
pub mod audio_data;
pub mod batch;
pub mod mbid;
pub mod recording;
