//! Episodes and seasons as the downloader sees them.
use std::collections::HashMap;
use vstd::prelude::*;

verus! {

/// One episode that can be downloaded.
#[derive(Debug, Clone)]
pub struct Episode {
    pub uuid: String,
    pub episode_number: u32,
    pub title: String,
    /// The container format of the stream, such as `mp4` or `mkv`.
    pub container_extension: String,
    /// The length of the episode, when the server knows it.
    pub seconds: Option<u64>,
}

/// The episodes of one season, in the order the server listed them.
#[derive(Debug, Clone)]
pub struct Season {
    pub episodes: Vec<Episode>,
}

/// Seasons by season number.
pub type Seasons = HashMap<u32, Season>;

/// The id of the M3U account that streams a series.
pub type M3UID = u32;

} // verus!
