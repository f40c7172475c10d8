//! The catalog's data model: shows, seasons, episodes, and the items a
//! download command resolves to, together with the library's error type.

use vstd::prelude::*;

verus! {

/// One season of a show. The `season_number` is what users pass on the
/// command line; `id` is what the catalog API requires for lookups.
#[derive(Debug)]
pub struct Season {
    pub id: u64,
    pub name: String,
    pub season_number: u32,
}

/// A show with its full season list, as one catalog lookup returns it.
/// Season order is the API's and is preserved everywhere.
#[derive(Debug)]
pub struct Show {
    pub id: u64,
    pub name: String,
    pub seasons: Vec<Season>,
}

/// One episode of a season. `episode_number` is scoped to the season;
/// `length` is the duration in minutes.
#[derive(Debug)]
pub struct Episode {
    pub id: u64,
    pub original_name: String,
    pub episode_number: u32,
    pub season_number: u32,
    pub length: u32,
}

/// A (season number, episode) pair selected for download: the unit the
/// download batch operates on.
#[derive(Debug)]
pub struct ResolvedItem {
    pub season_number: u32,
    pub episode: Episode,
}

/// Everything that can go wrong while resolving what to download.
/// Transport and decoding failures are reported by the caller that performs
/// the I/O as `Transport`; the rest arise from selection itself.
#[derive(Debug, PartialEq, Eq, Structural)]
pub enum CatalogError {
    /// An HTTP request or a response decode failed.
    TransportError,
    /// The show slug did not resolve to a show.
    NotFound,
    /// No season carries the requested season number.
    SeasonNotFound(u32),
    /// The requested episode number is absent from the explicitly requested
    /// season; holds the episode number, then the season number.
    EpisodeNotFound(u32, u32),
}

} // verus!
