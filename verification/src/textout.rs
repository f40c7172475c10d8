//! Construction of every URL and report line the client emits, each with an
//! exact character-level specification.

use vstd::prelude::*;
use crate::model::{CatalogError, Episode};
use crate::numfmt::{dec_str, pad2_str, u32_pad2, u64_dec};

verus! {

/// Base of the catalog API all metadata requests go to.
pub open spec fn api_base() -> Seq<char> {
    "https://beacon.playback.api.brightcove.com/telequebec/api"@
}

/// Base of the player endpoint media streams are served from.
pub open spec fn player_base() -> Seq<char> {
    "https://video.telequebec.tv/player"@
}

/// The one-shot lookup URL for a show slug.
pub open spec fn asset_url_spec(slug: Seq<char>) -> Seq<char> {
    api_base() + "/assets/"@ + slug + "?device_type=web&device_layout=web"@
}

/// The first-page URL of a season's episode listing; later pages come from
/// the response's own cursor.
pub open spec fn episodes_first_url_spec(show_id: u64, season_id: u64) -> Seq<char> {
    api_base() + "/tvshow/"@ + dec_str(show_id as nat) + "/season/"@ + dec_str(season_id as nat)
        + "/episodes?device_type=web&device_layout=web&layout_id=320"@
}

/// The stream URL handed to the external downloader for one episode.
pub open spec fn stream_url_spec(episode_id: u64) -> Seq<char> {
    player_base() + "/"@ + dec_str(episode_id as nat) + "/stream"@
}

/// The output-path template for one episode; the `%(ext)s` placeholder is
/// resolved by the downloader.
pub open spec fn output_template_spec(
    show_name: Seq<char>,
    season_number: nat,
    episode_number: nat,
    title: Seq<char>,
) -> Seq<char> {
    show_name + " - S"@ + pad2_str(season_number) + "E"@ + pad2_str(episode_number) + " - "@
        + title + ".%(ext)s"@
}

/// The `SxxEyy - title` label that identifies one episode in reports.
pub open spec fn episode_label_spec(
    season_number: nat,
    episode_number: nat,
    title: Seq<char>,
) -> Seq<char> {
    "S"@ + pad2_str(season_number) + "E"@ + pad2_str(episode_number) + " - "@ + title
}

/// The progress line printed before an episode's download starts;
/// `index1` is one-based.
pub open spec fn progress_line_spec(
    index1: nat,
    total: nat,
    show_name: Seq<char>,
    season_number: nat,
    episode_number: nat,
    title: Seq<char>,
) -> Seq<char> {
    "["@ + dec_str(index1) + "/"@ + dec_str(total) + "] Downloading: "@ + show_name + " "@
        + episode_label_spec(season_number, episode_number, title)
}

/// The header line of a listing.
pub open spec fn show_header_spec(name: Seq<char>, id: u64) -> Seq<char> {
    "Show: "@ + name + " (ID: "@ + dec_str(id as nat) + ")"@
}

/// The provisional season header printed while the episode count is still
/// being fetched.
pub open spec fn season_header_pending_spec(name: Seq<char>, id: u64) -> Seq<char> {
    name + " (ID: "@ + dec_str(id as nat) + ") (... episodes):"@
}

/// The final season header, carrying the true episode count.
pub open spec fn season_header_spec(name: Seq<char>, id: u64, count: nat) -> Seq<char> {
    name + " (ID: "@ + dec_str(id as nat) + ") ("@ + dec_str(count) + " episodes):"@
}

/// The per-episode line of a listing.
pub open spec fn episode_line_spec(ep: Episode) -> Seq<char> {
    "  EP"@ + pad2_str(ep.episode_number as nat) + " (ID: "@ + dec_str(ep.id as nat) + "): "@
        + ep.original_name@ + " ("@ + dec_str(ep.length as nat) + " min)"@
}

/// The message a resolution error surfaces as.
pub open spec fn error_message_spec(e: CatalogError) -> Seq<char> {
    match e {
        CatalogError::TransportError => "Transport error"@,
        CatalogError::NotFound => "Show not found"@,
        CatalogError::SeasonNotFound(n) => "Season "@ + dec_str(n as nat) + " not found"@,
        CatalogError::EpisodeNotFound(e_num, s_num) => "Episode "@ + dec_str(e_num as nat)
            + " not found in season "@ + dec_str(s_num as nat),
    }
}

/// Builds the show-lookup URL for a slug.
pub fn asset_url(slug: &str) -> (r: String)
    ensures
        r@ == asset_url_spec(slug@),
{
    let mut s = String::from_str("https://beacon.playback.api.brightcove.com/telequebec/api");
    s.append("/assets/");
    s.append(slug);
    s.append("?device_type=web&device_layout=web");
    proof {
        assert(s@ =~= asset_url_spec(slug@));
    }
    s
}

/// Builds the first-page episode-listing URL for one season of one show.
pub fn episodes_first_url(show_id: u64, season_id: u64) -> (r: String)
    ensures
        r@ == episodes_first_url_spec(show_id, season_id),
{
    let mut s = String::from_str("https://beacon.playback.api.brightcove.com/telequebec/api");
    s.append("/tvshow/");
    let show_dec = u64_dec(show_id);
    s.append(show_dec.as_str());
    s.append("/season/");
    let season_dec = u64_dec(season_id);
    s.append(season_dec.as_str());
    s.append("/episodes?device_type=web&device_layout=web&layout_id=320");
    proof {
        assert(s@ =~= episodes_first_url_spec(show_id, season_id));
    }
    s
}

/// Builds the stream URL for one episode.
pub fn stream_url(episode_id: u64) -> (r: String)
    ensures
        r@ == stream_url_spec(episode_id),
{
    let mut s = String::from_str("https://video.telequebec.tv/player");
    s.append("/");
    let id_dec = u64_dec(episode_id);
    s.append(id_dec.as_str());
    s.append("/stream");
    proof {
        assert(s@ =~= stream_url_spec(episode_id));
    }
    s
}

/// Builds the downloader's output-path template for one episode.
pub fn output_template(
    show_name: &str,
    season_number: u32,
    episode_number: u32,
    title: &str,
) -> (r: String)
    ensures
        r@ == output_template_spec(
            show_name@,
            season_number as nat,
            episode_number as nat,
            title@,
        ),
{
    let mut s = String::from_str(show_name);
    s.append(" - S");
    let sn = u32_pad2(season_number);
    s.append(sn.as_str());
    s.append("E");
    let en = u32_pad2(episode_number);
    s.append(en.as_str());
    s.append(" - ");
    s.append(title);
    s.append(".%(ext)s");
    proof {
        assert(s@ =~= output_template_spec(
            show_name@,
            season_number as nat,
            episode_number as nat,
            title@,
        ));
    }
    s
}

/// Builds the `SxxEyy - title` label for one episode.
pub fn episode_label(season_number: u32, episode_number: u32, title: &str) -> (r: String)
    ensures
        r@ == episode_label_spec(season_number as nat, episode_number as nat, title@),
{
    let mut s = String::from_str("S");
    let sn = u32_pad2(season_number);
    s.append(sn.as_str());
    s.append("E");
    let en = u32_pad2(episode_number);
    s.append(en.as_str());
    s.append(" - ");
    s.append(title);
    proof {
        assert(s@ =~= episode_label_spec(season_number as nat, episode_number as nat, title@));
    }
    s
}

/// Builds the progress line for the download at zero-based position `index`
/// of a batch of `total`.
pub fn progress_line(
    index: usize,
    total: usize,
    show_name: &str,
    season_number: u32,
    episode_number: u32,
    title: &str,
) -> (r: String)
    requires
        index < total,
    ensures
        r@ == progress_line_spec(
            index as nat + 1,
            total as nat,
            show_name@,
            season_number as nat,
            episode_number as nat,
            title@,
        ),
{
    let mut s = String::from_str("[");
    let idx_dec = u64_dec(index as u64 + 1);
    s.append(idx_dec.as_str());
    s.append("/");
    let total_dec = u64_dec(total as u64);
    s.append(total_dec.as_str());
    s.append("] Downloading: ");
    s.append(show_name);
    s.append(" ");
    let label = episode_label(season_number, episode_number, title);
    s.append(label.as_str());
    proof {
        assert(s@ =~= progress_line_spec(
            index as nat + 1,
            total as nat,
            show_name@,
            season_number as nat,
            episode_number as nat,
            title@,
        ));
    }
    s
}

/// Builds the header line of a listing.
pub fn show_header(name: &str, id: u64) -> (r: String)
    ensures
        r@ == show_header_spec(name@, id),
{
    let mut s = String::from_str("Show: ");
    s.append(name);
    s.append(" (ID: ");
    let id_dec = u64_dec(id);
    s.append(id_dec.as_str());
    s.append(")");
    proof {
        assert(s@ =~= show_header_spec(name@, id));
    }
    s
}

/// Builds the provisional season header shown before the episode count is
/// known.
pub fn season_header_pending(name: &str, id: u64) -> (r: String)
    ensures
        r@ == season_header_pending_spec(name@, id),
{
    let mut s = String::from_str(name);
    s.append(" (ID: ");
    let id_dec = u64_dec(id);
    s.append(id_dec.as_str());
    s.append(") (... episodes):");
    proof {
        assert(s@ =~= season_header_pending_spec(name@, id));
    }
    s
}

/// Builds the final season header with the episode count.
pub fn season_header(name: &str, id: u64, count: usize) -> (r: String)
    ensures
        r@ == season_header_spec(name@, id, count as nat),
{
    let mut s = String::from_str(name);
    s.append(" (ID: ");
    let id_dec = u64_dec(id);
    s.append(id_dec.as_str());
    s.append(") (");
    let count_dec = u64_dec(count as u64);
    s.append(count_dec.as_str());
    s.append(" episodes):");
    proof {
        assert(s@ =~= season_header_spec(name@, id, count as nat));
    }
    s
}

/// Builds the per-episode line of a listing.
pub fn episode_line(ep: &Episode) -> (r: String)
    ensures
        r@ == episode_line_spec(*ep),
{
    let mut s = String::from_str("  EP");
    let en = u32_pad2(ep.episode_number);
    s.append(en.as_str());
    s.append(" (ID: ");
    let id_dec = u64_dec(ep.id);
    s.append(id_dec.as_str());
    s.append("): ");
    s.append(ep.original_name.as_str());
    s.append(" (");
    let len_dec = u64_dec(ep.length as u64);
    s.append(len_dec.as_str());
    s.append(" min)");
    proof {
        assert(s@ =~= episode_line_spec(*ep));
    }
    s
}

impl CatalogError {
    /// The human-readable message for this error.
    pub fn message(&self) -> (r: String)
        ensures
            r@ == error_message_spec(*self),
    {
        match self {
            CatalogError::TransportError => String::from_str("Transport error"),
            CatalogError::NotFound => String::from_str("Show not found"),
            CatalogError::SeasonNotFound(n) => {
                let mut s = String::from_str("Season ");
                let n_dec = u64_dec(*n as u64);
                s.append(n_dec.as_str());
                s.append(" not found");
                proof {
                    assert(s@ =~= error_message_spec(*self));
                }
                s
            },
            CatalogError::EpisodeNotFound(e_num, s_num) => {
                let mut s = String::from_str("Episode ");
                let e_dec = u64_dec(*e_num as u64);
                s.append(e_dec.as_str());
                s.append(" not found in season ");
                let s_dec = u64_dec(*s_num as u64);
                s.append(s_dec.as_str());
                proof {
                    assert(s@ =~= error_message_spec(*self));
                }
                s
            },
        }
    }
}

} // verus!
