//! The listing report: the show header, then per season a blank separator,
//! a header with the true episode count, and one line per episode.
//!
//! The caller fetches each season's episodes and prints the lines; what the
//! lines are is fixed here, line by line, as a pure function of the catalog
//! snapshot.

use vstd::prelude::*;
use crate::model::{Episode, Season, Show};
use crate::textout::{
    episode_line, episode_line_spec, season_header, season_header_spec, show_header,
    show_header_spec,
};

verus! {

/// One listing line per episode, in order.
pub open spec fn episode_lines_spec(eps: Seq<Episode>) -> Seq<Seq<char>>
    decreases eps.len(),
{
    if eps.len() == 0 {
        Seq::empty()
    } else {
        seq![episode_line_spec(eps[0])] + episode_lines_spec(eps.drop_first())
    }
}

/// The block one season contributes: a blank separator line, the season
/// header with the true episode count, then the episode lines.
pub open spec fn season_block_spec(season: Season, eps: Seq<Episode>) -> Seq<Seq<char>> {
    seq![""@, season_header_spec(season.name@, season.id, eps.len())] + episode_lines_spec(eps)
}

/// The blocks of all seasons in order, each season paired with its fetched
/// episode list.
pub open spec fn season_blocks_spec(seasons: Seq<Season>, episodes: Seq<Vec<Episode>>) -> Seq<
    Seq<char>,
>
    decreases seasons.len(),
{
    if seasons.len() == 0 || episodes.len() == 0 {
        Seq::empty()
    } else {
        season_block_spec(seasons[0], episodes[0]@) + season_blocks_spec(
            seasons.drop_first(),
            episodes.drop_first(),
        )
    }
}

/// The full listing: the show header, then every season's block.
pub open spec fn list_lines_spec(show: Show, episodes: Seq<Vec<Episode>>) -> Seq<Seq<char>> {
    seq![show_header_spec(show.name@, show.id)] + season_blocks_spec(show.seasons@, episodes)
}

/// Builds the lines of one season's block.
#[verifier::loop_isolation(false)]
pub fn season_lines(season: &Season, eps: &Vec<Episode>) -> (r: Vec<String>)
    ensures
        r@.map_values(|s: String| s@) == season_block_spec(*season, eps@),
{
    let mut r: Vec<String> = Vec::new();
    r.push(String::new());
    r.push(season_header(season.name.as_str(), season.id, eps.len()));
    let mut i: usize = 0;
    proof {
        reveal_strlit("");
        assert(""@ =~= Seq::<char>::empty());
        assert(eps@.skip(0) =~= eps@);
        assert(r@.map_values(|s: String| s@) + episode_lines_spec(eps@.skip(0))
            =~= season_block_spec(*season, eps@));
    }
    while i < eps.len()
        invariant
            i <= eps@.len(),
            r@.map_values(|s: String| s@) + episode_lines_spec(eps@.skip(i as int))
                == season_block_spec(*season, eps@),
        decreases eps@.len() - i,
    {
        r.push(episode_line(&eps[i]));
        proof {
            assert(eps@.skip(i as int).drop_first() =~= eps@.skip(i as int + 1));
            assert(episode_lines_spec(eps@.skip(i as int)) == seq![
                episode_line_spec(eps@[i as int]),
            ] + episode_lines_spec(eps@.skip(i as int + 1)));
            assert(r@.map_values(|s: String| s@) + episode_lines_spec(eps@.skip(i as int + 1))
                =~= season_block_spec(*season, eps@));
        }
        i = i + 1;
    }
    proof {
        assert(eps@.skip(eps@.len() as int) =~= Seq::<Episode>::empty());
        assert(episode_lines_spec(eps@.skip(eps@.len() as int)) =~= Seq::<Seq<char>>::empty());
        assert(r@.map_values(|s: String| s@) =~= season_block_spec(*season, eps@));
    }
    r
}

/// Builds the whole listing from the show and every season's fetched
/// episode list, in season order.
#[verifier::loop_isolation(false)]
pub fn list_lines(show: &Show, episodes: &Vec<Vec<Episode>>) -> (r: Vec<String>)
    requires
        episodes@.len() == show.seasons@.len(),
    ensures
        r@.map_values(|s: String| s@) == list_lines_spec(*show, episodes@),
{
    let mut r: Vec<String> = Vec::new();
    r.push(show_header(show.name.as_str(), show.id));
    let mut i: usize = 0;
    proof {
        assert(show.seasons@.skip(0) =~= show.seasons@);
        assert(episodes@.skip(0) =~= episodes@);
        assert(r@.map_values(|s: String| s@) + season_blocks_spec(
            show.seasons@.skip(0),
            episodes@.skip(0),
        ) =~= list_lines_spec(*show, episodes@));
    }
    while i < show.seasons.len()
        invariant
            i <= show.seasons@.len(),
            r@.map_values(|s: String| s@) + season_blocks_spec(
                show.seasons@.skip(i as int),
                episodes@.skip(i as int),
            ) == list_lines_spec(*show, episodes@),
        decreases show.seasons@.len() - i,
    {
        let mut block = season_lines(&show.seasons[i], &episodes[i]);
        let ghost block_views = block@.map_values(|s: String| s@);
        r.append(&mut block);
        proof {
            assert(show.seasons@.skip(i as int).drop_first() =~= show.seasons@.skip(i as int + 1));
            assert(episodes@.skip(i as int).drop_first() =~= episodes@.skip(i as int + 1));
            assert(season_blocks_spec(show.seasons@.skip(i as int), episodes@.skip(i as int))
                == season_block_spec(show.seasons@[i as int], episodes@[i as int]@)
                + season_blocks_spec(
                show.seasons@.skip(i as int + 1),
                episodes@.skip(i as int + 1),
            ));
            assert(r@.map_values(|s: String| s@) + season_blocks_spec(
                show.seasons@.skip(i as int + 1),
                episodes@.skip(i as int + 1),
            ) =~= list_lines_spec(*show, episodes@));
        }
        i = i + 1;
    }
    proof {
        assert(show.seasons@.skip(show.seasons@.len() as int) =~= Seq::<Season>::empty());
        assert(season_blocks_spec(
            show.seasons@.skip(show.seasons@.len() as int),
            episodes@.skip(show.seasons@.len() as int),
        ) =~= Seq::<Seq<char>>::empty());
        assert(r@.map_values(|s: String| s@) =~= list_lines_spec(*show, episodes@));
    }
    r
}

/// The listing is a pure function of the catalog snapshot: two runs over an
/// unchanged catalog produce identical output, line for line.
pub proof fn lemma_listing_deterministic(
    show_first: Show,
    show_second: Show,
    episodes_first: Seq<Vec<Episode>>,
    episodes_second: Seq<Vec<Episode>>,
)
    requires
        show_first == show_second,
        episodes_first == episodes_second,
    ensures
        list_lines_spec(show_first, episodes_first) == list_lines_spec(
            show_second,
            episodes_second,
        ),
{
}

} // verus!
