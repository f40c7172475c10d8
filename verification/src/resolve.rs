//! The selection resolver: given a show's season list, per-season episode
//! lists, and optional season- and episode-number filters, computes the
//! exact ordered set of (season, episode) pairs to act on.
//!
//! Season order is the show's; within a season, episode order is the API's.
//! An episode-number filter picks the first episode carrying that number in
//! each season in scope. With an explicit season filter a missing episode
//! number is a hard error; over the whole show, a season without a match is
//! simply skipped.

use vstd::prelude::*;
use crate::model::{CatalogError, Episode, ResolvedItem, Season, Show};

verus! {

/// What one season contributes under an episode-number filter: its first
/// episode carrying that number, or nothing.
pub open spec fn season_pick(eps: Seq<Episode>, num: u32) -> Seq<Episode>
    decreases eps.len(),
{
    if eps.len() == 0 {
        Seq::empty()
    } else if eps[0].episode_number == num {
        seq![eps[0]]
    } else {
        season_pick(eps.drop_first(), num)
    }
}

/// What one season contributes under an optional episode-number filter:
/// everything, or its first match.
pub open spec fn season_scope(eps: Seq<Episode>, filter: Option<u32>) -> Seq<Episode> {
    match filter {
        None => eps,
        Some(num) => season_pick(eps, num),
    }
}

/// The position of the first season carrying the given season number.
pub open spec fn season_index(seasons: Seq<Season>, num: u32) -> Option<int>
    decreases seasons.len(),
{
    if seasons.len() == 0 {
        None
    } else if seasons[0].season_number == num {
        Some(0 as int)
    } else {
        match season_index(seasons.drop_first(), num) {
            Some(i) => Some(i + 1),
            None => None,
        }
    }
}

/// The episodes of `eps`, each paired with the season number `sn`.
pub open spec fn tag_items(sn: u32, eps: Seq<Episode>) -> Seq<ResolvedItem>
    decreases eps.len(),
{
    if eps.len() == 0 {
        Seq::empty()
    } else {
        seq![(ResolvedItem { season_number: sn, episode: eps[0] })] + tag_items(
            sn,
            eps.drop_first(),
        )
    }
}

/// One season in scope together with its fully fetched episode list.
pub struct SeasonEpisodes {
    pub season_number: u32,
    pub episodes: Vec<Episode>,
}

/// The full resolution result over the seasons in scope, in season order,
/// each season contributing under the episode filter.
pub open spec fn resolved_spec(fetched: Seq<SeasonEpisodes>, filter: Option<u32>) -> Seq<
    ResolvedItem,
>
    decreases fetched.len(),
{
    if fetched.len() == 0 {
        Seq::empty()
    } else {
        tag_items(fetched[0].season_number, season_scope(fetched[0].episodes@, filter))
            + resolved_spec(fetched.drop_first(), filter)
    }
}

/// The season number of the first season in scope with no episode carrying
/// the filtered number, if any.
pub open spec fn first_missing(fetched: Seq<SeasonEpisodes>, num: u32) -> Option<u32>
    decreases fetched.len(),
{
    if fetched.len() == 0 {
        None
    } else if season_pick(fetched[0].episodes@, num).len() == 0 {
        Some(fetched[0].season_number)
    } else {
        first_missing(fetched.drop_first(), num)
    }
}

/// Tagging keeps the number of episodes.
pub proof fn lemma_tag_items_len(sn: u32, eps: Seq<Episode>)
    ensures
        tag_items(sn, eps).len() == eps.len(),
    decreases eps.len(),
{
    if eps.len() > 0 {
        lemma_tag_items_len(sn, eps.drop_first());
    }
}

/// If the first match of `num` in `eps` stands at position `i`, the pick is
/// exactly that episode.
proof fn lemma_season_pick_found(eps: Seq<Episode>, num: u32, i: int)
    requires
        0 <= i < eps.len(),
        eps[i].episode_number == num,
        forall|k: int| 0 <= k < i ==> eps[k].episode_number != num,
    ensures
        season_pick(eps, num) == seq![eps[i]],
    decreases i,
{
    if i > 0 {
        lemma_season_pick_found(eps.drop_first(), num, i - 1);
    }
}

/// If no episode of `eps` carries `num`, the pick is empty.
proof fn lemma_season_pick_none(eps: Seq<Episode>, num: u32)
    requires
        forall|k: int| 0 <= k < eps.len() ==> eps[k].episode_number != num,
    ensures
        season_pick(eps, num) == Seq::<Episode>::empty(),
    decreases eps.len(),
{
    if eps.len() > 0 {
        lemma_season_pick_none(eps.drop_first(), num);
    }
}

/// Narrows a show's season list under an optional season-number filter:
/// all season positions in stored order, or the position of the first
/// season carrying the requested number, or `SeasonNotFound`.
#[verifier::loop_isolation(false)]
pub fn select_seasons(show: &Show, season_filter: Option<u32>) -> (r: Result<
    Vec<usize>,
    CatalogError,
>)
    ensures
        season_filter is None ==> (r matches Ok(v) && v@.len() == show.seasons@.len() && forall|
            k: int,
        |
            0 <= k < v@.len() ==> v@[k] as int == k),
        season_filter matches Some(num) ==> match season_index(show.seasons@, num) {
            Some(i) => r matches Ok(v) && v@.len() == 1 && v@[0] as int == i,
            None => r == Err::<Vec<usize>, CatalogError>(CatalogError::SeasonNotFound(num)),
        },
{
    match season_filter {
        None => {
            let mut v: Vec<usize> = Vec::new();
            let mut i: usize = 0;
            let n = show.seasons.len();
            while i < n
                invariant
                    i <= n,
                    n == show.seasons@.len(),
                    v@.len() == i,
                    forall|k: int| 0 <= k < i ==> v@[k] as int == k,
                decreases n - i,
            {
                v.push(i);
                i = i + 1;
            }
            Ok(v)
        },
        Some(num) => {
            let mut i: usize = 0;
            let n = show.seasons.len();
            while i < n
                invariant
                    season_filter == Some(num),
                    i <= n,
                    n == show.seasons@.len(),
                    forall|k: int| 0 <= k < i ==> show.seasons@[k].season_number != num,
                decreases n - i,
            {
                if show.seasons[i].season_number == num {
                    proof {
                        lemma_season_index_found(show.seasons@, num, i as int);
                    }
                    let mut v: Vec<usize> = Vec::new();
                    v.push(i);
                    return Ok(v);
                }
                i = i + 1;
            }
            proof {
                lemma_season_index_none(show.seasons@, num);
            }
            Err(CatalogError::SeasonNotFound(num))
        },
    }
}

/// If the first season carrying `num` stands at position `i`, the index is
/// exactly `i`.
proof fn lemma_season_index_found(seasons: Seq<Season>, num: u32, i: int)
    requires
        0 <= i < seasons.len(),
        seasons[i].season_number == num,
        forall|k: int| 0 <= k < i ==> seasons[k].season_number != num,
    ensures
        season_index(seasons, num) == Some(i),
    decreases i,
{
    if i > 0 {
        lemma_season_index_found(seasons.drop_first(), num, i - 1);
    }
}

/// If no season carries `num`, there is no index.
proof fn lemma_season_index_none(seasons: Seq<Season>, num: u32)
    requires
        forall|k: int| 0 <= k < seasons.len() ==> seasons[k].season_number != num,
    ensures
        season_index(seasons, num) is None,
    decreases seasons.len(),
{
    if seasons.len() > 0 {
        lemma_season_index_none(seasons.drop_first(), num);
    }
}

/// Computes one season's contribution: all its episodes, or its first
/// episode carrying the filtered number, each paired with `season_number`.
#[verifier::loop_isolation(false)]
pub fn season_items(season_number: u32, eps: Vec<Episode>, filter: Option<u32>) -> (r: Vec<
    ResolvedItem,
>)
    ensures
        r@ == tag_items(season_number, season_scope(eps@, filter)),
{
    match filter {
        None => {
            let mut remaining = eps;
            let ghost orig = remaining@;
            let mut r: Vec<ResolvedItem> = Vec::new();
            proof {
                assert(r@ + tag_items(season_number, remaining@) =~= tag_items(
                    season_number,
                    orig,
                ));
            }
            while remaining.len() > 0
                invariant
                    r@ + tag_items(season_number, remaining@) == tag_items(season_number, orig),
                decreases remaining.len(),
            {
                let ghost before = remaining@;
                let e = remaining.remove(0);
                r.push(ResolvedItem { season_number, episode: e });
                proof {
                    assert(remaining@ =~= before.drop_first());
                    assert(tag_items(season_number, before) == seq![
                        (ResolvedItem { season_number, episode: e }),
                    ] + tag_items(season_number, before.drop_first()));
                    assert(r@ + tag_items(season_number, remaining@) =~= tag_items(
                        season_number,
                        orig,
                    ));
                }
            }
            proof {
                assert(tag_items(season_number, remaining@) =~= Seq::<ResolvedItem>::empty());
                assert(r@ =~= r@ + tag_items(season_number, remaining@));
            }
            r
        },
        Some(num) => {
            let mut remaining = eps;
            let mut i: usize = 0;
            let n = remaining.len();
            while i < n
                invariant
                    filter == Some(num),
                    remaining@ == eps@,
                    i <= n,
                    n == remaining@.len(),
                    forall|k: int| 0 <= k < i ==> remaining@[k].episode_number != num,
                decreases n - i,
            {
                if remaining[i].episode_number == num {
                    proof {
                        lemma_season_pick_found(remaining@, num, i as int);
                    }
                    let ghost before = remaining@;
                    let e = remaining.remove(i);
                    let mut r: Vec<ResolvedItem> = Vec::new();
                    r.push(ResolvedItem { season_number, episode: e });
                    proof {
                        assert(season_pick(before, num) =~= seq![e]);
                        assert(seq![e].drop_first() =~= Seq::<Episode>::empty());
                        assert(tag_items(season_number, Seq::<Episode>::empty())
                            =~= Seq::<ResolvedItem>::empty());
                        assert(tag_items(season_number, seq![e]) == seq![
                            (ResolvedItem { season_number, episode: e }),
                        ] + tag_items(season_number, seq![e].drop_first()));
                        assert(tag_items(season_number, seq![e]) =~= seq![
                            (ResolvedItem { season_number, episode: e }),
                        ]);
                        assert(r@ =~= tag_items(season_number, season_scope(before, filter)));
                    }
                    return r;
                }
                i = i + 1;
            }
            proof {
                lemma_season_pick_none(remaining@, num);
            }
            let none_found: Vec<ResolvedItem> = Vec::new();
            proof {
                assert(none_found@ =~= tag_items(season_number, season_scope(eps@, filter)));
            }
            none_found
        },
    }
}

/// Resolves the full ordered set of items to download from the seasons in
/// scope and their fetched episode lists. With an explicit season filter, a
/// filtered episode number absent from a season in scope is a hard
/// `EpisodeNotFound`; without one, such seasons contribute nothing.
#[verifier::loop_isolation(false)]
pub fn resolve_items(
    fetched: Vec<SeasonEpisodes>,
    season_filter: Option<u32>,
    episode_filter: Option<u32>,
) -> (r: Result<Vec<ResolvedItem>, CatalogError>)
    ensures
        (match (season_filter, episode_filter) {
            (Some(_), Some(num)) => match first_missing(fetched@, num) {
                Some(sn) => r == Err::<Vec<ResolvedItem>, CatalogError>(
                    CatalogError::EpisodeNotFound(num, sn),
                ),
                None => r matches Ok(items) && items@ == resolved_spec(fetched@, episode_filter),
            },
            _ => r matches Ok(items) && items@ == resolved_spec(fetched@, episode_filter),
        }),
{
    let explicit_season = season_filter.is_some();
    let mut pending = fetched;
    let ghost orig = pending@;
    let mut items: Vec<ResolvedItem> = Vec::new();
    while pending.len() > 0
        invariant
            explicit_season == (season_filter is Some),
            items@ + resolved_spec(pending@, episode_filter) == resolved_spec(
                orig,
                episode_filter,
            ),
            episode_filter matches Some(num) ==> (season_filter is Some ==> first_missing(
                orig,
                num,
            ) == first_missing(pending@, num)),
        decreases pending.len(),
    {
        let ghost before = pending@;
        let se = pending.remove(0);
        let SeasonEpisodes { season_number: sn, episodes } = se;
        let ghost head_eps = episodes@;
        let mut picked = season_items(sn, episodes, episode_filter);
        proof {
            assert(pending@ =~= before.drop_first());
            lemma_tag_items_len(sn, season_scope(head_eps, episode_filter));
        }
        if explicit_season && picked.len() == 0 {
            if let Some(num) = episode_filter {
                proof {
                    assert(season_pick(head_eps, num).len() == 0);
                    assert(first_missing(before, num) == Some(sn));
                }
                return Err(CatalogError::EpisodeNotFound(num, sn));
            }
        }
        let ghost items_before = items@;
        items.append(&mut picked);
        proof {
            assert(resolved_spec(before, episode_filter) == tag_items(
                sn,
                season_scope(head_eps, episode_filter),
            ) + resolved_spec(before.drop_first(), episode_filter));
            assert(items@ + resolved_spec(pending@, episode_filter) =~= resolved_spec(
                orig,
                episode_filter,
            ));
            if season_filter is Some && episode_filter is Some {
                let num = episode_filter->0;
                // a season whose pick is empty returned an error above, so
                // here the first missing season, if any, lies further on
                assert(season_pick(head_eps, num).len() > 0);
                assert(first_missing(before, num) == first_missing(before.drop_first(), num));
            }
        }
    }
    proof {
        assert(resolved_spec(pending@, episode_filter) =~= Seq::<ResolvedItem>::empty());
        assert(items@ =~= items@ + resolved_spec(pending@, episode_filter));
    }
    Ok(items)
}

} // verus!
