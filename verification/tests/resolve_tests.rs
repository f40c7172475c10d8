use tqc::model::{CatalogError, Episode, Season, Show};
use tqc::resolve::{resolve_items, season_items, select_seasons, SeasonEpisodes};

fn episode(id: u64, number: u32, season_number: u32, title: &str) -> Episode {
    Episode {
        id,
        original_name: title.to_string(),
        episode_number: number,
        season_number,
        length: 20,
    }
}

fn show_with_three_seasons() -> Show {
    Show {
        id: 1,
        name: "Some Show".to_string(),
        seasons: vec![
            Season { id: 10, name: "Season 1".to_string(), season_number: 1 },
            Season { id: 20, name: "Season 2".to_string(), season_number: 2 },
            Season { id: 30, name: "Season 3".to_string(), season_number: 3 },
        ],
    }
}

#[test]
fn season_filter_picks_only_that_season() {
    let show = show_with_three_seasons();
    let selected = select_seasons(&show, Some(2)).unwrap();
    assert_eq!(selected, vec![1]);

    let eps = vec![
        episode(201, 1, 2, "a"),
        episode(202, 2, 2, "b"),
        episode(203, 3, 2, "c"),
    ];
    let fetched = vec![SeasonEpisodes { season_number: 2, episodes: eps }];
    let items = resolve_items(fetched, Some(2), None).unwrap();
    let got: Vec<(u32, u64, u32)> = items
        .iter()
        .map(|i| (i.season_number, i.episode.id, i.episode.episode_number))
        .collect();
    assert_eq!(got, vec![(2, 201, 1), (2, 202, 2), (2, 203, 3)]);
}

#[test]
fn absent_season_number_is_an_error() {
    let show = show_with_three_seasons();
    assert_eq!(
        select_seasons(&show, Some(9)).unwrap_err(),
        CatalogError::SeasonNotFound(9)
    );
}

#[test]
fn no_filters_keep_every_season_in_order() {
    let show = show_with_three_seasons();
    let selected = select_seasons(&show, None).unwrap();
    assert_eq!(selected, vec![0, 1, 2]);
}

#[test]
fn episode_filter_without_season_filter_skips_seasons_lacking_it() {
    let fetched = vec![
        SeasonEpisodes {
            season_number: 1,
            episodes: vec![
                episode(101, 1, 1, "s1e1"),
                episode(102, 2, 1, "s1e2"),
                episode(103, 3, 1, "s1e3"),
            ],
        },
        SeasonEpisodes {
            season_number: 2,
            episodes: vec![
                episode(201, 1, 2, "s2e1"),
                episode(202, 2, 2, "s2e2"),
                episode(203, 3, 2, "s2e3"),
            ],
        },
        SeasonEpisodes {
            season_number: 3,
            episodes: vec![episode(305, 5, 3, "s3e5")],
        },
    ];
    let items = resolve_items(fetched, None, Some(2)).unwrap();
    let got: Vec<(u32, u64)> = items.iter().map(|i| (i.season_number, i.episode.id)).collect();
    assert_eq!(got, vec![(1, 102), (2, 202)]);
}

#[test]
fn episode_filter_matching_nothing_without_season_filter_is_empty() {
    let fetched = vec![SeasonEpisodes {
        season_number: 3,
        episodes: vec![episode(305, 5, 3, "s3e5")],
    }];
    let items = resolve_items(fetched, None, Some(2)).unwrap();
    assert!(items.is_empty());
}

#[test]
fn explicit_season_with_absent_episode_number_is_an_error() {
    let fetched = vec![SeasonEpisodes {
        season_number: 3,
        episodes: vec![episode(305, 5, 3, "s3e5")],
    }];
    assert_eq!(
        resolve_items(fetched, Some(3), Some(2)).unwrap_err(),
        CatalogError::EpisodeNotFound(2, 3)
    );
}

#[test]
fn episode_filter_picks_first_match_within_a_season() {
    let eps = vec![
        episode(401, 2, 4, "first"),
        episode(402, 2, 4, "second"),
    ];
    let items = season_items(4, eps, Some(2));
    assert_eq!(items.len(), 1);
    assert_eq!(items[0].episode.id, 401);
}

#[test]
fn resolving_nothing_yields_nothing() {
    let items = resolve_items(Vec::new(), None, None).unwrap();
    assert!(items.is_empty());
}
