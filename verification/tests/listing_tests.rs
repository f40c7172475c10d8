use tqc::listing::list_lines;
use tqc::model::{Episode, Season, Show};
use tqc::textout::season_header_pending;

fn catalog() -> (Show, Vec<Vec<Episode>>) {
    let show = Show {
        id: 32951,
        name: "Simon".to_string(),
        seasons: vec![Season { id: 100, name: "Season 1".to_string(), season_number: 1 }],
    };
    let episodes = vec![vec![
        Episode {
            id: 9001,
            original_name: "Pilot".to_string(),
            episode_number: 1,
            season_number: 1,
            length: 22,
        },
        Episode {
            id: 9002,
            original_name: "Two".to_string(),
            episode_number: 2,
            season_number: 1,
            length: 24,
        },
    ]];
    (show, episodes)
}

#[test]
fn listing_lines_are_exact() {
    let (show, episodes) = catalog();
    assert_eq!(
        list_lines(&show, &episodes),
        vec![
            "Show: Simon (ID: 32951)",
            "",
            "Season 1 (ID: 100) (2 episodes):",
            "  EP01 (ID: 9001): Pilot (22 min)",
            "  EP02 (ID: 9002): Two (24 min)",
        ]
    );
}

#[test]
fn listing_twice_over_an_unchanged_catalog_is_identical() {
    let (show, episodes) = catalog();
    let first = list_lines(&show, &episodes);
    let second = list_lines(&show, &episodes);
    assert_eq!(first, second);
}

#[test]
fn pending_header_shows_no_count() {
    assert_eq!(
        season_header_pending("Season 1", 100),
        "Season 1 (ID: 100) (... episodes):"
    );
}

#[test]
fn listing_a_show_without_seasons() {
    let show = Show { id: 5, name: "Empty".to_string(), seasons: vec![] };
    let episodes: Vec<Vec<Episode>> = vec![];
    assert_eq!(list_lines(&show, &episodes), vec!["Show: Empty (ID: 5)"]);
}
