use tqc::model::Episode;
use tqc::paginate::{EpisodesPage, PageWalk};

fn episode(id: u64, number: u32) -> Episode {
    Episode {
        id,
        original_name: format!("ep{}", number),
        episode_number: number,
        season_number: 1,
        length: 20,
    }
}

#[test]
fn walk_starts_at_the_first_page_url() {
    let w = PageWalk::start(7, 8);
    assert_eq!(
        w.next_url.as_deref(),
        Some("https://beacon.playback.api.brightcove.com/telequebec/api/tvshow/7/season/8/episodes?device_type=web&device_layout=web&layout_id=320")
    );
    assert!(w.collected.is_empty());
}

#[test]
fn walk_concatenates_pages_and_stops_on_absent_cursor() {
    let mut w = PageWalk::start(7, 8);
    w.on_page(EpisodesPage {
        episodes: vec![episode(1, 1), episode(2, 2)],
        next: Some("https://example.test/page2".to_string()),
    });
    assert_eq!(w.next_url.as_deref(), Some("https://example.test/page2"));
    w.on_page(EpisodesPage {
        episodes: vec![episode(3, 3)],
        next: Some("https://example.test/page3".to_string()),
    });
    w.on_page(EpisodesPage { episodes: vec![episode(4, 4)], next: None });
    assert!(w.next_url.is_none());
    let episodes = w.into_episodes();
    let ids: Vec<u64> = episodes.iter().map(|e| e.id).collect();
    assert_eq!(ids, vec![1, 2, 3, 4]);
}

#[test]
fn single_page_walk() {
    let mut w = PageWalk::start(1, 2);
    w.on_page(EpisodesPage { episodes: vec![], next: None });
    assert!(w.next_url.is_none());
    assert!(w.into_episodes().is_empty());
}
