use tqc::batch::{Batch, DownloadOutcome};
use tqc::model::{Episode, ResolvedItem};
use tqc::resolve::{resolve_items, SeasonEpisodes};

fn episode(id: u64, number: u32, season_number: u32, title: &str, length: u32) -> Episode {
    Episode {
        id,
        original_name: title.to_string(),
        episode_number: number,
        season_number,
        length,
    }
}

fn item(season_number: u32, id: u64, number: u32, title: &str) -> ResolvedItem {
    ResolvedItem { season_number, episode: episode(id, number, season_number, title, 20) }
}

#[test]
fn all_successes_summary() {
    let mut b = Batch::new(vec![item(1, 1, 1, "a"), item(1, 2, 2, "b"), item(1, 3, 3, "c")]);
    while !b.is_done() {
        let (_line, _url, _template) = b.begin_item("Show");
        b.record(DownloadOutcome::Success);
    }
    assert_eq!(b.summary_lines(), vec!["Download complete! 3 episodes downloaded."]);
    assert!(b.failed.is_empty());
}

#[test]
fn failures_are_counted_and_listed() {
    let mut b = Batch::new(vec![
        item(1, 1, 1, "a"),
        item(1, 2, 2, "b"),
        item(2, 3, 1, "c"),
        item(2, 4, 2, "d"),
    ]);
    let outcomes = [
        DownloadOutcome::Success,
        DownloadOutcome::Failed,
        DownloadOutcome::Failed,
        DownloadOutcome::Success,
    ];
    let mut attempts = 0;
    for outcome in outcomes {
        assert!(!b.is_done());
        let (_line, _url, _template) = b.begin_item("Show");
        b.record(outcome);
        attempts += 1;
    }
    assert!(b.is_done());
    assert_eq!(attempts, 4);
    assert_eq!(
        b.summary_lines(),
        vec![
            "Download complete. 2/4 succeeded, 2 failed:",
            "  - S01E02 - b",
            "  - S02E01 - c",
        ]
    );
}

#[test]
fn end_to_end_download_of_one_season() {
    // The catalog snapshot: show "32951-simon", one season numbered 1 with
    // id 100, two episodes.
    let fetched = vec![SeasonEpisodes {
        season_number: 1,
        episodes: vec![
            episode(9001, 1, 1, "Pilot", 22),
            episode(9002, 2, 1, "Two", 24),
        ],
    }];
    let items = resolve_items(fetched, Some(1), None).unwrap();
    assert_eq!(items.len(), 2);

    let mut b = Batch::new(items);
    let mut urls = Vec::new();
    let mut templates = Vec::new();
    let mut lines = Vec::new();
    let outcomes = [DownloadOutcome::Failed, DownloadOutcome::Success];
    for outcome in outcomes {
        assert!(!b.is_done());
        let (line, url, template) = b.begin_item("Simon");
        lines.push(line);
        urls.push(url);
        templates.push(template);
        b.record(outcome);
    }
    assert!(b.is_done());
    assert_eq!(urls, vec![
        "https://video.telequebec.tv/player/9001/stream",
        "https://video.telequebec.tv/player/9002/stream",
    ]);
    assert_eq!(templates, vec![
        "Simon - S01E01 - Pilot.%(ext)s",
        "Simon - S01E02 - Two.%(ext)s",
    ]);
    assert_eq!(lines, vec![
        "[1/2] Downloading: Simon S01E01 - Pilot",
        "[2/2] Downloading: Simon S01E02 - Two",
    ]);
    assert_eq!(
        b.summary_lines(),
        vec!["Download complete. 1/2 succeeded, 1 failed:", "  - S01E01 - Pilot"]
    );
}

#[test]
fn empty_batch_summary() {
    let b = Batch::new(Vec::new());
    assert!(b.is_done());
    assert_eq!(b.summary_lines(), vec!["Download complete! 0 episodes downloaded."]);
}
