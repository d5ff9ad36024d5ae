use sonarr_plex_cleaner::engine::decide;
use sonarr_plex_cleaner::engine::eligible_seasons;
use sonarr_plex_cleaner::engine::is_eligible;
use sonarr_plex_cleaner::sonarr::Season;
use sonarr_plex_cleaner::sonarr::SeasonStats;
use sonarr_plex_cleaner::sonarr::Series;
use sonarr_plex_cleaner::sonarr::TagId;
use sonarr_plex_cleaner::watched::WatchedSeasons;

const DAY: i64 = 86_400;
const NOW: i64 = 1_700_000_000;

fn stats(prev_days_ago: Option<i64>, next_in_days: Option<i64>, size: u128) -> SeasonStats {
    SeasonStats {
        episode_file_count: 10,
        total_episode_count: 10,
        episode_count: 10,
        next_airing: next_in_days.map(|d| NOW + d * DAY),
        previous_airing: prev_days_ago.map(|d| NOW - d * DAY),
        size_on_disk: size,
    }
}

fn show_x(tags: Vec<TagId>) -> Series {
    Series {
        title: "Show X".to_string(),
        id: 7,
        tags,
        seasons: vec![Season {
            season_number: 1,
            monitored: true,
            statistics: stats(Some(70), None, 5_000_000_000),
        }],
    }
}

fn watched_show_x() -> WatchedSeasons {
    let mut w = WatchedSeasons::new();
    w.insert("Show X".to_string(), "Season 1".to_string());
    w
}

#[test]
fn scenario_a_old_watched_season_is_eligible() {
    let serieses = vec![show_x(vec![])];
    let d = decide(&serieses, &watched_show_x(), None, 60 * DAY as u64, NOW);
    assert_eq!(d, vec![(0usize, vec![0usize])]);
}

#[test]
fn scenario_b_longer_retention_keeps_season() {
    let serieses = vec![show_x(vec![])];
    let d = decide(&serieses, &watched_show_x(), None, 90 * DAY as u64, NOW);
    assert_eq!(d, Vec::new());
}

#[test]
fn scenario_c_exemption_tag_keeps_whole_series() {
    let tag = TagId(42);
    let serieses = vec![show_x(vec![tag])];
    let d = decide(&serieses, &watched_show_x(), Some(tag), 60 * DAY as u64, NOW);
    assert_eq!(d, Vec::new());
}

#[test]
fn scenario_d_future_next_airing_keeps_season() {
    let mut series = show_x(vec![]);
    series.seasons[0].statistics.next_airing = Some(NOW + 30 * DAY);
    let serieses = vec![series];
    let d = decide(&serieses, &watched_show_x(), None, 60 * DAY as u64, NOW);
    assert_eq!(d, Vec::new());
}

#[test]
fn decision_is_idempotent_on_frozen_inputs() {
    let serieses = vec![
        show_x(vec![]),
        Series {
            title: "Show Y".to_string(),
            id: 8,
            tags: vec![],
            seasons: vec![
                Season {
                    season_number: 1,
                    monitored: true,
                    statistics: stats(Some(200), None, 1),
                },
                Season {
                    season_number: 2,
                    monitored: false,
                    statistics: stats(Some(100), None, 0),
                },
            ],
        },
    ];
    let mut w = watched_show_x();
    w.insert("Show Y".to_string(), "Season 1".to_string());
    w.insert("Show Y".to_string(), "Season 2".to_string());
    let first = decide(&serieses, &w, None, 60 * DAY as u64, NOW);
    let second = decide(&serieses, &w, None, 60 * DAY as u64, NOW);
    assert_eq!(first, second);
    assert_eq!(first, vec![(0usize, vec![0usize]), (1usize, vec![0usize])]);
}

#[test]
fn airing_season_is_never_eligible_whatever_else_holds() {
    let mut series = show_x(vec![]);
    series.seasons[0].statistics.next_airing = Some(NOW - DAY);
    assert!(!is_eligible(
        &series,
        &series.seasons[0],
        &watched_show_x(),
        None,
        0,
        NOW
    ));
}

#[test]
fn empty_season_is_never_eligible() {
    let mut series = show_x(vec![]);
    series.seasons[0].statistics.size_on_disk = 0;
    assert!(!is_eligible(
        &series,
        &series.seasons[0],
        &watched_show_x(),
        None,
        60 * DAY as u64,
        NOW
    ));
}

#[test]
fn unwatched_season_is_not_eligible() {
    let serieses = vec![show_x(vec![])];
    let unrelated = {
        let mut w = WatchedSeasons::new();
        w.insert("Show X".to_string(), "Season 2".to_string());
        w.insert("Other Show".to_string(), "Season 1".to_string());
        w
    };
    let d = decide(&serieses, &unrelated, None, 60 * DAY as u64, NOW);
    assert_eq!(d, Vec::new());
}

#[test]
fn never_aired_season_is_not_eligible() {
    let mut series = show_x(vec![]);
    series.seasons[0].statistics.previous_airing = None;
    let serieses = vec![series];
    let d = decide(&serieses, &watched_show_x(), None, 0, NOW);
    assert_eq!(d, Vec::new());
}

#[test]
fn untagged_series_ignores_the_exemption_tag() {
    let serieses = vec![show_x(vec![TagId(3)])];
    let d = decide(&serieses, &watched_show_x(), Some(TagId(42)), 60 * DAY as u64, NOW);
    assert_eq!(d, vec![(0usize, vec![0usize])]);
}

#[test]
fn empty_inventory_yields_empty_decision() {
    let d = decide(&Vec::new(), &WatchedSeasons::new(), None, 0, NOW);
    assert_eq!(d, Vec::new());
}

#[test]
fn zero_retention_deletes_anything_watched_and_aired() {
    let mut series = show_x(vec![]);
    series.seasons[0].statistics.previous_airing = Some(NOW - 1);
    let serieses = vec![series];
    let d = decide(&serieses, &watched_show_x(), None, 0, NOW);
    assert_eq!(d, vec![(0usize, vec![0usize])]);
}

#[test]
fn retention_boundary_is_strict() {
    // previous_airing + retain == now is exactly at the deadline: not yet old enough.
    let mut series = show_x(vec![]);
    series.seasons[0].statistics.previous_airing = Some(NOW - 60 * DAY);
    let serieses = vec![series];
    let at_boundary = decide(&serieses, &watched_show_x(), None, 60 * DAY as u64, NOW);
    assert_eq!(at_boundary, Vec::new());
    let just_past = decide(&serieses, &watched_show_x(), None, (60 * DAY - 1) as u64, NOW);
    assert_eq!(just_past, vec![(0usize, vec![0usize])]);
}

#[test]
fn huge_sizes_are_handled() {
    let mut series = show_x(vec![]);
    series.seasons[0].statistics.size_on_disk = u128::MAX;
    let serieses = vec![series];
    let d = decide(&serieses, &watched_show_x(), None, 60 * DAY as u64, NOW);
    assert_eq!(d, vec![(0usize, vec![0usize])]);
}

#[test]
fn per_series_eligible_seasons_lists_indices_in_order() {
    let series = Series {
        title: "Show Z".to_string(),
        id: 9,
        tags: vec![],
        seasons: vec![
            Season {
                season_number: 1,
                monitored: true,
                statistics: stats(Some(300), None, 10),
            },
            Season {
                season_number: 2,
                monitored: true,
                statistics: stats(Some(200), Some(5), 10),
            },
            Season {
                season_number: 3,
                monitored: true,
                statistics: stats(Some(100), None, 10),
            },
        ],
    };
    let mut w = WatchedSeasons::new();
    w.insert("Show Z".to_string(), "Season 1".to_string());
    w.insert("Show Z".to_string(), "Season 2".to_string());
    w.insert("Show Z".to_string(), "Season 3".to_string());
    let elig = eligible_seasons(&series, &w, None, 60 * DAY as u64, NOW);
    assert_eq!(elig, vec![0usize, 2usize]);
}
