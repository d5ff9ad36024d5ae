use sonarr_plex_cleaner::orchestrator::classify_status;
use sonarr_plex_cleaner::orchestrator::delete_step;
use sonarr_plex_cleaner::orchestrator::season_file_indices;
use sonarr_plex_cleaner::orchestrator::set_season_unmonitored;
use sonarr_plex_cleaner::orchestrator::DeleteAction;
use sonarr_plex_cleaner::orchestrator::DeleteResponse;
use sonarr_plex_cleaner::orchestrator::RetryPolicy;
use sonarr_plex_cleaner::orchestrator::RetryState;
use sonarr_plex_cleaner::sonarr::EpisodeFile;
use sonarr_plex_cleaner::sonarr::Season;
use sonarr_plex_cleaner::sonarr::SeasonStats;

fn file(id: u32, season_number: u32) -> EpisodeFile {
    EpisodeFile {
        id,
        series_id: 1,
        season_number,
        path: format!("/tv/show/s{:02}/e{}.mkv", season_number, id),
        size: 1_000_000,
    }
}

fn season(season_number: u32, monitored: bool) -> Season {
    Season {
        season_number,
        monitored,
        statistics: SeasonStats {
            episode_file_count: 0,
            total_episode_count: 0,
            episode_count: 0,
            next_airing: None,
            previous_airing: None,
            size_on_disk: 0,
        },
    }
}

fn policy() -> RetryPolicy {
    RetryPolicy { initial_delay_ms: 200, max_retries: 5 }
}

#[test]
fn deleting_an_already_deleted_file_reports_success() {
    let state = policy().start();
    let (after, action) = delete_step(&policy(), state, 404);
    assert_eq!(action, DeleteAction::Done);
    assert_eq!(after, state);
}

#[test]
fn successful_delete_is_done() {
    let (_, action) = delete_step(&policy(), policy().start(), 200);
    assert_eq!(action, DeleteAction::Done);
}

#[test]
fn server_error_backs_off_exponentially() {
    let state = policy().start();
    assert_eq!(state, RetryState { retries_made: 0, next_delay_ms: 200 });
    let (state, action) = delete_step(&policy(), state, 500);
    assert_eq!(action, DeleteAction::Wait(200));
    assert_eq!(state, RetryState { retries_made: 1, next_delay_ms: 400 });
    let (state, action) = delete_step(&policy(), state, 503);
    assert_eq!(action, DeleteAction::Wait(400));
    assert_eq!(state, RetryState { retries_made: 2, next_delay_ms: 800 });
}

#[test]
fn retries_stop_at_the_configured_bound() {
    let mut state = policy().start();
    for _ in 0..5 {
        let (next, action) = delete_step(&policy(), state, 500);
        assert!(matches!(action, DeleteAction::Wait(_)));
        state = next;
    }
    let (_, action) = delete_step(&policy(), state, 500);
    assert_eq!(action, DeleteAction::Fail);
}

#[test]
fn client_errors_other_than_not_found_are_fatal() {
    let (_, action) = delete_step(&policy(), policy().start(), 403);
    assert_eq!(action, DeleteAction::Fail);
}

#[test]
fn backoff_saturates_instead_of_overflowing() {
    let state = RetryState { retries_made: 0, next_delay_ms: u64::MAX - 1 };
    let (state, action) = delete_step(&policy(), state, 500);
    assert_eq!(action, DeleteAction::Wait(u64::MAX - 1));
    assert_eq!(state.next_delay_ms, u64::MAX);
}

#[test]
fn statuses_classify_as_documented() {
    assert_eq!(classify_status(200), DeleteResponse::Success);
    assert_eq!(classify_status(204), DeleteResponse::Success);
    assert_eq!(classify_status(404), DeleteResponse::NotFound);
    assert_eq!(classify_status(400), DeleteResponse::ClientError);
    assert_eq!(classify_status(401), DeleteResponse::ClientError);
    assert_eq!(classify_status(500), DeleteResponse::ServerError);
    assert_eq!(classify_status(599), DeleteResponse::ServerError);
}

#[test]
fn files_are_partitioned_by_season_in_order() {
    let files = vec![file(11, 1), file(21, 2), file(12, 1), file(31, 3), file(13, 1)];
    assert_eq!(season_file_indices(&files, 1), vec![0usize, 2, 4]);
    assert_eq!(season_file_indices(&files, 2), vec![1usize]);
    assert_eq!(season_file_indices(&files, 4), Vec::<usize>::new());
}

#[test]
fn unmonitor_clears_only_the_matching_season() {
    let mut seasons = vec![season(1, true), season(2, true), season(3, true)];
    let hit = set_season_unmonitored(&mut seasons, 2);
    assert_eq!(hit, Some(1));
    assert!(seasons[0].monitored);
    assert!(!seasons[1].monitored);
    assert!(seasons[2].monitored);
    assert_eq!(seasons[1].season_number, 2);
}

#[test]
fn unmonitor_without_a_match_changes_nothing() {
    let mut seasons = vec![season(1, true), season(2, false)];
    let before = seasons.clone();
    let hit = set_season_unmonitored(&mut seasons, 9);
    assert_eq!(hit, None);
    assert_eq!(seasons, before);
}
