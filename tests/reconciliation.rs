use medium_leaderboard::discovery::DiscoveryAction;
use medium_leaderboard::engagement::{engagement_due, ENGAGEMENT_DEBOUNCE_MS};
use medium_leaderboard::error::LeaderboardError;
use medium_leaderboard::models::{Category, InsertSubmission, Submission};
use medium_leaderboard::store::SubmissionStore;

const MINUTE: i64 = 60_000;
const NOW: i64 = 1_700_000_000_000;

fn draft(guid: &str, title: &str, claps: i32) -> InsertSubmission {
    InsertSubmission {
        guid: guid.to_string(),
        realname: format!("Author of {}", guid),
        username: format!("user_{}", guid),
        latest_published_version: "v1".to_string(),
        latest_published_at: 1_690_000_000_000,
        clap_count: claps,
        title: title.to_string(),
        img_id: format!("img_{}", guid),
        word_count: 1200,
    }
}

fn stored(guid: &str, claps: i32, checked_at: i64) -> Submission {
    let mut s = Submission::from_insert(draft(guid, "T", claps), checked_at);
    s.clap_count_last_updated_at = checked_at;
    s
}

fn store_of(rows: Vec<Submission>) -> SubmissionStore {
    SubmissionStore { submissions: rows, history: Vec::new() }
}

fn feed(ids: &[Option<&str>]) -> Vec<Option<String>> {
    ids.iter().map(|i| i.map(|s| s.to_string())).collect()
}

#[test]
fn discovery_isolates_failed_detail_fetch() {
    let mut store = SubmissionStore::new();
    let items = feed(&[Some("abc123"), Some("def456")]);
    let details = vec![Ok(draft("abc123", "T1", 5)), Err(LeaderboardError::Network)];
    let inserted = store.discover(&items, &details, NOW);
    assert_eq!(inserted, 1);
    assert_eq!(store.submissions.len(), 1);
    let row = store.find("abc123").expect("abc123 inserted");
    assert_eq!(row.title, "T1");
    assert_eq!(row.clap_count, 5);
    assert_eq!(row.category, Category::Unsorted);
    assert!(store.find("def456").is_none());
    assert!(store.history.is_empty());
}

#[test]
fn discovery_twice_changes_nothing() {
    let mut store = store_of(vec![stored("old1", 3, NOW - 60 * MINUTE)]);
    let items = feed(&[Some("old1"), Some("new1"), None, Some("new2")]);
    let details = vec![
        Ok(draft("old1", "Old", 3)),
        Ok(draft("new1", "N1", 1)),
        Ok(draft("ignored", "X", 0)),
        Ok(draft("new2", "N2", 2)),
    ];
    assert_eq!(store.discover(&items, &details, NOW), 2);
    let first: Vec<String> = store.submissions.iter().map(|s| s.guid.clone()).collect();
    assert_eq!(first, vec!["old1", "new1", "new2"]);
    assert_eq!(store.discover(&items, &details, NOW + MINUTE), 0);
    let second: Vec<String> = store.submissions.iter().map(|s| s.guid.clone()).collect();
    assert_eq!(first, second);
    assert_eq!(store.find("new1").unwrap().clap_count_last_updated_at, NOW);
}

#[test]
fn discovery_skips_item_without_id() {
    let mut store = SubmissionStore::new();
    let items = feed(&[None, Some("x1")]);
    let details = vec![Ok(draft("never", "N", 0)), Ok(draft("x1", "X", 9))];
    assert_eq!(store.discovery_action(&items[0]), DiscoveryAction::MissingId);
    assert_eq!(store.discover(&items, &details, NOW), 1);
    assert!(store.find("never").is_none());
    assert!(store.find("x1").is_some());
}

#[test]
fn discovery_actions() {
    let store = store_of(vec![stored("a", 1, NOW)]);
    assert_eq!(store.discovery_action(&Some("a".to_string())), DiscoveryAction::Known);
    assert_eq!(store.discovery_action(&Some("b".to_string())), DiscoveryAction::FetchDetails);
    assert_eq!(store.discovery_action(&None), DiscoveryAction::MissingId);
}

#[test]
fn store_details_conflict_and_failure() {
    let mut store = store_of(vec![stored("a", 1, NOW)]);
    assert_eq!(store.store_details(Ok(draft("a", "dup", 4)), NOW), Err(LeaderboardError::Conflict));
    assert_eq!(store.store_details(Err(LeaderboardError::Upstream), NOW), Err(LeaderboardError::Upstream));
    assert_eq!(store.submissions.len(), 1);
    assert_eq!(store.store_details(Ok(draft("b", "B", 4)), NOW), Ok(()));
    assert_eq!(store.submissions.len(), 2);
}

#[test]
fn engagement_change_appends_history() {
    let mut store = store_of(vec![stored("abc123", 5, NOW - 20 * MINUTE)]);
    assert!(store.engagement_refresh_due(NOW));
    let r = store.refresh_engagement(&vec![Ok(7)], NOW);
    assert_eq!(r, Ok(1));
    assert_eq!(store.history.len(), 1);
    assert_eq!(store.history[0].guid, "abc123");
    assert_eq!(store.history[0].clap_count, 7);
    assert_eq!(store.history[0].timestamp, NOW);
    let row = store.find("abc123").unwrap();
    assert_eq!(row.clap_count, 7);
    assert_eq!(row.clap_count_last_updated_at, NOW);
}

#[test]
fn engagement_recent_check_is_skipped() {
    let mut store = store_of(vec![stored("abc123", 5, NOW - 5 * MINUTE)]);
    assert!(!store.engagement_refresh_due(NOW));
    let r = store.refresh_engagement(&vec![Ok(7)], NOW);
    assert_eq!(r, Ok(0));
    assert!(store.history.is_empty());
    let row = store.find("abc123").unwrap();
    assert_eq!(row.clap_count, 5);
    assert_eq!(row.clap_count_last_updated_at, NOW - 5 * MINUTE);
}

#[test]
fn engagement_unchanged_count_only_stamps() {
    let mut store = store_of(vec![stored("a", 5, NOW - 30 * MINUTE), stored("b", 2, NOW - 40 * MINUTE)]);
    assert_eq!(store.refresh_engagement(&vec![Ok(5), Ok(3)], NOW), Ok(2));
    assert_eq!(store.history.len(), 1);
    assert_eq!(store.history[0].guid, "b");
    assert_eq!(store.submissions[0].clap_count, 5);
    assert_eq!(store.submissions[0].clap_count_last_updated_at, NOW);
    assert_eq!(store.submissions[1].clap_count, 3);
}

#[test]
fn engagement_decrease_is_recorded() {
    let mut store = store_of(vec![stored("a", 9, NOW - 30 * MINUTE)]);
    assert!(store.refresh_row(0, 4, NOW));
    assert_eq!(store.submissions[0].clap_count, 4);
    assert_eq!(store.history[0].clap_count, 4);
    assert!(!store.refresh_row(0, 4, NOW + 1));
    assert_eq!(store.history.len(), 1);
    assert_eq!(store.submissions[0].clap_count_last_updated_at, NOW + 1);
}

#[test]
fn engagement_failure_aborts_the_run() {
    let mut store = store_of(vec![
        stored("a", 1, NOW - 30 * MINUTE),
        stored("b", 1, NOW - 30 * MINUTE),
        stored("c", 1, NOW - 30 * MINUTE),
    ]);
    let r = store.refresh_engagement(&vec![Ok(2), Err(LeaderboardError::Network), Ok(5)], NOW);
    assert_eq!(r, Err(LeaderboardError::Network));
    assert_eq!(store.submissions[0].clap_count, 2);
    assert_eq!(store.submissions[0].clap_count_last_updated_at, NOW);
    assert_eq!(store.submissions[1].clap_count, 1);
    assert_eq!(store.submissions[2].clap_count, 1);
    assert_eq!(store.submissions[2].clap_count_last_updated_at, NOW - 30 * MINUTE);
    assert_eq!(store.history.len(), 1);
}

#[test]
fn engagement_debounce_boundary() {
    assert!(engagement_due(None, NOW));
    assert!(!engagement_due(Some(NOW - ENGAGEMENT_DEBOUNCE_MS + 1), NOW));
    assert!(engagement_due(Some(NOW - ENGAGEMENT_DEBOUNCE_MS), NOW));
    assert!(!engagement_due(Some(NOW + MINUTE), NOW));
    assert!(engagement_due(Some(i64::MIN), i64::MAX));
    assert_eq!(ENGAGEMENT_DEBOUNCE_MS, 14 * MINUTE);
}

#[test]
fn empty_store_engagement_run() {
    let mut store = SubmissionStore::new();
    assert!(store.engagement_refresh_due(NOW));
    assert_eq!(store.latest_engagement_check_time(), None);
    assert_eq!(store.refresh_engagement(&vec![], NOW), Ok(0));
}
