use medium_leaderboard::error::LeaderboardError;
use medium_leaderboard::leaderboard::{latest_and_next_update_time, SubmissionsByCategory};
use medium_leaderboard::models::{same_text, Category, InsertSubmission, Submission};
use medium_leaderboard::schedule::{Job, Schedule, DETAILS_PERIOD_MS, DISCOVERY_PERIOD_MS, ENGAGEMENT_PERIOD_MS};
use medium_leaderboard::store::SubmissionStore;

fn row(guid: &str, user: &str, claps: i32, checked_at: i64) -> Submission {
    Submission::from_insert(
        InsertSubmission {
            guid: guid.to_string(),
            realname: "R".to_string(),
            username: user.to_string(),
            latest_published_version: "v".to_string(),
            latest_published_at: 0,
            clap_count: claps,
            title: format!("title {}", guid),
            img_id: "i".to_string(),
            word_count: 10,
        },
        checked_at,
    )
}

#[test]
fn insert_rejects_duplicate_id() {
    let mut store = SubmissionStore::new();
    let d = |g: &str| InsertSubmission {
        guid: g.to_string(),
        realname: String::new(),
        username: String::new(),
        latest_published_version: String::new(),
        latest_published_at: 0,
        clap_count: 0,
        title: String::new(),
        img_id: String::new(),
        word_count: 0,
    };
    assert_eq!(store.insert(d("a"), 10), Ok(()));
    assert_eq!(store.insert(d("a"), 20), Err(LeaderboardError::Conflict));
    assert_eq!(store.submissions.len(), 1);
    assert_eq!(store.submissions[0].details_last_updated_at, 10);
    assert_eq!(store.position("a"), Some(0));
    assert_eq!(store.position("b"), None);
}

#[test]
fn set_category_found_and_missing() {
    let mut store = SubmissionStore { submissions: vec![row("a", "u", 1, 0), row("b", "u", 2, 0)], history: vec![] };
    assert_eq!(store.set_category("b", Category::Poetry), Ok(()));
    assert_eq!(store.submissions[1].category, Category::Poetry);
    assert_eq!(store.submissions[0].category, Category::Unsorted);
    assert_eq!(store.set_category("zzz", Category::Fiction), Err(LeaderboardError::NotFound));
}

#[test]
fn latest_check_time_is_the_maximum() {
    let store = SubmissionStore { submissions: vec![row("a", "u", 1, 50), row("b", "u", 2, 70), row("c", "u", 2, 60)], history: vec![] };
    assert_eq!(store.latest_engagement_check_time(), Some(70));
}

#[test]
fn listing_is_ordered_by_claps() {
    let store = SubmissionStore {
        submissions: vec![row("a", "u", 1, 0), row("b", "u", 9, 0), row("c", "u", 5, 0), row("d", "u", 9, 0)],
        history: vec![],
    };
    let listed: Vec<i32> = store.list_ordered_by_engagement_desc().iter().map(|s| s.clap_count).collect();
    assert_eq!(listed, vec![9, 9, 5, 1]);
}

#[test]
fn listing_keeps_every_author() {
    let store = SubmissionStore {
        submissions: vec![row("a", "alice", 1, 0), row("b", "vilovshka", 90, 0), row("c", "carol", 5, 0), row("d", "flawrite", 7, 0)],
        history: vec![],
    };
    let listed: Vec<String> = store.list_ordered_by_engagement_desc().iter().map(|s| s.guid.clone()).collect();
    assert_eq!(listed, vec!["b", "d", "c", "a"]);
}

#[test]
fn split_by_category_keeps_order() {
    let mut rows = vec![row("a", "u", 1, 0), row("b", "u", 2, 0), row("c", "u", 3, 0), row("d", "u", 4, 0)];
    rows[0].category = Category::Poetry;
    rows[2].category = Category::Poetry;
    rows[3].category = Category::PersonalEssay;
    let split = SubmissionsByCategory::from_submissions(&rows);
    let ids = |v: &Vec<Submission>| v.iter().map(|s| s.guid.clone()).collect::<Vec<_>>();
    assert_eq!(ids(&split.poetry), vec!["a", "c"]);
    assert_eq!(ids(&split.unsorted), vec!["b"]);
    assert!(split.fiction.is_empty());
    assert_eq!(ids(&split.essay), vec!["d"]);
}

#[test]
fn category_codes_round_trip() {
    for (c, code) in [(Category::Unsorted, 0), (Category::Poetry, 1), (Category::Fiction, 2), (Category::PersonalEssay, 3)] {
        assert_eq!(c.to_code(), code);
        assert_eq!(Category::from_code(code), Some(c));
    }
    assert_eq!(Category::from_code(4), None);
    assert_eq!(Category::from_code(-1), None);
    assert_eq!(Category::default(), Category::Unsorted);
}

#[test]
fn latest_and_next_times() {
    assert_eq!(latest_and_next_update_time(Some(1_000), 5_000), (1_000, 1_000 + 900_000));
    assert_eq!(latest_and_next_update_time(None, 5_000), (5_000, 905_000));
}

#[test]
fn schedule_runs_earliest_job_first() {
    let mut s = Schedule::starting_at(0);
    assert_eq!(s.next_job(), (Job::Discovery, 0));
    s.advance(Job::Discovery);
    assert_eq!(s.next_job(), (Job::DetailRefresh, 0));
    s.advance(Job::DetailRefresh);
    assert_eq!(s.next_job(), (Job::EngagementRefresh, 0));
    s.advance(Job::EngagementRefresh);
    assert_eq!(s.next_job(), (Job::EngagementRefresh, ENGAGEMENT_PERIOD_MS));
    assert_eq!(s.discovery_at, DISCOVERY_PERIOD_MS);
    assert_eq!(s.details_at, DETAILS_PERIOD_MS);
    assert_eq!(Job::Discovery.period(), 3_600_000);
    assert!(SubmissionStore::new().refresh_details().is_ok());
}

#[test]
fn text_comparison() {
    assert!(same_text("héllo", "héllo"));
    assert!(!same_text("abc", "abd"));
    assert!(!same_text("abc", "ab"));
    assert!(same_text("", ""));
}

#[test]
fn update_engagement_by_id() {
    let mut store = SubmissionStore { submissions: vec![row("a", "u", 1, 0), row("b", "u", 2, 0)], history: vec![] };
    assert_eq!(store.update_engagement("b", 8, 500), Ok(()));
    assert_eq!(store.submissions[1].clap_count, 8);
    assert_eq!(store.submissions[1].clap_count_last_updated_at, 500);
    assert_eq!(store.submissions[0].clap_count, 1);
    assert_eq!(store.update_engagement("c", 8, 500), Err(LeaderboardError::NotFound));
}

#[test]
fn append_history_by_id() {
    let mut store = SubmissionStore { submissions: vec![row("a", "u", 1, 0)], history: vec![] };
    assert_eq!(store.append_history("a", 3, 77), Ok(()));
    assert_eq!(store.history.len(), 1);
    assert_eq!(store.history[0].guid, "a");
    assert_eq!(store.history[0].clap_count, 3);
    assert_eq!(store.history[0].timestamp, 77);
    assert_eq!(store.append_history("zz", 3, 77), Err(LeaderboardError::NotFound));
    assert_eq!(store.history.len(), 1);
}

#[test]
fn from_rows_rejects_duplicate_ids() {
    let ok = SubmissionStore::from_rows(vec![row("a", "u", 1, 0), row("b", "u", 2, 0)], vec![]);
    assert_eq!(ok.map(|s| s.submissions.len()).ok(), Some(2));
    let dup = SubmissionStore::from_rows(vec![row("a", "u", 1, 0), row("b", "u", 2, 0), row("a", "v", 3, 0)], vec![]);
    assert_eq!(dup.err(), Some(LeaderboardError::Conflict));
}

#[test]
fn find_returns_stored_row() {
    let store = SubmissionStore { submissions: vec![row("a", "u", 1, 0), row("b", "w", 2, 0)], history: vec![] };
    let found = store.find("b").unwrap();
    assert_eq!(found.username, "w");
    assert_eq!(found.clap_count, 2);
    assert!(store.find("c").is_none());
}
