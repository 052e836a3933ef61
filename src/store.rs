//! The submission store: the rows the jobs reconcile against, and the
//! append-only clap history. Ids are unique among the rows.
use vstd::prelude::*;
use crate::error::LeaderboardError;
use crate::models::{same_text, Category, ClapHistory, InsertSubmission, Submission, Timestamp, new_row};

verus! {

broadcast use vstd::seq_lib::group_to_multiset_ensures;

/// Some row of `rows` has the id `g`.
pub open spec fn has_guid(rows: Seq<Submission>, g: Seq<char>) -> bool {
    exists|i: int| 0 <= i < rows.len() && #[trigger] rows[i].guid@ == g
}

/// No two rows share an id.
pub open spec fn guids_unique(rows: Seq<Submission>) -> bool {
    forall|i: int, j: int|
        0 <= i < rows.len() && 0 <= j < rows.len() && #[trigger] rows[i].guid@
            == #[trigger] rows[j].guid@ ==> i == j
}

/// The rows ordered by clap count, highest first.
pub open spec fn by_claps_desc(rows: Seq<Submission>) -> bool {
    forall|i: int, j: int|
        0 <= i < j < rows.len() ==> #[trigger] rows[i].clap_count >= #[trigger] rows[j].clap_count
}

/// `s` with its category set to `c`.
pub open spec fn with_category(s: Submission, c: Category) -> Submission {
    Submission { category: c, ..s }
}

/// `s` after its clap count was read as `count` at time `now`.
pub open spec fn refreshed(s: Submission, count: i32, now: Timestamp) -> Submission {
    Submission { clap_count: count, clap_count_last_updated_at: now, ..s }
}

/// The history row that records `count` for `s` at time `now`.
pub open spec fn history_row(s: Submission, count: i32, now: Timestamp) -> ClapHistory {
    ClapHistory { guid: s.guid, clap_count: count, timestamp: now }
}

/// `rows`, highest clap count first.
pub fn sort_by_claps_desc(rows: &Vec<Submission>) -> (r: Vec<Submission>)
    ensures
        by_claps_desc(r@),
        r@.to_multiset() == rows@.to_multiset(),
{
    let mut out: Vec<Submission> = Vec::new();
    let mut k: usize = 0;
    while k < rows.len()
        invariant
            k <= rows@.len(),
            by_claps_desc(out@),
            out@.to_multiset() == rows@.subrange(0, k as int).to_multiset(),
        decreases rows@.len() - k,
    {
        let row = rows[k].clone();
        let mut p: usize = 0;
        while p < out.len() && out[p].clap_count >= row.clap_count
            invariant
                p <= out@.len(),
                forall|j: int| 0 <= j < p ==> #[trigger] out@[j].clap_count >= row.clap_count,
            decreases out@.len() - p,
        {
            p = p + 1;
        }
        let ghost before = out@;
        out.insert(p, row);
        proof {
            assert(rows@.subrange(0, k + 1) =~= rows@.subrange(0, k as int).push(rows@[k as int]));
            assert forall|i: int, j: int| 0 <= i < j < out@.len() implies #[trigger] out@[i].clap_count
                >= #[trigger] out@[j].clap_count by {
                if p < before.len() {
                    assert(before[p as int].clap_count < row.clap_count);
                }
                if i < p && j > p {
                    assert(out@[j] == before[j - 1]);
                } else if i == p && j > p {
                    assert(out@[j] == before[j - 1]);
                    assert(before[p as int].clap_count >= before[j - 1].clap_count);
                } else if i > p {
                    assert(out@[i] == before[i - 1]);
                    assert(out@[j] == before[j - 1]);
                }
            }
        }
        k = k + 1;
    }
    assert(rows@.subrange(0, k as int) =~= rows@);
    out
}

/// Submissions and their clap history.
pub struct SubmissionStore {
    pub submissions: Vec<Submission>,
    pub history: Vec<ClapHistory>,
}

impl SubmissionStore {
    /// The store's invariant: ids are unique.
    pub open spec fn wf(&self) -> bool {
        guids_unique(self.submissions@)
    }

    /// An empty store.
    pub fn new() -> (r: SubmissionStore)
        ensures
            r.wf(),
            r.submissions@ == Seq::<Submission>::empty(),
            r.history@ == Seq::<ClapHistory>::empty(),
    {
        SubmissionStore { submissions: Vec::new(), history: Vec::new() }
    }

    /// A store holding `rows` and `history`; fails with `Conflict` when two
    /// rows share an id.
    pub fn from_rows(rows: Vec<Submission>, history: Vec<ClapHistory>) -> (r: Result<
        SubmissionStore,
        LeaderboardError,
    >)
        ensures
            guids_unique(rows@) ==> r is Ok && r->Ok_0.wf() && r->Ok_0.submissions@ == rows@
                && r->Ok_0.history@ == history@,
            !guids_unique(rows@) ==> r == Err::<SubmissionStore, LeaderboardError>(
                LeaderboardError::Conflict,
            ),
    {
        let mut store = SubmissionStore { submissions: Vec::new(), history };
        let mut rest = rows;
        let ghost all = rest@;
        let mut k: usize = 0;
        while k < rest.len()
            invariant
                k <= rest@.len(),
                rest@ == all,
                all == rows@,
                store.history@ == history@,
                store.submissions@ == all.subrange(0, k as int),
                guids_unique(store.submissions@),
            decreases rest@.len() - k,
        {
            if store.position(rest[k].guid.as_str()).is_some() {
                proof {
                    let i = choose|i: int|
                        0 <= i < k && #[trigger] store.submissions@[i].guid@ == all[k as int].guid@;
                    assert(all[i].guid@ == all[k as int].guid@);
                    assert(!guids_unique(all));
                }
                return Err(LeaderboardError::Conflict);
            }
            let row = rest[k].clone();
            let ghost before = store.submissions@;
            store.submissions.push(row);
            proof {
                assert(store.submissions@ =~= all.subrange(0, k + 1));
                let rows_now = store.submissions@;
                assert forall|i: int, j: int|
                    0 <= i < rows_now.len() && 0 <= j < rows_now.len() && #[trigger] rows_now[i].guid@
                        == #[trigger] rows_now[j].guid@ implies i == j by {
                    if i == k && j < k {
                        assert(before[j].guid@ == all[k as int].guid@);
                    } else if j == k && i < k {
                        assert(before[i].guid@ == all[k as int].guid@);
                    }
                }
            }
            k = k + 1;
        }
        assert(all.subrange(0, k as int) =~= all);
        Ok(store)
    }

    /// Where the row with id `guid` stands, if there is one.
    pub fn position(&self, guid: &str) -> (r: Option<usize>)
        ensures
            match r {
                Some(i) => i < self.submissions@.len() && self.submissions@[i as int].guid@
                    == guid@,
                None => !has_guid(self.submissions@, guid@),
            },
    {
        let mut i: usize = 0;
        while i < self.submissions.len()
            invariant
                i <= self.submissions@.len(),
                forall|j: int| 0 <= j < i ==> self.submissions@[j].guid@ != guid@,
            decreases self.submissions@.len() - i,
        {
            if same_text(self.submissions[i].guid.as_str(), guid) {
                return Some(i);
            }
            i = i + 1;
        }
        None
    }

    /// The row with id `guid`, if there is one.
    pub fn find(&self, guid: &str) -> (r: Option<Submission>)
        requires
            self.wf(),
        ensures
            match r {
                Some(s) => s.guid@ == guid@ && self.submissions@.contains(s),
                None => !has_guid(self.submissions@, guid@),
            },
    {
        match self.position(guid) {
            Some(i) => Some(self.submissions[i].clone()),
            None => None,
        }
    }

    /// Stores a new submission stamped `now`, with the default category.
    /// Fails with `Conflict`, changing nothing, when its id is taken.
    pub fn insert(&mut self, d: InsertSubmission, now: Timestamp) -> (r: Result<
        (),
        LeaderboardError,
    >)
        requires
            old(self).wf(),
        ensures
            final(self).wf(),
            final(self).history@ == old(self).history@,
            has_guid(old(self).submissions@, d.guid@) ==> r == Err::<(), LeaderboardError>(
                LeaderboardError::Conflict,
            ) && final(self).submissions@ == old(self).submissions@,
            !has_guid(old(self).submissions@, d.guid@) ==> r is Ok && final(self).submissions@
                == old(self).submissions@.push(new_row(d, now)),
    {
        if self.position(d.guid.as_str()).is_some() {
            return Err(LeaderboardError::Conflict);
        }
        let row = Submission::from_insert(d, now);
        self.submissions.push(row);
        proof {
            let rows = self.submissions@;
            assert forall|i: int, j: int|
                0 <= i < rows.len() && 0 <= j < rows.len() && #[trigger] rows[i].guid@
                    == #[trigger] rows[j].guid@ implies i == j by {
                if i == rows.len() - 1 || j == rows.len() - 1 {
                    let k = if i == rows.len() - 1 { j } else { i };
                    if k != rows.len() - 1 {
                        assert(old(self).submissions@[k].guid@ == d.guid@);
                    }
                }
            }
        }
        Ok(())
    }

    /// The latest time any row's clap count was checked; `None` for an empty store.
    pub fn latest_engagement_check_time(&self) -> (r: Option<Timestamp>)
        ensures
            match r {
                None => self.submissions@.len() == 0,
                Some(t) => (forall|i: int|
                    0 <= i < self.submissions@.len()
                        ==> #[trigger] self.submissions@[i].clap_count_last_updated_at <= t)
                    && exists|i: int|
                    0 <= i < self.submissions@.len()
                        && #[trigger] self.submissions@[i].clap_count_last_updated_at == t,
            },
    {
        let rows = &self.submissions;
        if rows.len() == 0 {
            return None;
        }
        let mut best: Timestamp = rows[0].clap_count_last_updated_at;
        let ghost mut at: int = 0;
        let mut i: usize = 1;
        while i < rows.len()
            invariant
                1 <= i <= rows@.len(),
                0 <= at < i,
                rows@[at].clap_count_last_updated_at == best,
                forall|j: int| 0 <= j < i ==> #[trigger] rows@[j].clap_count_last_updated_at <= best,
            decreases rows@.len() - i,
        {
            if rows[i].clap_count_last_updated_at > best {
                best = rows[i].clap_count_last_updated_at;
                proof {
                    at = i as int;
                }
            }
            i = i + 1;
        }
        Some(best)
    }

    /// Sets the category of the row with id `guid`. Fails with `NotFound`,
    /// changing nothing, when there is no such row.
    pub fn set_category(&mut self, guid: &str, category: Category) -> (r: Result<
        (),
        LeaderboardError,
    >)
        requires
            old(self).wf(),
        ensures
            final(self).wf(),
            final(self).history@ == old(self).history@,
            !has_guid(old(self).submissions@, guid@) ==> r == Err::<(), LeaderboardError>(
                LeaderboardError::NotFound,
            ) && final(self).submissions@ == old(self).submissions@,
            has_guid(old(self).submissions@, guid@) ==> r is Ok && final(self).submissions@
                == old(self).submissions@.map_values(
                |s: Submission| if s.guid@ == guid@ { with_category(s, category) } else { s },
            ),
    {
        match self.position(guid) {
            None => Err(LeaderboardError::NotFound),
            Some(i) => {
                let ghost before = self.submissions@;
                let mut row = self.submissions.remove(i);
                row.category = category;
                self.submissions.insert(i, row);
                proof {
                    let after = before.map_values(
                        |s: Submission| if s.guid@ == guid@ { with_category(s, category) } else { s },
                    );
                    assert forall|j: int| 0 <= j < before.len() implies self.submissions@[j]
                        == after[j] by {
                        if j != i {
                            assert(before[j].guid@ != guid@);
                        }
                    }
                    assert(self.submissions@ =~= after);
                }
                Ok(())
            }
        }
    }

    /// All rows, highest clap count first.
    pub fn list_ordered_by_engagement_desc(&self) -> (r: Vec<Submission>)
        ensures
            by_claps_desc(r@),
            r@.to_multiset() == self.submissions@.to_multiset(),
    {
        sort_by_claps_desc(&self.submissions)
    }

    /// Stores clap count `count`, read at `checked_at`, for the row with id
    /// `guid`. Fails with `NotFound`, changing nothing, when there is no such row.
    pub fn update_engagement(&mut self, guid: &str, count: i32, checked_at: Timestamp) -> (r: Result<
        (),
        LeaderboardError,
    >)
        requires
            old(self).wf(),
        ensures
            final(self).wf(),
            final(self).history@ == old(self).history@,
            !has_guid(old(self).submissions@, guid@) ==> r == Err::<(), LeaderboardError>(
                LeaderboardError::NotFound,
            ) && final(self).submissions@ == old(self).submissions@,
            has_guid(old(self).submissions@, guid@) ==> r is Ok && final(self).submissions@
                == old(self).submissions@.map_values(
                |s: Submission|
                    if s.guid@ == guid@ {
                        refreshed(s, count, checked_at)
                    } else {
                        s
                    },
            ),
    {
        match self.position(guid) {
            None => Err(LeaderboardError::NotFound),
            Some(i) => {
                let ghost before = self.submissions@;
                let mut row = self.submissions.remove(i);
                row.clap_count = count;
                row.clap_count_last_updated_at = checked_at;
                self.submissions.insert(i, row);
                proof {
                    let after = before.map_values(
                        |s: Submission|
                            if s.guid@ == guid@ {
                                refreshed(s, count, checked_at)
                            } else {
                                s
                            },
                    );
                    assert forall|j: int| 0 <= j < before.len() implies self.submissions@[j]
                        == after[j] by {
                        if j != i {
                            assert(before[j].guid@ != guid@);
                        }
                    }
                    assert(self.submissions@ =~= after);
                }
                Ok(())
            },
        }
    }

    /// Appends a history row recording `count` at `at` for the row with id
    /// `guid`. Fails with `NotFound`, changing nothing, when there is no such row.
    pub fn append_history(&mut self, guid: &str, count: i32, at: Timestamp) -> (r: Result<
        (),
        LeaderboardError,
    >)
        requires
            old(self).wf(),
        ensures
            final(self).wf(),
            final(self).submissions@ == old(self).submissions@,
            !has_guid(old(self).submissions@, guid@) ==> r == Err::<(), LeaderboardError>(
                LeaderboardError::NotFound,
            ) && final(self).history@ == old(self).history@,
            has_guid(old(self).submissions@, guid@) ==> r is Ok && final(self).history@.len()
                == old(self).history@.len() + 1 && final(self).history@.drop_last()
                == old(self).history@ && final(self).history@.last().guid@ == guid@
                && final(self).history@.last().clap_count == count
                && final(self).history@.last().timestamp == at,
    {
        match self.position(guid) {
            None => Err(LeaderboardError::NotFound),
            Some(i) => {
                let entry = ClapHistory {
                    guid: self.submissions[i].guid.clone(),
                    clap_count: count,
                    timestamp: at,
                };
                self.history.push(entry);
                assert(self.history@.drop_last() =~= old(self).history@);
                Ok(())
            },
        }
    }
}

} // verus!
