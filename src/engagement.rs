//! Engagement refresh: every stored submission's clap count is read again,
//! a history row is appended where it changed, and each row is stamped with
//! the time of the check. A run is skipped while the last check is recent,
//! and a failed read ends the run.
use vstd::prelude::*;
use crate::error::LeaderboardError;
use crate::models::{ClapHistory, Submission, Timestamp};
use crate::store::{SubmissionStore, history_row, refreshed};

verus! {

/// How long after a check another run is skipped: 14 minutes, a little
/// under the refresh period so that an early timer tick still runs.
pub const ENGAGEMENT_DEBOUNCE_MS: i64 = 840_000;

/// Some row's clap count was checked less than the debounce interval before `now`.
pub open spec fn checked_recently(rows: Seq<Submission>, now: Timestamp) -> bool {
    exists|i: int|
        0 <= i < rows.len() && now - #[trigger] rows[i].clap_count_last_updated_at
            < ENGAGEMENT_DEBOUNCE_MS
}

/// The rows after the first `k` of them were read as `counts` at time `now`.
pub open spec fn refreshed_rows(
    rows: Seq<Submission>,
    counts: Seq<Result<i32, LeaderboardError>>,
    k: int,
    now: Timestamp,
) -> Seq<Submission> {
    Seq::new(
        rows.len(),
        |i: int|
            if i < k {
                refreshed(rows[i], counts[i]->Ok_0, now)
            } else {
                rows[i]
            },
    )
}

/// The history row a read of `count` for `s` appends: one where the count changed.
pub open spec fn history_for(s: Submission, count: i32, now: Timestamp) -> Seq<ClapHistory> {
    if count != s.clap_count {
        seq![history_row(s, count, now)]
    } else {
        Seq::empty()
    }
}

/// The history rows appended while the first `k` rows were read as `counts`.
pub open spec fn history_added(
    rows: Seq<Submission>,
    counts: Seq<Result<i32, LeaderboardError>>,
    k: int,
    now: Timestamp,
) -> Seq<ClapHistory>
    decreases k,
{
    if k <= 0 {
        Seq::empty()
    } else {
        history_added(rows, counts, k - 1, now) + history_for(
            rows[k - 1],
            counts[k - 1]->Ok_0,
            now,
        )
    }
}

/// Row `i` and the history after one read of `count` at time `now`.
pub open spec fn refresh_step(
    rows: Seq<Submission>,
    history: Seq<ClapHistory>,
    i: int,
    count: i32,
    now: Timestamp,
) -> (Seq<Submission>, Seq<ClapHistory>) {
    (rows.update(i, refreshed(rows[i], count, now)), history + history_for(rows[i], count, now))
}

/// A history row is appended exactly when the count read differs from the
/// stored one, and afterwards the row holds the count read and is stamped `now`.
pub proof fn lemma_history_append_law(
    rows: Seq<Submission>,
    history: Seq<ClapHistory>,
    i: int,
    count: i32,
    now: Timestamp,
)
    requires
        0 <= i < rows.len(),
    ensures
        ({
            let (r, h) = refresh_step(rows, history, i, count, now);
            &&& (h.len() == history.len() + 1) == (count != rows[i].clap_count)
            &&& h.len() == history.len() + 1 ==> h.last() == history_row(rows[i], count, now)
            &&& h.len() != history.len() + 1 ==> h == history
            &&& r[i].clap_count == count
            &&& r[i].clap_count_last_updated_at == now
            &&& r[i].guid == rows[i].guid
        }),
{
    assert(history + Seq::<ClapHistory>::empty() =~= history);
}

/// Whether a run is due at `now`: no row was checked within the debounce interval.
pub fn engagement_due(latest: Option<Timestamp>, now: Timestamp) -> (r: bool)
    ensures
        r == match latest {
            None => true,
            Some(t) => now - t >= ENGAGEMENT_DEBOUNCE_MS,
        },
{
    match latest {
        None => true,
        Some(t) => (now as i128) - (t as i128) >= ENGAGEMENT_DEBOUNCE_MS as i128,
    }
}

impl SubmissionStore {
    /// Whether an engagement run is due at `now`.
    pub fn engagement_refresh_due(&self, now: Timestamp) -> (r: bool)
        ensures
            r == !checked_recently(self.submissions@, now),
    {
        let latest = self.latest_engagement_check_time();
        let r = engagement_due(latest, now);
        proof {
            if let Some(t) = latest {
                let rows = self.submissions@;
                if !r {
                    let i = choose|i: int|
                        0 <= i < rows.len() && #[trigger] rows[i].clap_count_last_updated_at == t;
                    assert(now - rows[i].clap_count_last_updated_at < ENGAGEMENT_DEBOUNCE_MS);
                } else {
                    assert forall|i: int| 0 <= i < rows.len() implies !(now
                        - #[trigger] rows[i].clap_count_last_updated_at < ENGAGEMENT_DEBOUNCE_MS) by {
                        assert(rows[i].clap_count_last_updated_at <= t);
                    }
                }
            }
        }
        r
    }

    /// Records that row `i` was read as `count` at time `now`: appends a
    /// history row if the count changed, then stores the count and the stamp.
    /// Returns whether the count changed.
    pub fn refresh_row(&mut self, i: usize, count: i32, now: Timestamp) -> (r: bool)
        requires
            old(self).wf(),
            i < old(self).submissions@.len(),
        ensures
            final(self).wf(),
            r == (count != old(self).submissions@[i as int].clap_count),
            (final(self).submissions@, final(self).history@) == refresh_step(
                old(self).submissions@,
                old(self).history@,
                i as int,
                count,
                now,
            ),
    {
        let ghost rows = self.submissions@;
        let ghost hist = self.history@;
        let changed = count != self.submissions[i].clap_count;
        if changed {
            let entry = ClapHistory {
                guid: self.submissions[i].guid.clone(),
                clap_count: count,
                timestamp: now,
            };
            self.history.push(entry);
        }
        let mut row = self.submissions.remove(i);
        row.clap_count = count;
        row.clap_count_last_updated_at = now;
        self.submissions.insert(i, row);
        proof {
            assert(self.submissions@ =~= rows.update(i as int, refreshed(rows[i as int], count, now)));
            assert(self.history@ =~= hist + history_for(rows[i as int], count, now));
            assert forall|a: int, b: int|
                0 <= a < self.submissions@.len() && 0 <= b < self.submissions@.len()
                    && #[trigger] self.submissions@[a].guid@ == #[trigger] self.submissions@[b].guid@ implies a
                == b by {
                assert(self.submissions@[a].guid@ == rows[a].guid@);
                assert(self.submissions@[b].guid@ == rows[b].guid@);
            }
        }
        changed
    }

    /// Runs engagement refresh at `now`, row `i` being read as `counts[i]`.
    /// When a row was checked within the debounce interval nothing is read
    /// or written and the result is `Ok(0)`. Otherwise rows are refreshed in
    /// order; the first failed read ends the run with its error, the rows
    /// before it staying refreshed. On success returns the number of rows read.
    pub fn refresh_engagement(
        &mut self,
        counts: &Vec<Result<i32, LeaderboardError>>,
        now: Timestamp,
    ) -> (r: Result<usize, LeaderboardError>)
        requires
            old(self).wf(),
            counts@.len() == old(self).submissions@.len(),
        ensures
            final(self).wf(),
            checked_recently(old(self).submissions@, now) ==> r == Ok::<usize, LeaderboardError>(0)
                && final(self).submissions@ == old(self).submissions@ && final(self).history@
                == old(self).history@,
            !checked_recently(old(self).submissions@, now) ==> match r {
                Ok(n) => n == counts@.len() && (forall|j: int|
                    0 <= j < counts@.len() ==> #[trigger] counts@[j] is Ok)
                    && final(self).submissions@ == refreshed_rows(
                    old(self).submissions@,
                    counts@,
                    n as int,
                    now,
                ) && final(self).history@ == old(self).history@ + history_added(
                    old(self).submissions@,
                    counts@,
                    n as int,
                    now,
                ),
                Err(e) => exists|k: int|
                    0 <= k < counts@.len() && #[trigger] counts@[k] == Err::<i32, LeaderboardError>(e)
                        && (forall|j: int| 0 <= j < k ==> #[trigger] counts@[j] is Ok)
                        && final(self).submissions@ == refreshed_rows(
                        old(self).submissions@,
                        counts@,
                        k,
                        now,
                    ) && final(self).history@ == old(self).history@ + history_added(
                        old(self).submissions@,
                        counts@,
                        k,
                        now,
                    ),
            },
    {
        if !self.engagement_refresh_due(now) {
            return Ok(0);
        }
        let ghost rows = self.submissions@;
        let ghost hist = self.history@;
        let mut k: usize = 0;
        assert(self.submissions@ =~= refreshed_rows(rows, counts@, 0, now));
        assert(hist + history_added(rows, counts@, 0, now) =~= hist);
        while k < counts.len()
            invariant
                self.wf(),
                rows == old(self).submissions@,
                hist == old(self).history@,
                !checked_recently(rows, now),
                k <= counts@.len() == rows.len(),
                forall|j: int| 0 <= j < k ==> #[trigger] counts@[j] is Ok,
                self.submissions@ == refreshed_rows(rows, counts@, k as int, now),
                self.history@ == hist + history_added(rows, counts@, k as int, now),
            decreases counts@.len() - k,
        {
            match &counts[k] {
                Err(e) => {
                    return Err(*e);
                },
                Ok(c) => {
                    let ghost before = self.submissions@;
                    let ghost hbefore = self.history@;
                    self.refresh_row(k, *c, now);
                    proof {
                        assert(before[k as int] == rows[k as int]);
                        assert(self.submissions@ =~= refreshed_rows(rows, counts@, k + 1, now));
                        assert(history_added(rows, counts@, k + 1, now) == history_added(
                            rows,
                            counts@,
                            k as int,
                            now,
                        ) + history_for(rows[k as int], *c, now));
                        assert(self.history@ =~= hist + history_added(rows, counts@, k + 1, now));
                    }
                },
            }
            k = k + 1;
        }
        Ok(k)
    }
}

} // verus!
