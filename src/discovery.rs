//! Discovery: submissions listed by the feed but not yet stored are fetched
//! and inserted. Items without an id are skipped, stored ids are not fetched
//! again, and a failed fetch or insert affects only its own item.
use vstd::prelude::*;
use crate::error::LeaderboardError;
use crate::feed::opt_views;
use crate::models::{InsertSubmission, Submission, Timestamp, new_row};
use crate::store::{SubmissionStore, has_guid};

verus! {

/// What discovery does with one feed item.
#[derive(Clone, Copy, Debug, PartialEq, Eq, Structural)]
pub enum DiscoveryAction {
    /// The item has no id: skip it.
    MissingId,
    /// A submission with the item's id is stored: skip it.
    Known,
    /// Fetch the item's details and insert them.
    FetchDetails,
}

/// The action for a feed item with id `item`, given the stored rows.
pub open spec fn action_of(rows: Seq<Submission>, item: Option<Seq<char>>) -> DiscoveryAction {
    match item {
        None => DiscoveryAction::MissingId,
        Some(id) => if has_guid(rows, id) {
            DiscoveryAction::Known
        } else {
            DiscoveryAction::FetchDetails
        },
    }
}

/// The rows after the fetched details `detail` were offered for insertion.
pub open spec fn admitted(
    rows: Seq<Submission>,
    detail: Result<InsertSubmission, LeaderboardError>,
    now: Timestamp,
) -> Seq<Submission> {
    match detail {
        Ok(d) => if has_guid(rows, d.guid@) {
            rows
        } else {
            rows.push(new_row(d, now))
        },
        Err(_) => rows,
    }
}

/// The rows after discovery handled one feed item whose details fetch
/// gives `detail`.
pub open spec fn discovery_step(
    rows: Seq<Submission>,
    item: Option<Seq<char>>,
    detail: Result<InsertSubmission, LeaderboardError>,
    now: Timestamp,
) -> Seq<Submission> {
    if action_of(rows, item) == DiscoveryAction::FetchDetails {
        admitted(rows, detail, now)
    } else {
        rows
    }
}

/// The rows after discovery handled the feed items `items` in order, the
/// details fetch for `items[i]` giving `details[i]`.
pub open spec fn discovered(
    rows: Seq<Submission>,
    items: Seq<Option<Seq<char>>>,
    details: Seq<Result<InsertSubmission, LeaderboardError>>,
    now: Timestamp,
) -> Seq<Submission>
    decreases items.len(),
{
    if items.len() == 0 {
        rows
    } else {
        discovery_step(
            discovered(rows, items.drop_last(), details.drop_last(), now),
            items.last(),
            details.last(),
            now,
        )
    }
}

impl SubmissionStore {
    /// What discovery does with the feed item whose id is `item`.
    pub fn discovery_action(&self, item: &Option<String>) -> (r: DiscoveryAction)
        ensures
            r == action_of(
                self.submissions@,
                match item {
                    Some(s) => Some(s@),
                    None => None,
                },
            ),
    {
        match item {
            None => DiscoveryAction::MissingId,
            Some(id) => if self.position(id.as_str()).is_some() {
                DiscoveryAction::Known
            } else {
                DiscoveryAction::FetchDetails
            },
        }
    }

    /// Inserts fetched details stamped `now`. A failed fetch is handed back
    /// and a taken id gives `Conflict`; neither changes the store.
    pub fn store_details(
        &mut self,
        detail: Result<InsertSubmission, LeaderboardError>,
        now: Timestamp,
    ) -> (r: Result<(), LeaderboardError>)
        requires
            old(self).wf(),
        ensures
            final(self).wf(),
            final(self).history@ == old(self).history@,
            final(self).submissions@ == admitted(old(self).submissions@, detail, now),
            match detail {
                Ok(d) => if has_guid(old(self).submissions@, d.guid@) {
                    r == Err::<(), LeaderboardError>(LeaderboardError::Conflict)
                } else {
                    r is Ok
                },
                Err(e) => r == Err::<(), LeaderboardError>(e),
            },
    {
        match detail {
            Ok(d) => self.insert(d, now),
            Err(e) => Err(e),
        }
    }

    /// Runs discovery over the feed item ids `items`, the details fetch for
    /// `items[i]` giving `details[i]` (consulted only where the action is
    /// `FetchDetails`). Per-item failures are isolated; returns how many
    /// submissions were inserted.
    pub fn discover(
        &mut self,
        items: &Vec<Option<String>>,
        details: &Vec<Result<InsertSubmission, LeaderboardError>>,
        now: Timestamp,
    ) -> (r: usize)
        requires
            old(self).wf(),
            items@.len() == details@.len(),
        ensures
            final(self).wf(),
            final(self).history@ == old(self).history@,
            final(self).submissions@ == discovered(
                old(self).submissions@,
                opt_views(items@),
                details@,
                now,
            ),
            r == final(self).submissions@.len() - old(self).submissions@.len(),
    {
        let ghost start = self.submissions@;
        let mut inserted: usize = 0;
        let mut k: usize = 0;
        while k < items.len()
            invariant
                self.wf(),
                self.history@ == old(self).history@,
                k <= items@.len() == details@.len(),
                start == old(self).submissions@,
                self.submissions@ == discovered(
                    start,
                    opt_views(items@).subrange(0, k as int),
                    details@.subrange(0, k as int),
                    now,
                ),
                start.len() <= self.submissions@.len(),
                inserted == self.submissions@.len() - start.len(),
                self.submissions@.len() <= start.len() + k,
            decreases items@.len() - k,
        {
            let ghost before = self.submissions@;
            let action = self.discovery_action(&items[k]);
            if action == DiscoveryAction::FetchDetails {
                let detail = match &details[k] {
                    Ok(d) => Ok(d.clone()),
                    Err(e) => Err(*e),
                };
                assert(detail == details@[k as int]);
                let len_before = self.submissions.len();
                let _ = self.store_details(detail, now);
                if self.submissions.len() > len_before {
                    inserted = inserted + 1;
                }
            }
            proof {
                let iv = opt_views(items@);
                assert(iv.subrange(0, k + 1).drop_last() =~= iv.subrange(0, k as int));
                assert(details@.subrange(0, k + 1).drop_last() =~= details@.subrange(0, k as int));
                assert(iv[k as int] == match items@[k as int] {
                    Some(s) => Some(s@),
                    None => None::<Seq<char>>,
                });
            }
            k = k + 1;
        }
        proof {
            assert(opt_views(items@).subrange(0, k as int) =~= opt_views(items@));
            assert(details@.subrange(0, k as int) =~= details@);
        }
        inserted
    }
}

/// After discovery, the item `item` with details `detail` needs nothing
/// more: it has no id, its id is stored, its fetch failed, or the id its
/// details carry is stored.
pub open spec fn settled(
    rows: Seq<Submission>,
    item: Option<Seq<char>>,
    detail: Result<InsertSubmission, LeaderboardError>,
) -> bool {
    match item {
        None => true,
        Some(id) => has_guid(rows, id) || match detail {
            Ok(d) => has_guid(rows, d.guid@),
            Err(_) => true,
        },
    }
}

proof fn lemma_step_keeps(
    rows: Seq<Submission>,
    item: Option<Seq<char>>,
    detail: Result<InsertSubmission, LeaderboardError>,
    now: Timestamp,
)
    ensures
        rows.is_prefix_of(discovery_step(rows, item, detail, now)),
{
}

/// Discovery only appends rows: what was stored stays, in place.
pub proof fn lemma_discovery_appends(
    rows: Seq<Submission>,
    items: Seq<Option<Seq<char>>>,
    details: Seq<Result<InsertSubmission, LeaderboardError>>,
    now: Timestamp,
)
    ensures
        rows.is_prefix_of(discovered(rows, items, details, now)),
    decreases items.len(),
{
    if items.len() > 0 {
        let mid = discovered(rows, items.drop_last(), details.drop_last(), now);
        lemma_discovery_appends(rows, items.drop_last(), details.drop_last(), now);
        lemma_step_keeps(mid, items.last(), details.last(), now);
    }
}

proof fn lemma_prefix_has_guid(a: Seq<Submission>, b: Seq<Submission>, g: Seq<char>)
    requires
        a.is_prefix_of(b),
        has_guid(a, g),
    ensures
        has_guid(b, g),
{
    let i = choose|i: int| 0 <= i < a.len() && #[trigger] a[i].guid@ == g;
    assert(b[i].guid@ == g);
}

proof fn lemma_settled_grows(
    a: Seq<Submission>,
    b: Seq<Submission>,
    item: Option<Seq<char>>,
    detail: Result<InsertSubmission, LeaderboardError>,
)
    requires
        a.is_prefix_of(b),
        settled(a, item, detail),
    ensures
        settled(b, item, detail),
{
    if let Some(id) = item {
        if has_guid(a, id) {
            lemma_prefix_has_guid(a, b, id);
        } else if let Ok(d) = detail {
            lemma_prefix_has_guid(a, b, d.guid@);
        }
    }
}

/// Every feed item is settled once discovery has run over the feed.
pub proof fn lemma_discovery_settles(
    rows: Seq<Submission>,
    items: Seq<Option<Seq<char>>>,
    details: Seq<Result<InsertSubmission, LeaderboardError>>,
    now: Timestamp,
)
    requires
        items.len() == details.len(),
    ensures
        forall|i: int|
            0 <= i < items.len() ==> settled(
                discovered(rows, items, details, now),
                #[trigger] items[i],
                details[i],
            ),
    decreases items.len(),
{
    if items.len() > 0 {
        let n = items.len() - 1;
        let mid = discovered(rows, items.drop_last(), details.drop_last(), now);
        let fin = discovered(rows, items, details, now);
        lemma_discovery_settles(rows, items.drop_last(), details.drop_last(), now);
        lemma_step_keeps(mid, items.last(), details.last(), now);
        assert forall|i: int| 0 <= i < items.len() implies settled(
            fin,
            #[trigger] items[i],
            details[i],
        ) by {
            if i < n {
                assert(items.drop_last()[i] == items[i]);
                assert(details.drop_last()[i] == details[i]);
                lemma_settled_grows(mid, fin, items[i], details[i]);
            } else {
                if let Some(id) = items[i] {
                    if !has_guid(mid, id) {
                        if let Ok(d) = details[i] {
                            if !has_guid(mid, d.guid@) {
                                assert(fin[mid.len() as int].guid@ == d.guid@);
                            } else {
                                lemma_prefix_has_guid(mid, fin, d.guid@);
                            }
                        }
                    } else {
                        lemma_prefix_has_guid(mid, fin, id);
                    }
                }
            }
        }
    }
}

proof fn lemma_settled_fixed(
    rows: Seq<Submission>,
    items: Seq<Option<Seq<char>>>,
    details: Seq<Result<InsertSubmission, LeaderboardError>>,
    now: Timestamp,
)
    requires
        items.len() == details.len(),
        forall|i: int| 0 <= i < items.len() ==> settled(rows, #[trigger] items[i], details[i]),
    ensures
        discovered(rows, items, details, now) == rows,
    decreases items.len(),
{
    if items.len() > 0 {
        assert forall|i: int| 0 <= i < items.len() - 1 implies settled(
            rows,
            #[trigger] items.drop_last()[i],
            details.drop_last()[i],
        ) by {
            assert(items.drop_last()[i] == items[i]);
        }
        lemma_settled_fixed(rows, items.drop_last(), details.drop_last(), now);
        assert(settled(rows, items[items.len() - 1], details[items.len() - 1]));
    }
}

/// Discovery is idempotent: running it a second time over an unchanged feed,
/// whose details fetches give the same results, changes nothing.
pub proof fn lemma_discovery_idempotent(
    rows: Seq<Submission>,
    items: Seq<Option<Seq<char>>>,
    details: Seq<Result<InsertSubmission, LeaderboardError>>,
    first: Timestamp,
    second: Timestamp,
)
    requires
        items.len() == details.len(),
    ensures
        discovered(discovered(rows, items, details, first), items, details, second)
            == discovered(rows, items, details, first),
{
    lemma_discovery_settles(rows, items, details, first);
    lemma_settled_fixed(discovered(rows, items, details, first), items, details, second);
}

/// Discovery over two feeds in turn is discovery over the joined feed.
pub proof fn lemma_discovery_concat(
    rows: Seq<Submission>,
    a: Seq<Option<Seq<char>>>,
    da: Seq<Result<InsertSubmission, LeaderboardError>>,
    b: Seq<Option<Seq<char>>>,
    db: Seq<Result<InsertSubmission, LeaderboardError>>,
    now: Timestamp,
)
    requires
        a.len() == da.len(),
        b.len() == db.len(),
    ensures
        discovered(rows, a + b, da + db, now) == discovered(
            discovered(rows, a, da, now),
            b,
            db,
            now,
        ),
    decreases b.len(),
{
    if b.len() == 0 {
        assert(a + b =~= a);
        assert(da + db =~= da);
    } else {
        assert((a + b).drop_last() =~= a + b.drop_last());
        assert((da + db).drop_last() =~= da + db.drop_last());
        lemma_discovery_concat(rows, a, da, b.drop_last(), db.drop_last(), now);
    }
}

/// A feed item without an id is skipped and the others are processed as if
/// it were absent, whatever its details fetch would give.
pub proof fn lemma_missing_id_skipped(
    rows: Seq<Submission>,
    a: Seq<Option<Seq<char>>>,
    da: Seq<Result<InsertSubmission, LeaderboardError>>,
    detail: Result<InsertSubmission, LeaderboardError>,
    b: Seq<Option<Seq<char>>>,
    db: Seq<Result<InsertSubmission, LeaderboardError>>,
    now: Timestamp,
)
    requires
        a.len() == da.len(),
        b.len() == db.len(),
    ensures
        discovered(rows, a.push(None) + b, da.push(detail) + db, now) == discovered(
            rows,
            a + b,
            da + db,
            now,
        ),
{
    lemma_discovery_concat(rows, a.push(None), da.push(detail), b, db, now);
    lemma_discovery_concat(rows, a, da, b, db, now);
    assert(a.push(None).drop_last() =~= a);
    assert(da.push(detail).drop_last() =~= da);
}

/// `row` is the new row built from the successful details fetch of some
/// feed item that has an id.
pub open spec fn built_from_fetch(
    row: Submission,
    items: Seq<Option<Seq<char>>>,
    details: Seq<Result<InsertSubmission, LeaderboardError>>,
    now: Timestamp,
) -> bool {
    exists|i: int|
        0 <= i < items.len() && #[trigger] details[i] is Ok && items[i] is Some && row == new_row(
            details[i]->Ok_0,
            now,
        )
}

/// Per-item isolation: the rows that discovery adds are exactly new rows
/// built from successful details fetches, and every item whose fetch
/// succeeded ends with its id or the id its details carry stored, however
/// the other items' fetches went.
pub proof fn lemma_discovery_isolates(
    rows: Seq<Submission>,
    items: Seq<Option<Seq<char>>>,
    details: Seq<Result<InsertSubmission, LeaderboardError>>,
    now: Timestamp,
)
    requires
        items.len() == details.len(),
    ensures
        rows.is_prefix_of(discovered(rows, items, details, now)),
        forall|k: int|
            rows.len() <= k < discovered(rows, items, details, now).len() ==> #[trigger] built_from_fetch(
                discovered(rows, items, details, now)[k],
                items,
                details,
                now,
            ),
        forall|i: int|
            0 <= i < items.len() && #[trigger] details[i] is Ok && items[i] is Some ==> (has_guid(
                discovered(rows, items, details, now),
                items[i]->Some_0,
            ) || has_guid(discovered(rows, items, details, now), details[i]->Ok_0.guid@)),
    decreases items.len(),
{
    lemma_discovery_appends(rows, items, details, now);
    lemma_discovery_settles(rows, items, details, now);
    if items.len() > 0 {
        let n = items.len() - 1;
        let mid = discovered(rows, items.drop_last(), details.drop_last(), now);
        let fin = discovered(rows, items, details, now);
        lemma_discovery_isolates(rows, items.drop_last(), details.drop_last(), now);
        assert forall|k: int| rows.len() <= k < fin.len() implies #[trigger] built_from_fetch(
            fin[k],
            items,
            details,
            now,
        ) by {
            if k < mid.len() {
                assert(built_from_fetch(mid[k], items.drop_last(), details.drop_last(), now));
                let i = choose|i: int|
                    0 <= i < items.drop_last().len() && #[trigger] details.drop_last()[i] is Ok
                        && items.drop_last()[i] is Some && mid[k] == new_row(
                        details.drop_last()[i]->Ok_0,
                        now,
                    );
                lemma_step_keeps(mid, items.last(), details.last(), now);
                assert(fin[k] == mid[k]);
                assert(details.drop_last()[i] == details[i]);
                assert(items.drop_last()[i] == items[i]);
                assert(details[i] is Ok);
            } else {
                assert(details[n] is Ok);
                assert(fin[k] == new_row(details[n]->Ok_0, now));
            }
        }
    }
}

} // verus!
