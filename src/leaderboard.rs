//! What the presentation layer reads besides the listing by clap count: its
//! split by category, and when the counts were last and will next be refreshed.
use vstd::prelude::*;
use crate::models::{Category, Submission, Timestamp};
use crate::schedule::ENGAGEMENT_PERIOD_MS;

verus! {

/// The rows of `rows` in category `c`, in order.
pub open spec fn in_category(rows: Seq<Submission>, c: Category) -> Seq<Submission> {
    rows.filter(|s: Submission| s.category == c)
}

/// The rows of `rows` in `category`, in order.
fn rows_in_category(rows: &Vec<Submission>, category: Category) -> (r: Vec<Submission>)
    ensures
        r@ == in_category(rows@, category),
{
    let ghost pred = |s: Submission| s.category == category;
    let mut out: Vec<Submission> = Vec::new();
    let mut k: usize = 0;
    while k < rows.len()
        invariant
            k <= rows@.len(),
            pred == (|s: Submission| s.category == category),
            out@ == rows@.subrange(0, k as int).filter(pred),
        decreases rows@.len() - k,
    {
        proof {
            assert(rows@.subrange(0, k + 1) =~= rows@.subrange(0, k as int).push(rows@[k as int]));
            rows@.subrange(0, k as int).lemma_filter_push(rows@[k as int], pred);
        }
        if rows[k].category == category {
            out.push(rows[k].clone());
        }
        k = k + 1;
    }
    assert(rows@.subrange(0, k as int) =~= rows@);
    out
}

/// Submissions split by category, each part in the order given.
#[derive(Debug)]
pub struct SubmissionsByCategory {
    pub unsorted: Vec<Submission>,
    pub poetry: Vec<Submission>,
    pub fiction: Vec<Submission>,
    pub essay: Vec<Submission>,
}

impl SubmissionsByCategory {
    /// Splits `rows` by category, keeping their order within each part.
    pub fn from_submissions(rows: &Vec<Submission>) -> (r: SubmissionsByCategory)
        ensures
            r.unsorted@ == in_category(rows@, Category::Unsorted),
            r.poetry@ == in_category(rows@, Category::Poetry),
            r.fiction@ == in_category(rows@, Category::Fiction),
            r.essay@ == in_category(rows@, Category::PersonalEssay),
    {
        SubmissionsByCategory {
            unsorted: rows_in_category(rows, Category::Unsorted),
            poetry: rows_in_category(rows, Category::Poetry),
            fiction: rows_in_category(rows, Category::Fiction),
            essay: rows_in_category(rows, Category::PersonalEssay),
        }
    }
}

/// When the clap counts were last checked and when they will next be: the
/// latest check, or `now` when nothing was checked yet, and a refresh
/// interval later.
pub fn latest_and_next_update_time(latest: Option<Timestamp>, now: Timestamp) -> (r: (
    Timestamp,
    Timestamp,
))
    requires
        match latest {
            Some(t) => t <= i64::MAX - ENGAGEMENT_PERIOD_MS,
            None => now <= i64::MAX - ENGAGEMENT_PERIOD_MS,
        },
    ensures
        r.0 == match latest {
            Some(t) => t,
            None => now,
        },
        r.1 == r.0 + ENGAGEMENT_PERIOD_MS,
{
    let base = match latest {
        Some(t) => t,
        None => now,
    };
    (base, base + ENGAGEMENT_PERIOD_MS)
}

} // verus!
