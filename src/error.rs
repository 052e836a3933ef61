use vstd::prelude::*;

verus! {

/// Failures that the reconciliation jobs and the store distinguish.
#[derive(Clone, Copy, Debug, PartialEq, Eq, Structural)]
pub enum LeaderboardError {
    /// Transport-level failure reaching the feed or the query endpoint.
    Network,
    /// The feed payload could not be parsed.
    Parse,
    /// The query endpoint answered with something other than exactly one result.
    Protocol,
    /// The query endpoint answered with an error payload.
    Upstream,
    /// A submission with the same id is already stored.
    Conflict,
    /// No submission with the given id is stored.
    NotFound,
    /// An update did not affect exactly one row.
    ConcurrentModification,
    /// The backing database failed for another reason.
    Storage,
}

} // verus!
