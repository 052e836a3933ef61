//! The three jobs' timers. One loop waits for the earliest deadline, runs
//! that job to completion, and moves the job's deadline on by its period;
//! jobs never overlap.
use vstd::prelude::*;
use crate::error::LeaderboardError;
use crate::models::Timestamp;
use crate::store::SubmissionStore;

verus! {

/// Discovery runs hourly.
pub const DISCOVERY_PERIOD_MS: i64 = 3_600_000;

/// Detail refresh runs daily.
pub const DETAILS_PERIOD_MS: i64 = 86_400_000;

/// Engagement refresh runs every 15 minutes.
pub const ENGAGEMENT_PERIOD_MS: i64 = 900_000;

/// The scheduled jobs.
#[derive(Clone, Copy, Debug, PartialEq, Eq, Structural)]
pub enum Job {
    Discovery,
    DetailRefresh,
    EngagementRefresh,
}

pub open spec fn period_of(job: Job) -> i64 {
    match job {
        Job::Discovery => DISCOVERY_PERIOD_MS,
        Job::DetailRefresh => DETAILS_PERIOD_MS,
        Job::EngagementRefresh => ENGAGEMENT_PERIOD_MS,
    }
}

impl Job {
    /// How far apart this job's runs are.
    pub fn period(&self) -> (r: i64)
        ensures
            r == period_of(*self),
    {
        match self {
            Job::Discovery => DISCOVERY_PERIOD_MS,
            Job::DetailRefresh => DETAILS_PERIOD_MS,
            Job::EngagementRefresh => ENGAGEMENT_PERIOD_MS,
        }
    }
}

/// The next deadline of each job.
#[derive(Clone, Copy, Debug, PartialEq, Eq, Structural)]
pub struct Schedule {
    pub discovery_at: Timestamp,
    pub details_at: Timestamp,
    pub engagement_at: Timestamp,
}

impl Schedule {
    pub open spec fn deadline(&self, job: Job) -> Timestamp {
        match job {
            Job::Discovery => self.discovery_at,
            Job::DetailRefresh => self.details_at,
            Job::EngagementRefresh => self.engagement_at,
        }
    }

    /// Every job is due at `start`: each timer's first tick comes at once.
    pub fn starting_at(start: Timestamp) -> (r: Schedule)
        ensures
            r.discovery_at == start,
            r.details_at == start,
            r.engagement_at == start,
    {
        Schedule { discovery_at: start, details_at: start, engagement_at: start }
    }

    /// The job whose deadline comes first, with that deadline; of jobs due
    /// at the same time discovery goes first, then detail refresh.
    pub fn next_job(&self) -> (r: (Job, Timestamp))
        ensures
            r.1 == self.deadline(r.0),
            r.1 <= self.discovery_at,
            r.1 <= self.details_at,
            r.1 <= self.engagement_at,
            r.0 == Job::DetailRefresh ==> self.details_at < self.discovery_at,
            r.0 == Job::EngagementRefresh ==> self.engagement_at < self.discovery_at
                && self.engagement_at < self.details_at,
    {
        if self.discovery_at <= self.details_at && self.discovery_at <= self.engagement_at {
            (Job::Discovery, self.discovery_at)
        } else if self.details_at <= self.engagement_at {
            (Job::DetailRefresh, self.details_at)
        } else {
            (Job::EngagementRefresh, self.engagement_at)
        }
    }

    /// Moves `job`'s deadline on by its period once it has run; the other
    /// deadlines stay.
    pub fn advance(&mut self, job: Job)
        requires
            old(self).deadline(job) <= i64::MAX - period_of(job),
        ensures
            final(self).deadline(job) == old(self).deadline(job) + period_of(job),
            forall|other: Job| other != job ==> final(self).deadline(other) == old(self).deadline(
                other,
            ),
    {
        let p = job.period();
        match job {
            Job::Discovery => self.discovery_at = self.discovery_at + p,
            Job::DetailRefresh => self.details_at = self.details_at + p,
            Job::EngagementRefresh => self.engagement_at = self.engagement_at + p,
        }
    }
}

impl SubmissionStore {
    /// Detail refresh: a reserved hook that changes nothing and always succeeds.
    pub fn refresh_details(&self) -> (r: Result<(), LeaderboardError>)
        ensures
            r is Ok,
    {
        Ok(())
    }
}

} // verus!
