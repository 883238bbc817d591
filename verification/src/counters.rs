//! The plain counters of the game: points, attempts, claim time, record and
//! task progress. Each is read or written by one statement; what is left to
//! decide is how the answer of the store is reported, and what follows a
//! task that was completed.

use vstd::prelude::*;

verus! {

/// What the store answered to one statement about one row.
#[derive(Clone, Copy, Debug, PartialEq, Eq, Structural)]
pub enum Fetch {
    /// The row was there.
    Found,
    /// No such row.
    Missing,
    /// The statement failed.
    Failed,
}

/// The status code under which an answer of the store is reported.
pub open spec fn fetch_status(fetch: Fetch) -> int {
    match fetch {
        Fetch::Found => 200,
        Fetch::Missing => 404,
        Fetch::Failed => 500,
    }
}

/// The status code under which an answer of the store is reported.
pub fn status_of(fetch: Fetch) -> (code: u16)
    ensures
        code == fetch_status(fetch),
{
    match fetch {
        Fetch::Found => 200,
        Fetch::Missing => 404,
        Fetch::Failed => 500,
    }
}

/// What the store returned for an update of a task's progress.
#[derive(Clone, Copy, Debug, PartialEq, Eq, Structural)]
pub struct ProgressRow {
    pub is_completed: bool,
    pub progress: i32,
    pub reward_coins: i64,
}

/// How an update of a task's progress is reported.
#[derive(Clone, Copy, Debug, PartialEq, Eq, Structural)]
pub enum ProgressReport {
    /// The task is not completed yet.
    Updated { progress: i32 },
    /// The task is completed. `new_points` is the balance after the reward
    /// was added, or none if adding it failed.
    Completed { progress: i32, reward: i64, new_points: Option<i64> },
}

/// What follows an update of a task's progress.
#[derive(Clone, Copy, Debug, PartialEq, Eq, Structural)]
pub enum ProgressStep {
    /// Nothing more: report.
    Report { report: ProgressReport },
    /// The task is completed: add the reward to the user's points, then
    /// report with [`ProgressRow::rewarded`].
    AddReward { coins: i64 },
}

impl ProgressRow {
    /// What follows the update: a completed task earns its reward, any other
    /// is reported as it is.
    pub open spec fn next(self) -> ProgressStep {
        if self.is_completed {
            ProgressStep::AddReward { coins: self.reward_coins }
        } else {
            ProgressStep::Report { report: ProgressReport::Updated { progress: self.progress } }
        }
    }

    /// What follows the update.
    pub fn step(self) -> (s: ProgressStep)
        ensures
            s == self.next(),
    {
        if self.is_completed {
            ProgressStep::AddReward { coins: self.reward_coins }
        } else {
            ProgressStep::Report { report: ProgressReport::Updated { progress: self.progress } }
        }
    }

    /// The report of a completed task once the reward was added, or could
    /// not be.
    pub fn rewarded(self, new_points: Option<i64>) -> (r: ProgressReport)
        ensures
            r == (ProgressReport::Completed {
                progress: self.progress,
                reward: self.reward_coins,
                new_points,
            }),
    {
        ProgressReport::Completed { progress: self.progress, reward: self.reward_coins, new_points }
    }
}

} // verus!
