//! The record kept for a contest, and the length of a contest window.

use vstd::prelude::*;

verus! {

/// Length of a contest window in seconds: fifteen days.
pub const CONTEST_WINDOW_SECONDS: u64 = 1_296_000;

/// What is stored for one loop: who holds the best time, that time, and the
/// moment at which the reign can no longer be challenged.
#[derive(Debug, PartialEq, Eq)]
pub struct ContestRecord {
    pub champion: soroban_sdk::Address,
    pub best_time_seconds: u64,
    pub end_timestamp: u64,
}

/// The deadline of a window opened at `now`, as a mathematical integer.
pub open spec fn window_end(now: u64) -> int {
    now + CONTEST_WINDOW_SECONDS
}

/// A window opened at `now` has a deadline that a record can hold.
pub open spec fn deadline_fits(now: u64) -> bool {
    window_end(now) <= u64::MAX
}

/// The record written when `claimant` is crowned at `now` with `time_seconds`.
pub open spec fn crowned(claimant: soroban_sdk::Address, time_seconds: u64, now: u64) -> ContestRecord
    recommends
        deadline_fits(now),
{
    ContestRecord {
        champion: claimant,
        best_time_seconds: time_seconds,
        end_timestamp: window_end(now) as u64,
    }
}

impl Clone for ContestRecord {
    fn clone(&self) -> (copy: Self)
        ensures
            copy == *self,
    {
        ContestRecord {
            champion: self.champion.clone(),
            best_time_seconds: self.best_time_seconds,
            end_timestamp: self.end_timestamp,
        }
    }
}

impl ContestRecord {
    /// The window of this record is still open at `now`.
    pub open spec fn is_live(self, now: u64) -> bool {
        now < self.end_timestamp
    }

    /// `time_seconds` is strictly better than the champion's time.
    pub open spec fn beaten_by(self, time_seconds: u64) -> bool {
        time_seconds < self.best_time_seconds
    }
}

} // verus!
