//! The rule that decides a submission.
//!
//! A submission is judged against what is stored for its loop and the time
//! of the ledger: a loop without a contest takes any submission; a loop with
//! one takes only a strictly better time while its window is open. A contest
//! whose window has closed takes nothing more.

use vstd::prelude::*;
use crate::record::{crowned, deadline_fits, ContestRecord, CONTEST_WINDOW_SECONDS};

verus! {

/// A submission of `time_seconds` at `now` is one that the rule takes, given
/// what is stored for its loop.
pub open spec fn qualifies(existing: Option<ContestRecord>, time_seconds: u64, now: u64) -> bool {
    match existing {
        None => true,
        Some(record) => record.beaten_by(time_seconds) && record.is_live(now),
    }
}

/// A submission is accepted: the rule takes it and the new deadline can be
/// held.
pub open spec fn accepted(existing: Option<ContestRecord>, time_seconds: u64, now: u64) -> bool {
    qualifies(existing, time_seconds, now) && deadline_fits(now)
}

/// What a submission leaves to be written for its loop: the new record where
/// it is accepted, nothing where it is not.
pub open spec fn verdict(
    existing: Option<ContestRecord>,
    claimant: soroban_sdk::Address,
    time_seconds: u64,
    now: u64,
) -> Option<ContestRecord> {
    if accepted(existing, time_seconds, now) {
        Some(crowned(claimant, time_seconds, now))
    } else {
        None
    }
}

/// The contest ledger.
pub struct StriderContract;

impl StriderContract {
    /// Judges a submission of `time_seconds` for a loop in the name of
    /// `user`, whom the caller has authenticated, at the ledger time `now`,
    /// against the record `existing` that is stored for the loop, if any.
    ///
    /// Returns the record to store for the loop where the submission is
    /// accepted: it opens a contest where the loop has none, and crowns
    /// `user` where the time is strictly better and the window is open.
    /// Returns `None` where it is rejected and nothing is to be written. A
    /// submission whose deadline would lie beyond `u64::MAX` is rejected.
    pub fn submit_time(
        existing: Option<ContestRecord>,
        user: soroban_sdk::Address,
        time_seconds: u64,
        now: u64,
    ) -> (outcome: Option<ContestRecord>)
        ensures
            outcome == verdict(existing, user, time_seconds, now),
            outcome.is_some() == accepted(existing, time_seconds, now),
    {
        let takes = match existing {
            None => true,
            Some(record) => time_seconds < record.best_time_seconds && now < record.end_timestamp,
        };
        if takes && now <= u64::MAX - CONTEST_WINDOW_SECONDS {
            Some(
                ContestRecord {
                    champion: user,
                    best_time_seconds: time_seconds,
                    end_timestamp: now + CONTEST_WINDOW_SECONDS,
                },
            )
        } else {
            None
        }
    }
}

} // verus!
