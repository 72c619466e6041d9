//! The stored contests as a map from loops to records, and what a
//! submission leaves of them where its verdict is carried out.

use vstd::prelude::*;
use crate::record::ContestRecord;
use crate::rules::verdict;

verus! {

/// The contests after a submission for `loop_id` at `now`, judged against
/// the record of that loop: an accepted one replaces the record of its
/// loop, a rejected one changes nothing.
pub open spec fn after_submission(
    before: Map<soroban_sdk::String, ContestRecord>,
    claimant: soroban_sdk::Address,
    loop_id: soroban_sdk::String,
    time_seconds: u64,
    now: u64,
) -> Map<soroban_sdk::String, ContestRecord> {
    match verdict(before.get(loop_id), claimant, time_seconds, now) {
        Some(record) => before.insert(loop_id, record),
        None => before,
    }
}

} // verus!
