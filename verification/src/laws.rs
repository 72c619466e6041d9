//! What holds of every submission, stated over the stored contests.
//!
//! Each law speaks of `accepted`, in which `StriderContract::submit_time`
//! states when it returns a record, and of `after_submission`, the contests
//! of a caller who stores what it returns. What is read for a loop is
//! `Map::get` on those contests.

use vstd::prelude::*;
use crate::ledger::after_submission;
use crate::record::{deadline_fits, ContestRecord, CONTEST_WINDOW_SECONDS};
use crate::rules::accepted;

verus! {

/// One submission, with the loop it is for and the ledger time at which it
/// is judged.
pub struct Submission {
    pub claimant: soroban_sdk::Address,
    pub loop_id: soroban_sdk::String,
    pub time_seconds: u64,
    pub now: u64,
}

/// The contests after the submissions of `calls`, made in order.
pub open spec fn after_all(
    before: Map<soroban_sdk::String, ContestRecord>,
    calls: Seq<Submission>,
) -> Map<soroban_sdk::String, ContestRecord>
    decreases calls.len(),
{
    if calls.len() == 0 {
        before
    } else {
        let call = calls.last();
        after_submission(
            after_all(before, calls.drop_last()),
            call.claimant,
            call.loop_id,
            call.time_seconds,
            call.now,
        )
    }
}

/// The call at position `at` of `calls` is rejected when its turn comes.
pub open spec fn rejected_in_turn(
    before: Map<soroban_sdk::String, ContestRecord>,
    calls: Seq<Submission>,
    at: int,
) -> bool {
    !accepted(
        after_all(before, calls.take(at)).get(calls[at].loop_id),
        calls[at].time_seconds,
        calls[at].now,
    )
}

/// A loop without a contest takes any time: the submission is accepted and
/// the loop then holds the claimant, the time, and a deadline one window
/// after the submission.
pub proof fn law_first_submission_opens_contest(
    before: Map<soroban_sdk::String, ContestRecord>,
    claimant: soroban_sdk::Address,
    loop_id: soroban_sdk::String,
    time_seconds: u64,
    now: u64,
)
    requires
        !before.contains_key(loop_id),
        deadline_fits(now),
    ensures
        accepted(before.get(loop_id), time_seconds, now),
        after_submission(before, claimant, loop_id, time_seconds, now).get(loop_id) == Some(
            ContestRecord {
                champion: claimant,
                best_time_seconds: time_seconds,
                end_timestamp: (now + 1_296_000) as u64,
            },
        ),
        now + 1_296_000 <= u64::MAX,
{
}

/// A strictly better time inside the open window is accepted and replaces
/// champion, time and deadline.
pub proof fn law_improvement_in_window_crowns(
    before: Map<soroban_sdk::String, ContestRecord>,
    held: ContestRecord,
    claimant: soroban_sdk::Address,
    loop_id: soroban_sdk::String,
    time_seconds: u64,
    now: u64,
)
    requires
        before.get(loop_id) == Some(held),
        now < held.end_timestamp,
        time_seconds < held.best_time_seconds,
        deadline_fits(now),
    ensures
        accepted(before.get(loop_id), time_seconds, now),
        after_submission(before, claimant, loop_id, time_seconds, now).get(loop_id) == Some(
            ContestRecord {
                champion: claimant,
                best_time_seconds: time_seconds,
                end_timestamp: (now + 1_296_000) as u64,
            },
        ),
        now + 1_296_000 <= u64::MAX,
{
}

/// A time that is not strictly better is rejected at any moment, and the
/// contests stay as they were.
pub proof fn law_no_improvement_rejected(
    before: Map<soroban_sdk::String, ContestRecord>,
    held: ContestRecord,
    claimant: soroban_sdk::Address,
    loop_id: soroban_sdk::String,
    time_seconds: u64,
    now: u64,
)
    requires
        before.get(loop_id) == Some(held),
        time_seconds >= held.best_time_seconds,
    ensures
        !accepted(before.get(loop_id), time_seconds, now),
        after_submission(before, claimant, loop_id, time_seconds, now) == before,
{
}

/// Once the window has closed, every time is rejected, a better one too, and
/// the contests stay as they were.
pub proof fn law_closed_window_rejected(
    before: Map<soroban_sdk::String, ContestRecord>,
    held: ContestRecord,
    claimant: soroban_sdk::Address,
    loop_id: soroban_sdk::String,
    time_seconds: u64,
    now: u64,
)
    requires
        before.get(loop_id) == Some(held),
        now >= held.end_timestamp,
    ensures
        !accepted(before.get(loop_id), time_seconds, now),
        after_submission(before, claimant, loop_id, time_seconds, now) == before,
{
}

/// A rejected submission changes nothing: what is read for any loop after
/// it is what was read before it.
pub proof fn law_rejection_changes_nothing(
    before: Map<soroban_sdk::String, ContestRecord>,
    claimant: soroban_sdk::Address,
    loop_id: soroban_sdk::String,
    time_seconds: u64,
    now: u64,
    read: soroban_sdk::String,
)
    requires
        !accepted(before.get(loop_id), time_seconds, now),
    ensures
        after_submission(before, claimant, loop_id, time_seconds, now) == before,
        after_submission(before, claimant, loop_id, time_seconds, now).get(read) == before.get(
            read,
        ),
{
}

/// Any number of submissions that are each rejected in turn leaves the
/// contests as they were.
pub proof fn law_rejections_never_mutate(
    before: Map<soroban_sdk::String, ContestRecord>,
    calls: Seq<Submission>,
)
    requires
        forall|at: int| 0 <= at < calls.len() ==> rejected_in_turn(before, calls, at),
    ensures
        after_all(before, calls) == before,
    decreases calls.len(),
{
    if calls.len() > 0 {
        let earlier = calls.drop_last();
        assert forall|at: int| 0 <= at < earlier.len() implies rejected_in_turn(
            before,
            earlier,
            at,
        ) by {
            assert(rejected_in_turn(before, calls, at));
            assert(earlier.take(at) =~= calls.take(at));
        }
        law_rejections_never_mutate(before, earlier);
        let last = calls.len() - 1;
        assert(rejected_in_turn(before, calls, last));
        assert(calls.take(last) =~= earlier);
    }
}

/// What is read for a loop is the record of the last accepted submission
/// for it: an accepted submission is read back as it was written, and leaves
/// every other loop as it was.
pub proof fn law_read_gives_last_accepted(
    before: Map<soroban_sdk::String, ContestRecord>,
    claimant: soroban_sdk::Address,
    loop_id: soroban_sdk::String,
    time_seconds: u64,
    now: u64,
    other: soroban_sdk::String,
)
    requires
        accepted(before.get(loop_id), time_seconds, now),
        other != loop_id,
    ensures
        after_submission(before, claimant, loop_id, time_seconds, now).get(loop_id) == Some(
            ContestRecord {
                champion: claimant,
                best_time_seconds: time_seconds,
                end_timestamp: (now + 1_296_000) as u64,
            },
        ),
        after_submission(before, claimant, loop_id, time_seconds, now).get(other) == before.get(
            other,
        ),
{
}

/// A record is never deleted: a loop that has a contest before a submission
/// has one after it, and a loop has one after it only if it had one before
/// or the submission was for it and was accepted.
pub proof fn law_contests_are_kept(
    before: Map<soroban_sdk::String, ContestRecord>,
    claimant: soroban_sdk::Address,
    loop_id: soroban_sdk::String,
    time_seconds: u64,
    now: u64,
    read: soroban_sdk::String,
)
    ensures
        after_submission(before, claimant, loop_id, time_seconds, now).contains_key(read) <==> (
        before.contains_key(read) || (read == loop_id && accepted(
            before.get(loop_id),
            time_seconds,
            now,
        ))),
{
}

/// Within a contest the best time only falls: a submission that replaces a
/// record stores a strictly smaller time, before the old deadline, and moves
/// the deadline to one window after itself.
pub proof fn law_accepted_challenge_improves(
    before: Map<soroban_sdk::String, ContestRecord>,
    held: ContestRecord,
    claimant: soroban_sdk::Address,
    loop_id: soroban_sdk::String,
    time_seconds: u64,
    now: u64,
)
    requires
        before.get(loop_id) == Some(held),
        accepted(before.get(loop_id), time_seconds, now),
    ensures
        time_seconds < held.best_time_seconds,
        now < held.end_timestamp,
        after_submission(before, claimant, loop_id, time_seconds, now)[loop_id].end_timestamp
            == now + CONTEST_WINDOW_SECONDS,
{
}

/// A contest whose window has closed is frozen: at that moment and at every
/// later one, no submission for its loop is accepted.
pub proof fn law_expired_is_final(
    before: Map<soroban_sdk::String, ContestRecord>,
    held: ContestRecord,
    loop_id: soroban_sdk::String,
    expired_at: u64,
    time_seconds: u64,
    now: u64,
)
    requires
        before.get(loop_id) == Some(held),
        !held.is_live(expired_at),
        expired_at <= now,
    ensures
        !accepted(before.get(loop_id), time_seconds, now),
{
}

} // verus!
