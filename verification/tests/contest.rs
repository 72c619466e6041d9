use std::collections::HashMap;

use soroban_sdk::testutils::{Address as _, EnvTestConfig};
use soroban_sdk::{Address, Env};
use strider::record::ContestRecord;
use strider::rules::StriderContract;

/// The stored contests, by loop, as a caller of the rule keeps them.
struct Board {
    env: Env,
    contests: HashMap<std::string::String, ContestRecord>,
}

fn board() -> Board {
    Board {
        env: Env::new_with_config(EnvTestConfig { capture_snapshot_at_drop: false }),
        contests: HashMap::new(),
    }
}

fn claimant(board: &Board) -> Address {
    Address::generate(&board.env)
}

fn submit(board: &mut Board, at: u64, user: &Address, loop_id: &str, time: u64) -> bool {
    let existing = board.contests.get(loop_id).cloned();
    match StriderContract::submit_time(existing, user.clone(), time, at) {
        Some(record) => {
            board.contests.insert(loop_id.to_string(), record);
            true
        }
        None => false,
    }
}

fn record(board: &Board, loop_id: &str) -> Option<ContestRecord> {
    board.contests.get(loop_id).cloned()
}

fn held(champion: &Address, best_time_seconds: u64, end_timestamp: u64) -> Option<ContestRecord> {
    Some(ContestRecord { champion: champion.clone(), best_time_seconds, end_timestamp })
}

#[test]
fn five_k_park_scenario() {
    let mut board = board();
    let a = claimant(&board);
    let b = claimant(&board);
    let c = claimant(&board);
    let d = claimant(&board);

    assert_eq!(record(&board, "5k-park"), None);

    assert!(submit(&mut board, 1000, &a, "5k-park", 300));
    assert_eq!(record(&board, "5k-park"), held(&a, 300, 1_297_000));

    assert!(submit(&mut board, 2000, &b, "5k-park", 250));
    assert_eq!(record(&board, "5k-park"), held(&b, 250, 1_298_000));

    assert!(!submit(&mut board, 3000, &c, "5k-park", 400));
    assert_eq!(record(&board, "5k-park"), held(&b, 250, 1_298_000));

    assert!(!submit(&mut board, 1_298_100, &d, "5k-park", 100));
    assert_eq!(record(&board, "5k-park"), held(&b, 250, 1_298_000));
}

#[test]
fn first_submission_opens_a_contest() {
    let mut board = board();
    let a = claimant(&board);
    assert!(submit(&mut board, 50, &a, "hill", 0));
    assert_eq!(record(&board, "hill"), held(&a, 0, 1_296_050));
}

#[test]
fn first_submission_takes_the_largest_time() {
    let mut board = board();
    let a = claimant(&board);
    assert!(submit(&mut board, 0, &a, "hill", u64::MAX));
    assert_eq!(record(&board, "hill"), held(&a, u64::MAX, 1_296_000));
}

#[test]
fn better_time_inside_window_takes_the_crown() {
    let mut board = board();
    let a = claimant(&board);
    let b = claimant(&board);
    assert!(submit(&mut board, 10, &a, "track", 500));
    assert!(submit(&mut board, 1_296_009, &b, "track", 499));
    assert_eq!(record(&board, "track"), held(&b, 499, 2_592_009));
}

#[test]
fn equal_time_is_rejected() {
    let mut board = board();
    let a = claimant(&board);
    let b = claimant(&board);
    assert!(submit(&mut board, 10, &a, "track", 500));
    assert!(!submit(&mut board, 20, &b, "track", 500));
    assert_eq!(record(&board, "track"), held(&a, 500, 1_296_010));
}

#[test]
fn worse_time_is_rejected_at_any_moment() {
    let mut board = board();
    let a = claimant(&board);
    let b = claimant(&board);
    assert!(submit(&mut board, 10, &a, "track", 500));
    assert!(!submit(&mut board, 11, &b, "track", 501));
    assert!(!submit(&mut board, 9_000_000, &b, "track", 501));
    assert_eq!(record(&board, "track"), held(&a, 500, 1_296_010));
}

#[test]
fn submission_at_the_deadline_is_rejected() {
    let mut board = board();
    let a = claimant(&board);
    let b = claimant(&board);
    assert!(submit(&mut board, 10, &a, "track", 500));
    assert!(!submit(&mut board, 1_296_010, &b, "track", 1));
    assert_eq!(record(&board, "track"), held(&a, 500, 1_296_010));
}

#[test]
fn expired_contest_stays_frozen() {
    let mut board = board();
    let a = claimant(&board);
    let b = claimant(&board);
    assert!(submit(&mut board, 10, &a, "track", 500));
    assert!(!submit(&mut board, 1_296_011, &b, "track", 100));
    assert!(!submit(&mut board, 5_000_000, &b, "track", 50));
    assert!(!submit(&mut board, 5_000_001, &a, "track", 0));
    assert_eq!(record(&board, "track"), held(&a, 500, 1_296_010));
}

#[test]
fn repeated_rejections_leave_the_record() {
    let mut board = board();
    let a = claimant(&board);
    let b = claimant(&board);
    assert!(submit(&mut board, 100, &a, "lap", 60));
    let before = record(&board, "lap");
    for attempt in 0..5u64 {
        assert!(!submit(&mut board, 200 + attempt, &b, "lap", 60 + attempt));
        assert_eq!(record(&board, "lap"), before);
    }
    assert_eq!(before, held(&a, 60, 1_296_100));
}

#[test]
fn loops_do_not_touch_each_other() {
    let mut board = board();
    let a = claimant(&board);
    let b = claimant(&board);
    assert!(submit(&mut board, 100, &a, "north", 60));
    assert_eq!(record(&board, "south"), None);
    assert!(submit(&mut board, 200, &b, "south", 90));
    assert_eq!(record(&board, "north"), held(&a, 60, 1_296_100));
    assert_eq!(record(&board, "south"), held(&b, 90, 1_296_200));
    assert!(!submit(&mut board, 300, &b, "north", 90));
    assert_eq!(record(&board, "north"), held(&a, 60, 1_296_100));
    assert_eq!(record(&board, "south"), held(&b, 90, 1_296_200));
}

#[test]
fn champion_may_improve_the_own_time() {
    let mut board = board();
    let a = claimant(&board);
    assert!(submit(&mut board, 100, &a, "lap", 60));
    assert!(submit(&mut board, 150, &a, "lap", 45));
    assert_eq!(record(&board, "lap"), held(&a, 45, 1_296_150));
}

#[test]
fn last_deadline_that_fits_is_accepted() {
    let mut board = board();
    let a = claimant(&board);
    assert!(submit(&mut board, u64::MAX - 1_296_000, &a, "late", 10));
    assert_eq!(record(&board, "late"), held(&a, 10, u64::MAX));
}

#[test]
fn deadline_beyond_the_range_is_rejected() {
    let mut board = board();
    let a = claimant(&board);
    assert!(!submit(&mut board, u64::MAX - 1_295_999, &a, "late", 10));
    assert_eq!(record(&board, "late"), None);
    assert!(!submit(&mut board, u64::MAX, &a, "late", 10));
    assert_eq!(record(&board, "late"), None);
}
