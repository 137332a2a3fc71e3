use token_client::blockhash::{run_simulated, BlockhashWait, WaitOutcome};
use token_client::error::TokenError;
use token_client::pubkey::Blockhash;

fn hash(byte: u8) -> Blockhash {
    Blockhash::new_from_array([byte; 32])
}

fn outcome(previous: Blockhash, fetched: Vec<Blockhash>) -> (Option<Blockhash>, u64, bool) {
    match run_simulated(previous, &fetched) {
        WaitOutcome::New { blockhash, num_retries } => (Some(blockhash), num_retries, false),
        WaitOutcome::TimedOut { num_retries } => (None, num_retries, true),
        WaitOutcome::Unfinished { num_retries } => (None, num_retries, false),
    }
}

#[test]
fn a_new_checkpoint_is_returned_at_once() {
    assert_eq!(outcome(hash(1), vec![hash(2)]), (Some(hash(2)), 0, false));
}

#[test]
fn a_new_checkpoint_is_returned_after_stale_ones() {
    let mut fetched = vec![hash(1); 7];
    fetched.push(hash(3));
    fetched.push(hash(4));
    assert_eq!(outcome(hash(1), fetched), (Some(hash(3)), 7, false));
}

#[test]
fn a_stale_checkpoint_times_out_after_five_seconds_of_pauses() {
    assert_eq!(outcome(hash(1), vec![hash(1); 40]), (None, 25, true));
    assert_eq!(outcome(hash(1), vec![hash(1); 25]), (None, 25, true));
}

#[test]
fn a_new_checkpoint_in_the_last_poll_is_still_in_time() {
    let mut fetched = vec![hash(1); 24];
    fetched.push(hash(2));
    assert_eq!(outcome(hash(1), fetched), (Some(hash(2)), 24, false));
}

#[test]
fn a_script_that_runs_out_leaves_the_wait_unfinished() {
    assert_eq!(outcome(hash(1), vec![hash(1); 3]), (None, 3, false));
}

#[test]
fn polling_stops_at_five_seconds() {
    let wait = BlockhashWait::new(hash(1));
    assert!(wait.should_poll(0));
    assert!(wait.should_poll(4));
    assert!(!wait.should_poll(5));
    assert!(!wait.should_poll(6));
}

#[test]
fn a_stale_fetch_counts_as_a_retry() {
    let mut wait = BlockhashWait::new(hash(1));
    assert_eq!(wait.on_fetched(hash(1)), None);
    assert_eq!(wait.num_retries, 1);
    assert_eq!(wait.on_fetched(hash(2)), Some(hash(2)));
    assert_eq!(wait.num_retries, 1);
}

#[test]
fn the_timeout_error_reports_time_retries_and_checkpoint() {
    let mut wait = BlockhashWait::new(hash(0));
    wait.on_fetched(hash(0));
    wait.on_fetched(hash(0));
    match wait.timeout_error(5003) {
        TokenError::Client(message) => assert_eq!(
            message,
            "Unable to get new blockhash after 5003ms (retried 2 times), stuck at 11111111111111111111111111111111"
        ),
        other => panic!("unexpected error {:?}", other),
    }
}
