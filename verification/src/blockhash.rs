//! Waiting for a checkpoint that is newer than one already seen.
//!
//! The caller owns the clock and the network. It asks `should_poll` before
//! each fetch, hands each fetched checkpoint to `on_fetched`, pauses for
//! `POLL_INTERVAL_MILLIS` after a stale one, and asks for `timeout_error`
//! once `should_poll` says no.
use crate::error::TokenError;
use crate::pubkey::{base58_text, Blockhash, Pubkey};
use vstd::prelude::*;

verus! {

/// Seconds after which the wait gives up.
pub const TIMEOUT_SECS: u64 = 5;

/// Milliseconds between two fetches.
pub const POLL_INTERVAL_MILLIS: u64 = 200;

/// The decimal digit `d`, for `d` below ten.
pub open spec fn digit_char(d: nat) -> char {
    seq!['0', '1', '2', '3', '4', '5', '6', '7', '8', '9'][d as int]
}

/// The decimal numeral of `n`, without sign, separators or leading zeros.
pub open spec fn decimal_text(n: nat) -> Seq<char>
    decreases n,
{
    if n < 10 {
        seq![digit_char(n)]
    } else {
        decimal_text(n / 10).push(digit_char(n % 10))
    }
}

/// The message of the error that ends a wait without a new checkpoint.
pub open spec fn timeout_text(elapsed_millis: nat, num_retries: nat, stale: Seq<char>) -> Seq<
    char,
> {
    "Unable to get new blockhash after "@ + decimal_text(elapsed_millis) + "ms (retried "@
        + decimal_text(num_retries) + " times), stuck at "@ + stale
}

/// The numeral of one decimal digit.
fn digit_str(d: u8) -> (r: &'static str)
    requires
        d < 10,
    ensures
        r@ == seq![digit_char(d as nat)],
{
    proof {
        reveal_strlit("0");
        reveal_strlit("1");
        reveal_strlit("2");
        reveal_strlit("3");
        reveal_strlit("4");
        reveal_strlit("5");
        reveal_strlit("6");
        reveal_strlit("7");
        reveal_strlit("8");
        reveal_strlit("9");
    }
    let r = if d == 0 {
        "0"
    } else if d == 1 {
        "1"
    } else if d == 2 {
        "2"
    } else if d == 3 {
        "3"
    } else if d == 4 {
        "4"
    } else if d == 5 {
        "5"
    } else if d == 6 {
        "6"
    } else if d == 7 {
        "7"
    } else if d == 8 {
        "8"
    } else {
        "9"
    };
    assert(r@ =~= seq![digit_char(d as nat)]);
    r
}

/// The decimal numeral of `n`.
pub fn decimal_string(n: u128) -> (r: String)
    ensures
        r@ == decimal_text(n as nat),
    decreases n,
{
    if n < 10 {
        String::from_str(digit_str(n as u8))
    } else {
        let mut text = decimal_string(n / 10);
        text.append(digit_str((n % 10) as u8));
        assert(text@ =~= decimal_text((n / 10) as nat).push(digit_char((n % 10) as nat)));
        text
    }
}

/// The message of the error that ends a wait without a new checkpoint.
pub fn timeout_message(elapsed_millis: u128, num_retries: u64, stale: &str) -> (r: String)
    ensures
        r@ == timeout_text(elapsed_millis as nat, num_retries as nat, stale@),
{
    let mut message = String::from_str("Unable to get new blockhash after ");
    message.append(decimal_string(elapsed_millis).as_str());
    message.append("ms (retried ");
    message.append(decimal_string(num_retries as u128).as_str());
    message.append(" times), stuck at ");
    message.append(stale);
    message
}

/// A wait for a checkpoint other than `previous`.
#[derive(Clone, Copy, Debug)]
pub struct BlockhashWait {
    /// The checkpoint that is already known.
    pub previous: Blockhash,
    /// How many fetches returned `previous` again.
    pub num_retries: u64,
}

impl BlockhashWait {
    /// Starts a wait for a checkpoint other than `previous`.
    pub fn new(previous: Blockhash) -> (r: BlockhashWait)
        ensures
            r == (BlockhashWait { previous, num_retries: 0 }),
    {
        BlockhashWait { previous, num_retries: 0 }
    }

    /// Whether another fetch is due when `elapsed_secs` whole seconds have
    /// passed since the wait began.
    pub open spec fn spec_should_poll(elapsed_secs: u64) -> bool {
        elapsed_secs < TIMEOUT_SECS
    }

    /// Tells whether another fetch is due: until five seconds have passed.
    pub fn should_poll(&self, elapsed_secs: u64) -> (r: bool)
        ensures
            r == Self::spec_should_poll(elapsed_secs),
    {
        elapsed_secs < TIMEOUT_SECS
    }

    /// The wait after a fetch returned `fetched`, and the new checkpoint if
    /// that is one.
    pub open spec fn spec_on_fetched(self, fetched: Blockhash) -> (BlockhashWait, Option<
        Blockhash,
    >) {
        if fetched != self.previous {
            (self, Some(fetched))
        } else {
            (
                BlockhashWait {
                    num_retries: if self.num_retries < u64::MAX {
                        (self.num_retries + 1) as u64
                    } else {
                        self.num_retries
                    },
                    ..self
                },
                None,
            )
        }
    }

    /// Takes a fetched checkpoint. A checkpoint other than the known one
    /// ends the wait and is handed back. The known one counts as one more
    /// retry (the count stops at the largest number), and the caller pauses
    /// before it asks again.
    pub fn on_fetched(&mut self, fetched: Blockhash) -> (r: Option<Blockhash>)
        ensures
            (*final(self), r) == old(self).spec_on_fetched(fetched),
    {
        if fetched != self.previous {
            return Some(fetched);
        }
        if self.num_retries < u64::MAX {
            self.num_retries = self.num_retries + 1;
        }
        None
    }

    /// The error that ends the wait when no new checkpoint came in time. Its
    /// message gives the milliseconds waited, the number of retries and the
    /// stale checkpoint in base 58.
    pub fn timeout_error(&self, elapsed_millis: u128) -> (r: TokenError)
        ensures
            r matches TokenError::Client(message) && message@ == timeout_text(
                elapsed_millis as nat,
                self.num_retries as nat,
                base58_text(self.previous@),
            ),
    {
        let stale = Pubkey { bytes: self.previous.bytes }.to_text();
        TokenError::Client(timeout_message(elapsed_millis, self.num_retries, stale.as_str()))
    }
}

/// How a wait ended.
pub enum WaitOutcome {
    /// A new checkpoint came, after so many retries.
    New { blockhash: Blockhash, num_retries: u64 },
    /// No new checkpoint came in time; so many retries were made.
    TimedOut { num_retries: u64 },
    /// The fetches that were given ran out before either happened.
    Unfinished { num_retries: u64 },
}

/// Milliseconds that have passed, on a clock that only the pauses move,
/// when `num_retries` pauses were made.
pub open spec fn simulated_millis(num_retries: u64) -> int {
    num_retries * POLL_INTERVAL_MILLIS
}

/// How a wait goes on from `wait` when the coming fetches return `fetched`,
/// one after the other from index `next`, on a clock that only the pauses
/// move.
pub open spec fn simulate(wait: BlockhashWait, fetched: Seq<Blockhash>, next: int) -> WaitOutcome
    decreases fetched.len() - next,
{
    if !BlockhashWait::spec_should_poll((simulated_millis(wait.num_retries) / 1000) as u64) {
        WaitOutcome::TimedOut { num_retries: wait.num_retries }
    } else if next < 0 || next >= fetched.len() {
        WaitOutcome::Unfinished { num_retries: wait.num_retries }
    } else {
        let (after, new) = wait.spec_on_fetched(fetched[next]);
        match new {
            Some(blockhash) => WaitOutcome::New { blockhash, num_retries: wait.num_retries },
            None => simulate(after, fetched, next + 1),
        }
    }
}

/// Runs a wait for a checkpoint other than `previous` against the fetches
/// `fetched`, on a clock that only the pauses move.
pub fn run_simulated(previous: Blockhash, fetched: &Vec<Blockhash>) -> (r: WaitOutcome)
    ensures
        r == simulate(BlockhashWait { previous, num_retries: 0 }, fetched@, 0),
{
    let mut wait = BlockhashWait::new(previous);
    let mut next: usize = 0;
    loop
        invariant
            next <= fetched.len(),
            wait.num_retries <= 25,
            simulate(BlockhashWait { previous, num_retries: 0 }, fetched@, 0) == simulate(
                wait,
                fetched@,
                next as int,
            ),
        decreases fetched.len() - next,
    {
        let elapsed_secs = wait.num_retries * POLL_INTERVAL_MILLIS / 1000;
        if !wait.should_poll(elapsed_secs) {
            return WaitOutcome::TimedOut { num_retries: wait.num_retries };
        }
        if next >= fetched.len() {
            return WaitOutcome::Unfinished { num_retries: wait.num_retries };
        }
        let before = wait.num_retries;
        if let Some(blockhash) = wait.on_fetched(fetched[next]) {
            return WaitOutcome::New { blockhash, num_retries: before };
        }
        next += 1;
    }
}

/// A wait ends with a checkpoint other than the known one, within five
/// seconds of the simulated clock, when one of the first 25 fetches returns
/// another checkpoint: it ends with the first of them.
pub proof fn lemma_new_checkpoint_is_returned(
    previous: Blockhash,
    fetched: Seq<Blockhash>,
    first_new: int,
)
    requires
        0 <= first_new < fetched.len(),
        first_new < 25,
        fetched[first_new] != previous,
        forall|i: int| 0 <= i < first_new ==> fetched[i] == previous,
    ensures
        simulate(BlockhashWait { previous, num_retries: 0 }, fetched, 0) == (WaitOutcome::New {
            blockhash: fetched[first_new],
            num_retries: first_new as u64,
        }),
        fetched[first_new] != previous,
        simulated_millis(first_new as u64) < TIMEOUT_SECS * 1000,
{
    lemma_simulate_from(previous, fetched, first_new, 0);
}

/// The step of `lemma_new_checkpoint_is_returned`: the same, from any
/// number of stale fetches already made.
proof fn lemma_simulate_from(previous: Blockhash, fetched: Seq<Blockhash>, first_new: int, done: int)
    requires
        0 <= done <= first_new < fetched.len(),
        first_new < 25,
        fetched[first_new] != previous,
        forall|i: int| 0 <= i < first_new ==> fetched[i] == previous,
    ensures
        simulate(BlockhashWait { previous, num_retries: done as u64 }, fetched, done) == (
        WaitOutcome::New { blockhash: fetched[first_new], num_retries: first_new as u64 }),
    decreases first_new - done,
{
    let wait = BlockhashWait { previous, num_retries: done as u64 };
    assert(simulated_millis(wait.num_retries) / 1000 < 5);
    if done < first_new {
        lemma_simulate_from(previous, fetched, first_new, done + 1);
    }
}

/// A wait fails with a timeout, after 25 retries, when every fetch returns
/// the known checkpoint again.
pub proof fn lemma_stale_checkpoint_times_out(previous: Blockhash, fetched: Seq<Blockhash>)
    requires
        fetched.len() >= 25,
        forall|i: int| 0 <= i < fetched.len() ==> fetched[i] == previous,
    ensures
        simulate(BlockhashWait { previous, num_retries: 0 }, fetched, 0) == (WaitOutcome::TimedOut {
            num_retries: 25,
        }),
{
    lemma_stale_from(previous, fetched, 0);
}

/// The step of `lemma_stale_checkpoint_times_out`.
proof fn lemma_stale_from(previous: Blockhash, fetched: Seq<Blockhash>, done: int)
    requires
        0 <= done <= 25,
        fetched.len() >= 25,
        forall|i: int| 0 <= i < fetched.len() ==> fetched[i] == previous,
    ensures
        simulate(BlockhashWait { previous, num_retries: done as u64 }, fetched, done) == (
        WaitOutcome::TimedOut { num_retries: 25 }),
    decreases 25 - done,
{
    let wait = BlockhashWait { previous, num_retries: done as u64 };
    if done < 25 {
        assert(simulated_millis(wait.num_retries) / 1000 < 5);
        lemma_stale_from(previous, fetched, done + 1);
    } else {
        assert(simulated_millis(wait.num_retries) / 1000 == 5);
    }
}

} // verus!
