//! When to reconnect after the connection to Telegram was lost.
use vstd::prelude::*;
use vstd::arithmetic::power2::{lemma2_to64, lemma_pow2_strictly_increases, lemma_pow2_unfold, pow2};

verus! {

/// What to do after a number of failed reconnection attempts.
#[derive(Debug, Clone, Copy, PartialEq, Eq)]
pub enum RetryDecision {
    /// Try again after this many milliseconds.
    Continue { delay_ms: u64 },
    /// Give up.
    Break,
}

/// The delay before the next attempt, in milliseconds: two to the power of
/// the attempts made so far.
pub open spec fn retry_delay(attempts: nat) -> nat {
    pow2(attempts)
}

/// Always tries again, waiting twice as long after every failed attempt:
/// 1 ms, 2 ms, 4 ms and so on.
#[derive(Debug, Clone, Copy)]
pub struct BotReconnectionPolicy;

impl BotReconnectionPolicy {
    /// The decision after `attempts` failed attempts. The delay is computed
    /// in 64 bits, so it is defined for fewer than 64 attempts.
    pub fn should_retry(&self, attempts: usize) -> (r: RetryDecision)
        requires
            attempts < 64,
        ensures
            r matches RetryDecision::Continue { delay_ms } && delay_ms == retry_delay(attempts as nat),
    {
        let mut delay: u64 = 1;
        let mut i: usize = 0;
        proof {
            lemma2_to64();
        }
        while i < attempts
            invariant
                i <= attempts < 64,
                delay == pow2(i as nat),
                pow2(64) == 0x10000000000000000,
            decreases attempts - i,
        {
            proof {
                lemma_pow2_unfold((i + 1) as nat);
                lemma_pow2_strictly_increases((i + 1) as nat, 64);
            }
            delay = delay * 2;
            i = i + 1;
        }
        RetryDecision::Continue { delay_ms: delay }
    }
}

/// Each failed attempt doubles the delay before the next one.
pub proof fn lemma_delay_doubles(attempts: nat)
    ensures
        retry_delay(attempts + 1) == 2 * retry_delay(attempts),
{
    lemma_pow2_unfold(attempts + 1);
}

/// The first retry comes after one millisecond, and every delay is
/// positive.
pub proof fn lemma_first_delay(attempts: nat)
    ensures
        retry_delay(0) == 1,
        retry_delay(attempts) >= 1,
{
    lemma2_to64();
    vstd::arithmetic::power2::lemma_pow2_pos(attempts);
}

} // verus!
