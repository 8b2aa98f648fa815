//! Pacing of registration rounds.
//!
//! Relays learn of a camera lazily, often only when someone tries to connect,
//! and a battery camera may be asleep. So a registration that fails is tried
//! again, after a wait that grows from round to round.

use crate::error::Error;
use vstd::arithmetic::power2::pow2;
use vstd::prelude::*;

verus! {

/// The time that one round may take, in seconds. A live relay answers in well
/// under a second; waiting for a dead one is better left to the backoff.
pub const ROUND_TIMEOUT_SECS: u64 = 8;

/// The longest wait between two rounds, in seconds.
pub const MAX_BACKOFF_SECS: u64 = 30;

/// How a registration round ended.
#[derive(Debug)]
pub enum Round {
    /// A relay registered this client.
    Registered,
    /// Every relay failed.
    Refused(Error),
    /// The round took longer than [`ROUND_TIMEOUT_SECS`].
    TimedOut,
}

/// The error that a round ended with, if it failed.
pub open spec fn round_error(round: Round) -> Option<Error> {
    match round {
        Round::Registered => None,
        Round::Refused(e) => Some(e),
        Round::TimedOut => Some(Error::DiscoveryTimeout),
    }
}

/// Whether a round that fails after `retry` repetitions was the last one. With
/// no limit on the repetitions, none is.
pub open spec fn gives_up(retry: int, max_retries: int) -> bool {
    max_retries > 0 && retry >= max_retries
}

/// The wait that follows a failed round, in seconds: it doubles from 1 up to
/// 16 and then stays at the longest one.
pub open spec fn backoff_secs(retry: int) -> int {
    if retry < 5 {
        pow2(retry as nat) as int
    } else {
        MAX_BACKOFF_SECS as int
    }
}

/// The number of repetitions after one more. It stays at the largest number
/// that can be counted.
pub open spec fn one_more(retry: usize) -> usize {
    if retry == usize::MAX {
        retry
    } else {
        (retry + 1) as usize
    }
}

/// The wait between two rounds, in seconds, after `retry` repetitions.
pub fn backoff_after(retry: usize) -> (secs: u64)
    ensures
        secs == backoff_secs(retry as int),
{
    let doublings: u32 = if retry < 5 {
        retry as u32
    } else {
        5
    };
    proof {
        vstd::arithmetic::power2::lemma2_to64();
        vstd::bits::lemma_u64_shl_is_mul(1, doublings as u64);
        assert(1u64 << doublings == 1u64 << (doublings as u64)) by (bit_vector);
    }
    let secs: u64 = 1u64 << doublings;
    if secs < MAX_BACKOFF_SECS {
        secs
    } else {
        MAX_BACKOFF_SECS
    }
}

/// Whether a failed round ends the registration.
pub fn was_last_round(retry: usize, max_retries: usize) -> (last: bool)
    ensures
        last == gives_up(retry as int, max_retries as int),
{
    retry >= max_retries && max_retries > 0
}

/// Waits never shrink from one round to the next, and stay between one second
/// and the longest wait.
pub proof fn law_backoff_grows(earlier: int, later: int)
    requires
        0 <= earlier <= later,
    ensures
        1 <= backoff_secs(earlier) <= backoff_secs(later) <= MAX_BACKOFF_SECS,
{
    vstd::arithmetic::power2::lemma2_to64();
}

/// The first waits are 1, 2, 4, 8 and 16 seconds: each is twice the one before.
pub proof fn law_backoff_doubles(retry: int)
    requires
        0 <= retry < 4,
    ensures
        backoff_secs(0) == 1,
        backoff_secs(retry + 1) == 2 * backoff_secs(retry),
{
    vstd::arithmetic::power2::lemma2_to64();
}

/// The wait depends on the number of repetitions alone: 1, 2, 4, 8 and 16
/// seconds at first, and 30 seconds ever after.
pub proof fn law_waits_are_as_scheduled(retry: int)
    requires
        0 <= retry,
    ensures
        retry == 0 ==> backoff_secs(retry) == 1,
        retry == 1 ==> backoff_secs(retry) == 2,
        retry == 2 ==> backoff_secs(retry) == 4,
        retry == 3 ==> backoff_secs(retry) == 8,
        retry == 4 ==> backoff_secs(retry) == 16,
        retry >= 5 ==> backoff_secs(retry) == 30,
{
    vstd::arithmetic::power2::lemma2_to64();
}

/// A limit of `n` repetitions is reached when there were `n` of them, not
/// before, and a limit of 0 never is.
pub proof fn law_limit_counts_repetitions(retry: int, max_retries: int)
    requires
        0 <= retry,
        0 <= max_retries,
    ensures
        max_retries == 0 ==> !gives_up(retry, max_retries),
        max_retries > 0 && retry < max_retries ==> !gives_up(retry, max_retries),
        max_retries > 0 && retry >= max_retries ==> gives_up(retry, max_retries),
{
}

/// A round fails with the relays' own error, or with a timeout where it took
/// too long, and a registration is no failure.
pub proof fn law_round_fails_for_its_own_reason(error: Error)
    ensures
        round_error(Round::Registered) is None,
        round_error(Round::Refused(error)) == Some(error),
        round_error(Round::TimedOut) == Some(Error::DiscoveryTimeout),
{
}

/// Repetitions are counted one by one, as far as they can be counted.
pub proof fn law_repetitions_are_counted(retry: usize)
    ensures
        retry < usize::MAX ==> one_more(retry) == retry + 1,
        retry == usize::MAX ==> one_more(retry) == retry,
{
}

} // verus!
