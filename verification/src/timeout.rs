//! The adaptive timeout policy: bounded exponential backoff.
//!
//! One protocol step (sending a data block and collecting its
//! acknowledgment, or waiting for the next data block) waits
//! `min(INITIAL_TIMEOUT_MS * 2^retry, MAX_TIMEOUT_MS)` milliseconds, where
//! `retry` counts the consecutive failures observed for that step and is
//! reset whenever the step makes forward progress.

use vstd::arithmetic::mul::lemma_mul_inequality;
use vstd::arithmetic::power2::{lemma2_to64, lemma_pow2_strictly_increases, lemma_pow2_unfold, pow2};
use vstd::math::min;
use vstd::prelude::*;

use crate::protocol::{INITIAL_TIMEOUT_MS, MAX_TIMEOUT_MS};

verus! {

/// The wait, in milliseconds, before giving up on the attempt numbered
/// `retry` (zero-based) of one protocol step.
pub open spec fn spec_timeout_ms(retry: nat) -> int {
    min(INITIAL_TIMEOUT_MS * pow2(retry), MAX_TIMEOUT_MS as int)
}

/// Computes the wait for the given consecutive-failure count by doubling
/// from the initial wait until the clamp is reached.
pub fn calculate_timeout(retry: usize) -> (r: u64)
    ensures
        r == spec_timeout_ms(retry as nat),
{
    let mut t: u64 = INITIAL_TIMEOUT_MS;
    let mut i: usize = 0;
    proof {
        lemma2_to64();
    }
    while i < retry && t < MAX_TIMEOUT_MS
        invariant
            i <= retry,
            t == INITIAL_TIMEOUT_MS * pow2(i as nat),
            t <= 2 * MAX_TIMEOUT_MS,
        decreases retry - i,
    {
        proof {
            lemma_pow2_unfold(i as nat + 1);
        }
        t = 2 * t;
        i = i + 1;
    }
    proof {
        if i < retry {
            // The doubling stopped at the clamp; every later attempt is
            // clamped as well.
            lemma_pow2_strictly_increases(i as nat, retry as nat);
            lemma_mul_inequality(
                pow2(i as nat) as int,
                pow2(retry as nat) as int,
                INITIAL_TIMEOUT_MS as int,
            );
        }
    }
    if t > MAX_TIMEOUT_MS {
        MAX_TIMEOUT_MS
    } else {
        t
    }
}

/// The first attempt of a step waits exactly the initial timeout.
pub proof fn lemma_timeout_initial()
    ensures
        spec_timeout_ms(0) == INITIAL_TIMEOUT_MS,
{
    lemma2_to64();
}

/// Until the clamp is reached, each further failure doubles the wait; at
/// the clamp the wait stays put.
pub proof fn lemma_timeout_doubles(retry: nat)
    ensures
        spec_timeout_ms(retry + 1) == min(2 * spec_timeout_ms(retry), MAX_TIMEOUT_MS as int),
{
    lemma_pow2_unfold(retry + 1);
}

/// No attempt ever waits longer than the clamp.
pub proof fn lemma_timeout_clamped(retry: nat)
    ensures
        spec_timeout_ms(retry) <= MAX_TIMEOUT_MS,
{
}

/// `calculate_timeout` for a failure count held as a 64-bit counter, as
/// the engines keep theirs.
pub(crate) fn calculate_timeout_u64(retry: u64) -> (r: u64)
    requires
        retry <= usize::MAX,
    ensures
        r == spec_timeout_ms(retry as nat),
{
    calculate_timeout(retry as usize)
}

} // verus!
