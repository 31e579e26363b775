//! Restart and retry policies of a task.

use std::time::Duration;
use vstd::prelude::*;

use crate::duration::nanos;

verus! {

/// When an actor starts another attempt.
#[derive(Clone, Copy, Debug, PartialEq, Eq, Structural)]
pub enum RestartPolicy {
    /// One attempt only.
    Never,
    /// Another attempt after a retryable failure.
    OnFailure,
    /// Another attempt whenever one ends.
    Always,
}

impl Default for RestartPolicy {
    /// Restart after failure.
    fn default() -> (policy: RestartPolicy)
        ensures
            policy == RestartPolicy::OnFailure,
    {
        RestartPolicy::OnFailure
    }
}

/// Randomness added to a retry delay.
#[derive(Clone, Copy, Debug, PartialEq, Eq, Structural)]
pub enum JitterPolicy {
    /// The computed delay as it is.
    Off,
    /// Anything up to the computed delay.
    Full,
    /// Half the computed delay plus anything up to the other half.
    Equal,
}

/// How retry delays grow.
///
/// The growth factor is held as the bits of an IEEE 754 double.
#[derive(Clone, Copy, Debug)]
pub struct BackoffPolicy {
    first: Duration,
    max: Duration,
    factor_bits: u64,
    jitter: JitterPolicy,
}

/// Bits of the factor one.
pub const FACTOR_ONE: u64 = 0x3ff0_0000_0000_0000;

/// Bits of the factor two.
pub const FACTOR_TWO: u64 = 0x4000_0000_0000_0000;

impl BackoffPolicy {
    /// First delay.
    pub closed spec fn spec_first(self) -> Duration {
        self.first
    }

    /// Cap on every delay.
    pub closed spec fn spec_max(self) -> Duration {
        self.max
    }

    /// Bits of the growth factor.
    pub closed spec fn spec_factor_bits(self) -> u64 {
        self.factor_bits
    }

    /// Jitter.
    pub closed spec fn spec_jitter(self) -> JitterPolicy {
        self.jitter
    }

    /// The same delay before every retry.
    pub fn constant(delay: Duration) -> (policy: BackoffPolicy)
        ensures
            policy.spec_first() == delay,
            policy.spec_max() == delay,
            policy.spec_factor_bits() == FACTOR_ONE,
            policy.spec_jitter() == JitterPolicy::Off,
    {
        BackoffPolicy { first: delay, max: delay, factor_bits: FACTOR_ONE, jitter: JitterPolicy::Off }
    }

    /// First delay.
    #[must_use]
    pub fn first(&self) -> (first: Duration)
        ensures
            first == self.spec_first(),
    {
        self.first
    }

    /// Cap on every delay.
    #[must_use]
    pub fn max(&self) -> (max: Duration)
        ensures
            max == self.spec_max(),
    {
        self.max
    }

    /// Bits of the growth factor.
    #[must_use]
    pub fn factor_bits(&self) -> (bits: u64)
        ensures
            bits == self.spec_factor_bits(),
    {
        self.factor_bits
    }

    /// Jitter.
    #[must_use]
    pub fn jitter(&self) -> (jitter: JitterPolicy)
        ensures
            jitter == self.spec_jitter(),
    {
        self.jitter
    }
}

impl Default for BackoffPolicy {
    /// Exponential backoff from 200 ms to 30 seconds with equal jitter.
    fn default() -> (policy: BackoffPolicy)
        ensures
            nanos(policy.spec_first()) == 200_000_000,
            nanos(policy.spec_max()) == 30_000_000_000,
            policy.spec_factor_bits() == FACTOR_TWO,
            policy.spec_jitter() == JitterPolicy::Equal,
    {
        BackoffPolicy {
            first: Duration::from_millis(200),
            max: Duration::from_secs(30),
            factor_bits: FACTOR_TWO,
            jitter: JitterPolicy::Equal,
        }
    }
}

} // verus!
