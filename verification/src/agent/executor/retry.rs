//! When to try again, and how long to wait before it.
//!
//! Delays are in milliseconds. The multiplier of the exponential policy is
//! in thousandths, so that 2000 doubles the delay with every attempt.

use vstd::prelude::*;
use crate::text::{chars_of, contains, has, lowercase, to_lowercase};

verus! {

/// How long to wait between attempts.
#[derive(Debug, Clone, Copy, PartialEq, Eq)]
pub enum RetryStrategy {
    /// Try again at once.
    Immediate,
    /// Wait the same time before every attempt.
    FixedDelay { delay_ms: u64 },
    /// Wait longer with every attempt, up to a limit.
    ExponentialBackoff { initial_delay_ms: u64, max_delay_ms: u64, multiplier_permille: u32 },
    /// There is no delay to speak of: nothing is to be retried.
    Never,
}

/// The delay after one more attempt: the delay multiplied by the
/// multiplier, rounded down, and the largest 64-bit value where that does
/// not fit.
pub open spec fn grown(delay: u64, multiplier_permille: u32) -> u64 {
    if delay * multiplier_permille / 1000 > u64::MAX {
        u64::MAX
    } else {
        (delay * multiplier_permille / 1000) as u64
    }
}

/// The delay of the exponential policy after `attempt` failed attempts,
/// before the limit is applied.
pub open spec fn backoff(initial: u64, multiplier_permille: u32, attempt: nat) -> u64
    decreases attempt,
{
    if attempt == 0 {
        initial
    } else {
        grown(backoff(initial, multiplier_permille, (attempt - 1) as nat), multiplier_permille)
    }
}

/// The smaller of two delays.
pub open spec fn at_most(delay: u64, limit: u64) -> u64 {
    if delay <= limit {
        delay
    } else {
        limit
    }
}

/// The delay before the attempt that follows the failed attempt with the
/// index `attempt`, counted from 0.
pub open spec fn delay_after(strategy: RetryStrategy, attempt: u32) -> Option<u64> {
    match strategy {
        RetryStrategy::Immediate => Some(0),
        RetryStrategy::FixedDelay { delay_ms } => Some(delay_ms),
        RetryStrategy::ExponentialBackoff { initial_delay_ms, max_delay_ms, multiplier_permille } => Some(
            at_most(backoff(initial_delay_ms, multiplier_permille, attempt as nat), max_delay_ms),
        ),
        RetryStrategy::Never => None,
    }
}

/// Once the delay of the exponential policy stays the same from one
/// attempt to the next, it stays the same for ever.
pub proof fn lemma_backoff_settles(initial: u64, multiplier_permille: u32, k: nat, j: nat)
    requires
        k <= j,
        backoff(initial, multiplier_permille, k + 1) == backoff(initial, multiplier_permille, k),
    ensures
        backoff(initial, multiplier_permille, j) == backoff(initial, multiplier_permille, k),
    decreases j - k,
{
    if j > k {
        lemma_backoff_settles(initial, multiplier_permille, k, (j - 1) as nat);
    }
}

fn grow(delay: u64, multiplier_permille: u32) -> (r: u64)
    ensures
        r == grown(delay, multiplier_permille),
{
    assert(delay * multiplier_permille <= 0xffff_ffff_ffff_ffff * 0xffff_ffff) by (nonlinear_arith)
        requires
            delay <= 0xffff_ffff_ffff_ffff,
            multiplier_permille <= 0xffff_ffff,
    ;
    let product: u128 = delay as u128 * multiplier_permille as u128;
    let q: u128 = product / 1000;
    if q > 0xffff_ffff_ffff_ffff {
        0xffff_ffff_ffff_ffff
    } else {
        q as u64
    }
}

impl Default for RetryStrategy {
    /// One second at first, doubled with every attempt, ten seconds at
    /// most.
    fn default() -> (r: Self)
        ensures
            r == (RetryStrategy::ExponentialBackoff {
                initial_delay_ms: 1000,
                max_delay_ms: 10000,
                multiplier_permille: 2000,
            }),
    {
        Self::ExponentialBackoff {
            initial_delay_ms: 1000,
            max_delay_ms: 10000,
            multiplier_permille: 2000,
        }
    }
}

impl RetryStrategy {
    /// The delay before the attempt that follows the failed attempt with
    /// the index `attempt`, counted from 0; none where the policy is not
    /// to wait.
    pub fn next_delay(&self, attempt: u32) -> (r: Option<u64>)
        ensures
            r == delay_after(*self, attempt),
    {
        match *self {
            RetryStrategy::Immediate => Some(0),
            RetryStrategy::FixedDelay { delay_ms } => Some(delay_ms),
            RetryStrategy::ExponentialBackoff {
                initial_delay_ms,
                max_delay_ms,
                multiplier_permille,
            } => {
                let mut delay: u64 = initial_delay_ms;
                let mut k: u32 = 0;
                while k < attempt
                    invariant
                        k <= attempt,
                        delay == backoff(initial_delay_ms, multiplier_permille, k as nat),
                    decreases attempt - k,
                {
                    let next = grow(delay, multiplier_permille);
                    if next == delay {
                        proof {
                            lemma_backoff_settles(
                                initial_delay_ms,
                                multiplier_permille,
                                k as nat,
                                attempt as nat,
                            );
                        }
                        k = attempt;
                    } else {
                        delay = next;
                        k += 1;
                    }
                }
                if delay <= max_delay_ms {
                    Some(delay)
                } else {
                    Some(max_delay_ms)
                }
            },
            RetryStrategy::Never => None,
        }
    }

    /// The exponential policy.
    pub fn exponential(initial_delay_ms: u64, max_delay_ms: u64, multiplier_permille: u32) -> (r:
        Self)
        ensures
            r == (RetryStrategy::ExponentialBackoff {
                initial_delay_ms,
                max_delay_ms,
                multiplier_permille,
            }),
    {
        Self::ExponentialBackoff { initial_delay_ms, max_delay_ms, multiplier_permille }
    }

    /// The policy of a fixed delay.
    pub fn fixed(delay_ms: u64) -> (r: Self)
        ensures
            r == (RetryStrategy::FixedDelay { delay_ms }),
    {
        Self::FixedDelay { delay_ms }
    }
}

/// How often to try, how long to wait, and which errors are worth another
/// attempt.
#[derive(Debug, Clone, PartialEq, Eq)]
pub struct RetryConfig {
    /// The largest number of attempts.
    pub max_attempts: u32,
    pub strategy: RetryStrategy,
    /// The texts of which one must occur in the message of an error for
    /// the error to be worth another attempt. Where there is none, every
    /// error is.
    pub retryable_errors: Vec<String>,
}

/// Whether a message holds a pattern, as written or with both in lower
/// case.
pub open spec fn mentions(message: Seq<char>, pattern: Seq<char>) -> bool {
    mentions_given(message, pattern, lowercase(message), lowercase(pattern))
}

/// Whether a message holds a pattern, as written or in the lower case in
/// which both are given as well.
pub open spec fn mentions_given(
    message: Seq<char>,
    pattern: Seq<char>,
    lower_message: Seq<char>,
    lower_pattern: Seq<char>,
) -> bool {
    has(message, pattern) || has(lower_message, lower_pattern)
}

/// Whether a message holds a pattern, as written or in the lower case in
/// which both are given as well.
pub fn mentions_lowered(message: &[char], pattern: &[char], lower_message: &[char], lower_pattern: &[
    char
]) -> (b: bool)
    ensures
        b == mentions_given(message@, pattern@, lower_message@, lower_pattern@),
{
    contains(message, pattern) || contains(lower_message, lower_pattern)
}

/// Whether an error with this message is worth another attempt.
pub open spec fn retryable(patterns: Seq<Seq<char>>, message: Seq<char>) -> bool {
    patterns.len() == 0 || exists|i: int|
        0 <= i < patterns.len() && mentions(message, #[trigger] patterns[i])
}

/// What follows a failed attempt.
#[derive(Debug, Clone, Copy, PartialEq, Eq)]
pub enum AfterFailure {
    /// The error is not worth another attempt: give up with it at once.
    GiveUp,
    /// Wait for the delay, where there is one, and try again.
    Retry { delay_ms: Option<u64> },
    /// That was the last attempt: wait for the delay, where there is one,
    /// and give up with the error.
    Exhausted { delay_ms: Option<u64> },
}

/// What follows the failed attempt with the index `attempt`, counted from
/// 0, that failed with `message`.
pub open spec fn after_failure(
    max_attempts: u32,
    strategy: RetryStrategy,
    patterns: Seq<Seq<char>>,
    attempt: u32,
    message: Seq<char>,
) -> AfterFailure {
    if !retryable(patterns, message) {
        AfterFailure::GiveUp
    } else if attempt + 1 < max_attempts {
        AfterFailure::Retry { delay_ms: delay_after(strategy, attempt) }
    } else {
        AfterFailure::Exhausted { delay_ms: delay_after(strategy, attempt) }
    }
}

impl Default for RetryConfig {
    /// Three attempts with the default policy, for every error.
    fn default() -> (r: Self)
        ensures
            r.max_attempts == 3,
            r.strategy == (RetryStrategy::ExponentialBackoff {
                initial_delay_ms: 1000,
                max_delay_ms: 10000,
                multiplier_permille: 2000,
            }),
            r.retryable_errors@.len() == 0,
    {
        Self { max_attempts: 3, strategy: RetryStrategy::default(), retryable_errors: Vec::new() }
    }
}

impl RetryConfig {
    /// A configuration under which every error is worth another attempt.
    pub fn new(max_attempts: u32, strategy: RetryStrategy) -> (r: Self)
        ensures
            r.max_attempts == max_attempts,
            r.strategy == strategy,
            r.retryable_errors@.len() == 0,
    {
        Self { max_attempts, strategy, retryable_errors: Vec::new() }
    }

    /// This configuration with the given texts to look for in errors.
    pub fn with_retryable_errors(self, errors: Vec<String>) -> (r: Self)
        ensures
            r.max_attempts == self.max_attempts,
            r.strategy == self.strategy,
            r.retryable_errors == errors,
    {
        Self { max_attempts: self.max_attempts, strategy: self.strategy, retryable_errors: errors }
    }

    /// Whether an error with this message is worth another attempt.
    pub fn is_retryable(&self, error_message: &str) -> (b: bool)
        ensures
            b == retryable(self.retryable_errors.deep_view(), error_message@),
    {
        if self.retryable_errors.len() == 0 {
            return true;
        }
        let message = chars_of(error_message);
        let lower = to_lowercase(error_message);
        let lower_message = chars_of(lower.as_str());
        let mut i: usize = 0;
        while i < self.retryable_errors.len()
            invariant
                i <= self.retryable_errors@.len(),
                message@ == error_message@,
                lower_message@ == lowercase(error_message@),
                forall|j: int|
                    0 <= j < i ==> !mentions(
                        error_message@,
                        #[trigger] self.retryable_errors.deep_view()[j],
                    ),
            decreases self.retryable_errors@.len() - i,
        {
            let pattern = chars_of(self.retryable_errors[i].as_str());
            let lower_pattern_text = to_lowercase(self.retryable_errors[i].as_str());
            let lower_pattern = chars_of(lower_pattern_text.as_str());
            proof {
                assert(self.retryable_errors.deep_view()[i as int] == pattern@);
            }
            if mentions_lowered(
                message.as_slice(),
                pattern.as_slice(),
                lower_message.as_slice(),
                lower_pattern.as_slice(),
            ) {
                return true;
            }
            i += 1;
        }
        false
    }

    /// What follows the failed attempt with the index `attempt`, counted
    /// from 0, that failed with `error_message`.
    pub fn on_failure(&self, attempt: u32, error_message: &str) -> (r: AfterFailure)
        ensures
            r == after_failure(
                self.max_attempts,
                self.strategy,
                self.retryable_errors.deep_view(),
                attempt,
                error_message@,
            ),
    {
        if !self.is_retryable(error_message) {
            return AfterFailure::GiveUp;
        }
        let delay_ms = self.strategy.next_delay(attempt);
        if attempt < u32::MAX && attempt + 1 < self.max_attempts {
            AfterFailure::Retry { delay_ms }
        } else {
            AfterFailure::Exhausted { delay_ms }
        }
    }
}

} // verus!
