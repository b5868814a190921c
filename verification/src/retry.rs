//! Bounded retries with a backoff schedule.
//!
//! The policy decides; the caller runs the operation and waits. After every
//! attempt the caller reports how it ended and is told either to finish or to
//! wait for a delay and try again.

use vstd::prelude::*;
use vstd::arithmetic::power::{lemma0_pow, lemma1_pow, lemma_pow0, lemma_pow_increases, pow};
use crate::error::{IoErrorKind, ServiceError};

verus! {

/// The shape of the backoff schedule.
#[derive(Debug, Clone, Copy, PartialEq, Eq, Structural)]
pub enum RetryStrategy {
    /// The delay is multiplied after every retry (1s, 2s, 4s, 8s).
    Exponential,
    /// The delay grows by the initial delay after every retry (1s, 2s, 3s, 4s).
    Linear,
    /// The same delay before every retry (1s, 1s, 1s, 1s).
    Fixed,
}

/// How often to try, and how long to wait in between.
#[derive(Debug, Clone, Copy)]
pub struct RetryConfig {
    /// Number of attempts, the first one included.
    pub max_attempts: u32,
    /// Delay before the first retry, in milliseconds.
    pub initial_delay_ms: u64,
    /// No delay is longer than this many milliseconds.
    pub max_delay_ms: u64,
    pub strategy: RetryStrategy,
    /// Factor of the exponential strategy, a whole number.
    pub backoff_multiplier: u32,
}

/// How one attempt ended.
#[derive(Debug, Clone, Copy, PartialEq, Eq, Structural)]
pub enum AttemptOutcome {
    Succeeded,
    Failed { retryable: bool },
}

/// What the caller does after an attempt.
#[derive(Debug, Clone, Copy, PartialEq, Eq, Structural)]
pub enum RetryAction {
    /// Hand the attempt's result, or its error, to the caller.
    Finish,
    /// Wait this many milliseconds, then try again.
    RetryAfter(u64),
}

impl Default for RetryConfig {
    fn default() -> (config: RetryConfig)
        ensures
            config.max_attempts == 3,
            config.initial_delay_ms == 1000,
            config.max_delay_ms == 30000,
            config.strategy == RetryStrategy::Exponential,
            config.backoff_multiplier == 2,
    {
        RetryConfig {
            max_attempts: 3,
            initial_delay_ms: 1000,
            max_delay_ms: 30000,
            strategy: RetryStrategy::Exponential,
            backoff_multiplier: 2,
        }
    }
}

/// The delay before the retry that follows attempt `attempt` (counted from
/// zero), before the cap is applied.
pub open spec fn uncapped_delay(
    strategy: RetryStrategy,
    initial_delay_ms: u64,
    backoff_multiplier: u32,
    attempt: u32,
) -> int {
    match strategy {
        RetryStrategy::Fixed => initial_delay_ms as int,
        RetryStrategy::Linear => initial_delay_ms * (attempt + 1),
        RetryStrategy::Exponential => initial_delay_ms * pow(
            backoff_multiplier as int,
            attempt as nat,
        ),
    }
}

/// Which errors may go away when the operation is tried again: the passing
/// conditions of input and output. What is wrong with the request itself
/// stays wrong: a path that does not exist or exists already, an argument
/// that is invalid, an operation that is not supported, and every violation
/// of a permission or of the sandbox.
pub open spec fn retryable(error: ServiceError) -> bool {
    match error {
        ServiceError::Io(failure) => match failure.kind {
            IoErrorKind::NotFound => false,
            IoErrorKind::PermissionDenied => false,
            IoErrorKind::AlreadyExists => false,
            IoErrorKind::InvalidInput => false,
            IoErrorKind::InvalidData => false,
            IoErrorKind::Unsupported => false,
            IoErrorKind::UnexpectedEof => false,
            IoErrorKind::OutOfMemory => false,
            _ => true,
        },
        _ => false,
    }
}

proof fn lemma_scaled_pow_grows(initial: int, multiplier: int, low: nat, high: nat)
    requires
        initial >= 0,
        multiplier >= 1,
        low <= high,
    ensures
        initial * pow(multiplier, low) <= initial * pow(multiplier, high),
{
    lemma_pow_increases(multiplier as nat, low, high);
    assert(initial * pow(multiplier, low) <= initial * pow(multiplier, high)) by (nonlinear_arith)
        requires
            initial >= 0,
            pow(multiplier, low) <= pow(multiplier, high),
    ;
}

proof fn lemma_pow_step(multiplier: int, exponent: nat)
    ensures
        pow(multiplier, exponent + 1) == pow(multiplier, exponent) * multiplier,
{
    reveal(pow);
    assert(pow(multiplier, exponent + 1) == multiplier * pow(multiplier, exponent));
    assert(multiplier * pow(multiplier, exponent) == pow(multiplier, exponent) * multiplier)
        by (nonlinear_arith);
}

fn exponential_delay(initial: u64, multiplier: u32, attempt: u32, cap: u64) -> (delay: u64)
    ensures
        delay == if initial * pow(multiplier as int, attempt as nat) <= cap {
            initial * pow(multiplier as int, attempt as nat)
        } else {
            cap as int
        },
{
    proof {
        lemma_pow0(multiplier as int);
    }
    if attempt == 0 || multiplier == 1 {
        proof {
            lemma1_pow(attempt as nat);
        }
        return if initial <= cap {
            initial
        } else {
            cap
        };
    }
    if initial == 0 || multiplier == 0 {
        proof {
            lemma0_pow(attempt as nat);
        }
        return 0;
    }
    if initial > cap {
        proof {
            lemma_scaled_pow_grows(initial as int, multiplier as int, 0, attempt as nat);
        }
        return cap;
    }
    let mut value: u64 = initial;
    let mut done: u32 = 0;
    while done < attempt
        invariant
            done <= attempt,
            multiplier >= 2,
            initial >= 1,
            value <= cap,
            value == initial * pow(multiplier as int, done as nat),
        decreases attempt - done,
    {
        assert(value * multiplier <= u64::MAX * u32::MAX) by (nonlinear_arith)
            requires
                value <= u64::MAX,
                multiplier <= u32::MAX,
        ;
        let next: u128 = (value as u128) * (multiplier as u128);
        proof {
            lemma_pow_step(multiplier as int, done as nat);
            assert(initial * (pow(multiplier as int, done as nat) * multiplier) == (initial * pow(
                multiplier as int,
                done as nat,
            )) * multiplier) by (nonlinear_arith);
            assert(next == initial * pow(multiplier as int, (done + 1) as nat));
            lemma_scaled_pow_grows(
                initial as int,
                multiplier as int,
                (done + 1) as nat,
                attempt as nat,
            );
        }
        if next > cap as u128 {
            return cap;
        }
        value = next as u64;
        done = done + 1;
    }
    value
}

impl RetryConfig {
    /// The delay before the retry that follows attempt `attempt`: what the
    /// strategy gives, and at most `max_delay_ms`.
    pub open spec fn delay_spec(&self, attempt: u32) -> int {
        let uncapped = uncapped_delay(
            self.strategy,
            self.initial_delay_ms,
            self.backoff_multiplier,
            attempt,
        );
        if uncapped <= self.max_delay_ms {
            uncapped
        } else {
            self.max_delay_ms as int
        }
    }

    /// What follows attempt `attempt` when it ended in `outcome`.
    pub open spec fn action_spec(&self, attempt: u32, outcome: AttemptOutcome) -> RetryAction {
        match outcome {
            AttemptOutcome::Succeeded => RetryAction::Finish,
            AttemptOutcome::Failed { retryable } => if !retryable || attempt + 1
                >= self.max_attempts {
                RetryAction::Finish
            } else {
                RetryAction::RetryAfter(self.delay_spec(attempt) as u64)
            },
        }
    }

    pub fn new() -> (config: RetryConfig)
        ensures
            config.max_attempts == 3,
            config.initial_delay_ms == 1000,
            config.max_delay_ms == 30000,
            config.strategy == RetryStrategy::Exponential,
            config.backoff_multiplier == 2,
    {
        RetryConfig {
            max_attempts: 3,
            initial_delay_ms: 1000,
            max_delay_ms: 30000,
            strategy: RetryStrategy::Exponential,
            backoff_multiplier: 2,
        }
    }

    /// The policy for work on files: three attempts, the delay doubling
    /// from one second.
    pub fn for_io() -> (config: RetryConfig)
        ensures
            config.max_attempts == 3,
            config.initial_delay_ms == 1000,
            config.max_delay_ms == 30000,
            config.strategy == RetryStrategy::Exponential,
            config.backoff_multiplier == 2,
    {
        RetryConfig::new().with_max_attempts(3).with_initial_delay_ms(1000).with_strategy(
            RetryStrategy::Exponential,
        )
    }

    /// Sets the number of attempts, which is at least one.
    pub fn with_max_attempts(self, max_attempts: u32) -> (config: RetryConfig)
        ensures
            config == (RetryConfig {
                max_attempts: if max_attempts >= 1 {
                    max_attempts
                } else {
                    1
                },
                ..self
            }),
    {
        let mut config = self;
        config.max_attempts = if max_attempts >= 1 {
            max_attempts
        } else {
            1
        };
        config
    }

    pub fn with_initial_delay_ms(self, delay_ms: u64) -> (config: RetryConfig)
        ensures
            config == (RetryConfig { initial_delay_ms: delay_ms, ..self }),
    {
        let mut config = self;
        config.initial_delay_ms = delay_ms;
        config
    }

    /// Sets the cap, which is never below the initial delay.
    pub fn with_max_delay_ms(self, delay_ms: u64) -> (config: RetryConfig)
        ensures
            config == (RetryConfig {
                max_delay_ms: if delay_ms >= self.initial_delay_ms {
                    delay_ms
                } else {
                    self.initial_delay_ms
                },
                ..self
            }),
    {
        let mut config = self;
        config.max_delay_ms = if delay_ms >= config.initial_delay_ms {
            delay_ms
        } else {
            config.initial_delay_ms
        };
        config
    }

    pub fn with_strategy(self, strategy: RetryStrategy) -> (config: RetryConfig)
        ensures
            config == (RetryConfig { strategy, ..self }),
    {
        let mut config = self;
        config.strategy = strategy;
        config
    }

    pub fn with_backoff_multiplier(self, multiplier: u32) -> (config: RetryConfig)
        ensures
            config == (RetryConfig { backoff_multiplier: multiplier, ..self }),
    {
        let mut config = self;
        config.backoff_multiplier = multiplier;
        config
    }

    /// The delay in milliseconds before the retry that follows attempt
    /// `attempt`, counted from zero.
    pub fn calculate_delay(&self, attempt: u32) -> (delay_ms: u64)
        ensures
            delay_ms == self.delay_spec(attempt),
            delay_ms <= self.max_delay_ms,
    {
        match self.strategy {
            RetryStrategy::Fixed => if self.initial_delay_ms <= self.max_delay_ms {
                self.initial_delay_ms
            } else {
                self.max_delay_ms
            },
            RetryStrategy::Linear => {
                assert(self.initial_delay_ms * (attempt + 1) <= u64::MAX * (u32::MAX + 1))
                    by (nonlinear_arith)
                    requires
                        self.initial_delay_ms <= u64::MAX,
                        attempt <= u32::MAX,
                ;
                let uncapped: u128 = (self.initial_delay_ms as u128) * (attempt as u128 + 1);
                if uncapped <= self.max_delay_ms as u128 {
                    uncapped as u64
                } else {
                    self.max_delay_ms
                }
            },
            RetryStrategy::Exponential => exponential_delay(
                self.initial_delay_ms,
                self.backoff_multiplier,
                attempt,
                self.max_delay_ms,
            ),
        }
    }

    /// Whether `error` may go away when the operation is tried again. A path
    /// that the sandbox rejects is rejected every time, and a permission that
    /// is denied stays denied.
    pub fn is_retryable(&self, error: &ServiceError) -> (answer: bool)
        ensures
            answer == retryable(*error),
            error is PathNotAllowed || error is PermissionDenied ==> !answer,
    {
        match error {
            ServiceError::Io(failure) => match failure.kind {
                IoErrorKind::NotFound => false,
                IoErrorKind::PermissionDenied => false,
                IoErrorKind::AlreadyExists => false,
                IoErrorKind::InvalidInput => false,
                IoErrorKind::InvalidData => false,
                IoErrorKind::Unsupported => false,
                IoErrorKind::UnexpectedEof => false,
                IoErrorKind::OutOfMemory => false,
                _ => true,
            },
            _ => false,
        }
    }

    /// Decides what follows attempt `attempt`, counted from zero. A success
    /// and a failure that cannot be retried end the run, and so does the
    /// failure of the last attempt that `max_attempts` allows.
    pub fn after_attempt(&self, attempt: u32, outcome: AttemptOutcome) -> (action: RetryAction)
        ensures
            action == self.action_spec(attempt, outcome),
            action is RetryAfter ==> attempt + 1 < self.max_attempts,
    {
        match outcome {
            AttemptOutcome::Succeeded => RetryAction::Finish,
            AttemptOutcome::Failed { retryable } => {
                if !retryable || attempt == u32::MAX || attempt + 1 >= self.max_attempts {
                    RetryAction::Finish
                } else {
                    RetryAction::RetryAfter(self.calculate_delay(attempt))
                }
            },
        }
    }
}

/// The number of attempts made on a run that begins with attempt `from` and
/// whose attempts end as `outcomes` say, one after the other, until the
/// policy finishes or the outcomes run out.
pub open spec fn attempts_made(config: RetryConfig, outcomes: Seq<AttemptOutcome>, from: nat) -> nat
    decreases outcomes.len() - from,
{
    if from >= outcomes.len() || from > u32::MAX {
        from
    } else {
        match config.action_spec(from as u32, outcomes[from as int]) {
            RetryAction::Finish => from + 1,
            RetryAction::RetryAfter(_) => attempts_made(config, outcomes, from + 1),
        }
    }
}

/// A run makes no more attempts than `max_attempts` allows, the first one
/// included, whatever the outcomes are; and it makes one attempt at least.
pub proof fn lemma_attempts_are_bounded(config: RetryConfig, outcomes: Seq<AttemptOutcome>)
    requires
        outcomes.len() > 0,
    ensures
        1 <= attempts_made(config, outcomes, 0),
        attempts_made(config, outcomes, 0) <= (if config.max_attempts >= 1 {
            config.max_attempts as nat
        } else {
            1
        }),
{
    lemma_attempts_from(config, outcomes, 0);
}

proof fn lemma_attempts_from(config: RetryConfig, outcomes: Seq<AttemptOutcome>, from: nat)
    requires
        from < outcomes.len(),
        from <= u32::MAX,
    ensures
        from + 1 <= attempts_made(config, outcomes, from),
        attempts_made(config, outcomes, from) <= (if from + 1 >= config.max_attempts {
            from + 1
        } else {
            config.max_attempts as nat
        }),
    decreases outcomes.len() - from,
{
    match config.action_spec(from as u32, outcomes[from as int]) {
        RetryAction::Finish => {
            assert(attempts_made(config, outcomes, from) == from + 1);
        },
        RetryAction::RetryAfter(_) => {
            assert(from + 1 < config.max_attempts);
            assert(attempts_made(config, outcomes, from) == attempts_made(
                config,
                outcomes,
                from + 1,
            ));
            if from + 1 < outcomes.len() {
                lemma_attempts_from(config, outcomes, from + 1);
            } else {
                assert(attempts_made(config, outcomes, from + 1) == from + 1);
            }
        },
    }
}

/// A run ends with the first attempt that succeeds or fails for good: it
/// makes no attempt after it.
pub proof fn lemma_run_ends_with_the_first_final_outcome(
    config: RetryConfig,
    outcomes: Seq<AttemptOutcome>,
    last: nat,
)
    requires
        last < outcomes.len(),
        last <= u32::MAX,
        forall|i: int|
            0 <= i < last ==> outcomes[i] == (AttemptOutcome::Failed { retryable: true }),
        outcomes[last as int] != (AttemptOutcome::Failed { retryable: true }),
        last < config.max_attempts,
    ensures
        attempts_made(config, outcomes, 0) == last + 1,
{
    lemma_run_continues(config, outcomes, last, 0);
}

proof fn lemma_run_continues(
    config: RetryConfig,
    outcomes: Seq<AttemptOutcome>,
    last: nat,
    from: nat,
)
    requires
        from <= last < outcomes.len(),
        last <= u32::MAX,
        forall|i: int|
            0 <= i < last ==> outcomes[i] == (AttemptOutcome::Failed { retryable: true }),
        outcomes[last as int] != (AttemptOutcome::Failed { retryable: true }),
        last < config.max_attempts,
    ensures
        attempts_made(config, outcomes, from) == last + 1,
    decreases last - from,
{
    if from < last {
        assert(config.action_spec(from as u32, outcomes[from as int]) is RetryAfter);
        assert(attempts_made(config, outcomes, from) == attempts_made(config, outcomes, from + 1));
        lemma_run_continues(config, outcomes, last, from + 1);
    } else {
        assert(config.action_spec(from as u32, outcomes[from as int]) is Finish);
        assert(attempts_made(config, outcomes, from) == from + 1);
    }
}

} // verus!
