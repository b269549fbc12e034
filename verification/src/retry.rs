//! Bounded retry with exponential backoff, as a state machine: the caller
//! makes the attempts and waits; the machine says whether to go on and for
//! how long to wait.

use vstd::arithmetic::power2::{lemma2_to64, lemma_pow2_pos, lemma_pow2_unfold, pow2};
use vstd::prelude::*;

verus! {

/// How often the delivery of one alert through one channel is tried.
pub const DELIVERY_ATTEMPTS: usize = 3;

/// The wait after the first failed attempt to deliver, in milliseconds.
pub const DELIVERY_FIRST_WAIT_MS: u64 = 1000;

/// What to do after an attempt has failed.
#[derive(Clone, Copy, Debug, PartialEq, Eq, Structural)]
pub enum RetryStep {
    /// No attempt is left: report the failure of the last one.
    GiveUp,
    /// Wait this many milliseconds, then try again.
    Wait { delay_ms: u64 },
}

/// Twice a delay; a delay too long to double becomes the longest there is.
pub open spec fn doubled(delay_ms: u64) -> u64 {
    if 2 * delay_ms <= u64::MAX {
        (2 * delay_ms) as u64
    } else {
        u64::MAX
    }
}

/// The wait that follows the failure number `failures + 1`: the initial
/// delay, doubled once for every failure before it.
pub open spec fn backoff_delay(initial_ms: u64, failures: nat) -> u64
    decreases failures,
{
    if failures == 0 {
        initial_ms
    } else {
        doubled(backoff_delay(initial_ms, (failures - 1) as nat))
    }
}

/// What the machine answers to the failure that follows `failures` earlier ones.
pub open spec fn step_after(max_attempts: usize, initial_ms: u64, failures: usize) -> RetryStep {
    if failures + 1 >= max_attempts {
        RetryStep::GiveUp
    } else {
        RetryStep::Wait { delay_ms: backoff_delay(initial_ms, failures as nat) }
    }
}

/// The course of one retried operation.
pub struct Retry {
    max_attempts: usize,
    initial_ms: u64,
    failures: usize,
    delay_ms: u64,
}

impl Retry {
    /// The number of attempts allowed in all.
    pub closed spec fn max_attempts(&self) -> usize {
        self.max_attempts
    }

    /// The wait after the first failure, in milliseconds.
    pub closed spec fn initial_ms(&self) -> u64 {
        self.initial_ms
    }

    /// The number of attempts that have failed so far.
    pub closed spec fn failures(&self) -> usize {
        self.failures
    }

    #[verifier::type_invariant]
    closed spec fn wf(&self) -> bool {
        &&& self.max_attempts >= 1
        &&& self.failures <= self.max_attempts
        &&& self.delay_ms == backoff_delay(self.initial_ms, self.failures as nat)
    }

    /// Starts the course of an operation that may be tried `max_attempts`
    /// times, with `initial_delay_ms` milliseconds between the first two
    /// attempts.
    pub fn new(max_attempts: usize, initial_delay_ms: u64) -> (retry: Retry)
        requires
            max_attempts >= 1,
        ensures
            retry.max_attempts() == max_attempts,
            retry.initial_ms() == initial_delay_ms,
            retry.failures() == 0,
    {
        Retry { max_attempts, initial_ms: initial_delay_ms, failures: 0, delay_ms: initial_delay_ms }
    }

    /// The number of attempts that have failed so far.
    pub fn failed_attempts(&self) -> (failures: usize)
        ensures
            failures == self.failures(),
            failures <= self.max_attempts(),
    {
        proof {
            use_type_invariant(self);
        }
        self.failures
    }

    /// Takes in the failure of an attempt. Once as many attempts have failed
    /// as are allowed, the answer is to give up, and stays so; until then it
    /// is to wait, each time twice as long as the time before.
    pub fn on_failure(&mut self) -> (step: RetryStep)
        ensures
            final(self).max_attempts() == old(self).max_attempts(),
            final(self).initial_ms() == old(self).initial_ms(),
            final(self).failures() == if old(self).failures() < old(self).max_attempts() {
                old(self).failures() + 1
            } else {
                old(self).failures() as int
            },
            step == step_after(old(self).max_attempts(), old(self).initial_ms(), old(self).failures()),
    {
        proof {
            use_type_invariant(&*self);
        }
        let delay = self.delay_ms;
        if self.failures < self.max_attempts {
            *self = Retry {
                max_attempts: self.max_attempts,
                initial_ms: self.initial_ms,
                failures: self.failures + 1,
                delay_ms: double(delay),
            };
        }
        if self.failures >= self.max_attempts {
            RetryStep::GiveUp
        } else {
            RetryStep::Wait { delay_ms: delay }
        }
    }
}

/// Twice a delay, or the longest delay there is.
pub fn double(delay_ms: u64) -> (twice: u64)
    ensures
        twice == doubled(delay_ms),
{
    if delay_ms <= u64::MAX / 2 {
        delay_ms * 2
    } else {
        u64::MAX
    }
}

/// The waits grow as powers of two: the wait after `failures` doublings is
/// the initial delay times two to the power of `failures`, as long as that
/// fits; beyond, it is the longest delay there is.
pub proof fn law_backoff_is_exponential(initial_ms: u64, failures: nat)
    ensures
        backoff_delay(initial_ms, failures) == if initial_ms * pow2(failures) <= u64::MAX {
            initial_ms * pow2(failures)
        } else {
            u64::MAX as int
        },
    decreases failures,
{
    lemma_pow2_pos(failures);
    if failures == 0 {
        lemma2_to64();
    } else {
        let before = (failures - 1) as nat;
        law_backoff_is_exponential(initial_ms, before);
        lemma_pow2_unfold(failures);
        assert(initial_ms * pow2(failures) == 2 * (initial_ms * pow2(before))) by (nonlinear_arith)
            requires
                pow2(failures) == 2 * pow2(before),
        ;
    }
}

/// An operation is tried at most `max_attempts` times: the failure number
/// `max_attempts` is answered by giving up, and no earlier one is.
pub proof fn law_gives_up_at_the_limit(max_attempts: usize, initial_ms: u64, failures: usize)
    requires
        max_attempts >= 1,
        failures < max_attempts,
    ensures
        step_after(max_attempts, initial_ms, failures) is GiveUp <==> failures + 1 == max_attempts,
{
}

/// How a retried operation went.
pub struct Course {
    /// Whether the last attempt succeeded.
    pub succeeded: bool,
    /// How many attempts were made.
    pub attempts: nat,
    /// How long was waited after each attempt but the last, in milliseconds.
    pub waits: Seq<u64>,
}

/// The course of an operation that has failed `failures` times so far,
/// when each attempt is made as long as the machine says to wait and try
/// again. `outcomes[k]` tells whether attempt number `k + 1` succeeds.
pub open spec fn course_from(
    max_attempts: usize,
    initial_ms: u64,
    outcomes: Seq<bool>,
    failures: usize,
) -> Course
    decreases max_attempts - failures,
{
    if outcomes[failures as int] {
        Course { succeeded: true, attempts: (failures + 1) as nat, waits: Seq::<u64>::empty() }
    } else {
        match step_after(max_attempts, initial_ms, failures) {
            RetryStep::GiveUp => Course {
                succeeded: false,
                attempts: (failures + 1) as nat,
                waits: Seq::<u64>::empty(),
            },
            RetryStep::Wait { delay_ms } => {
                let rest = course_from(max_attempts, initial_ms, outcomes, (failures + 1) as usize);
                Course {
                    succeeded: rest.succeeded,
                    attempts: rest.attempts,
                    waits: seq![delay_ms] + rest.waits,
                }
            },
        }
    }
}

/// An operation that is retried as the machine says ends with its first
/// success, if one comes within the allowed attempts, and otherwise with
/// the failure of the last allowed attempt. It is never tried more often
/// than allowed, and between two attempts the wait is the initial delay,
/// doubled once for every wait before it.
pub proof fn law_course_of_a_retried_operation(
    max_attempts: usize,
    initial_ms: u64,
    outcomes: Seq<bool>,
    failures: usize,
)
    requires
        max_attempts >= 1,
        failures < max_attempts,
        outcomes.len() >= max_attempts,
        forall|k: int| 0 <= k < failures ==> !outcomes[k],
    ensures
        ({
            let course = course_from(max_attempts, initial_ms, outcomes, failures);
            &&& failures < course.attempts <= max_attempts
            &&& forall|k: int| 0 <= k < course.attempts - 1 ==> !outcomes[k]
            &&& course.succeeded == outcomes[course.attempts - 1]
            &&& !course.succeeded ==> course.attempts == max_attempts
            &&& course.waits.len() == course.attempts - 1 - failures
            &&& forall|k: int|
                0 <= k < course.waits.len() ==> course.waits[k] == backoff_delay(
                    initial_ms,
                    (failures + k) as nat,
                )
        }),
    decreases max_attempts - failures,
{
    if !outcomes[failures as int] && failures + 1 < max_attempts {
        law_course_of_a_retried_operation(
            max_attempts,
            initial_ms,
            outcomes,
            (failures + 1) as usize,
        );
    }
}

} // verus!
