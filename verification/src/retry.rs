//! How often a move is tried again, and after what pause.
//!
//! A notification may run ahead of the file system: the move is attempted and the
//! source is not there yet. Such a move is worth a pause and another try, a bounded
//! number of times. Any other failure is final at once.

use vstd::prelude::*;

verus! {

/// How one attempt to move ended.
#[derive(Debug, Clone, Copy, PartialEq, Eq, Structural)]
pub enum Attempt {
    /// The entry is now at its destination.
    Moved,
    /// The move failed because the source does not exist.
    SourceMissing,
    /// The move failed for any other reason.
    Failed,
}

/// What to do after an attempt.
#[derive(Debug, Clone, Copy, PartialEq, Eq, Structural)]
pub enum NextStep {
    /// Nothing more: the move succeeded.
    Done,
    /// Pause for so many milliseconds, then attempt the same move again.
    RetryAfter(u64),
    /// Nothing more: report the failure of this attempt.
    GiveUp,
}

/// The bound on retries and the pause before each.
#[derive(Debug, Clone, Copy, PartialEq, Eq, Structural)]
pub struct RetryPolicy {
    /// How many times a move may be tried again.
    pub max_retries: u32,
    /// The pause before each retry, in milliseconds.
    pub delay_millis: u64,
}

/// The retries of the standard policy.
pub const STANDARD_RETRIES: u32 = 1;

/// The pause of the standard policy, in milliseconds.
pub const STANDARD_DELAY_MILLIS: u64 = 1000;

/// The course of one move: what a caller does who follows `RetryPolicy::next`.
pub struct Course {
    /// How many times the move was attempted.
    pub attempts: nat,
    /// The pauses made, in order.
    pub waits: Seq<u64>,
    /// Whether the last attempt succeeded.
    pub moved: bool,
}

impl RetryPolicy {
    /// What follows an attempt that ended as `attempt`, after `retries` retries
    /// already made: a success ends the move, a missing source is retried while the
    /// bound allows, and everything else is reported.
    pub open spec fn next(self, retries: nat, attempt: Attempt) -> NextStep {
        match attempt {
            Attempt::Moved => NextStep::Done,
            Attempt::SourceMissing => if retries < self.max_retries {
                NextStep::RetryAfter(self.delay_millis)
            } else {
                NextStep::GiveUp
            },
            Attempt::Failed => NextStep::GiveUp,
        }
    }

    /// The course of a move whose successive attempts end as `results` says, from a
    /// point where `retries` retries were already made. Where the results run out
    /// before the move is settled, the course stops there.
    pub open spec fn course(self, results: Seq<Attempt>, retries: nat) -> Course
        decreases results.len(),
    {
        if results.len() == 0 {
            Course { attempts: 0, waits: Seq::empty(), moved: false }
        } else {
            match self.next(retries, results[0]) {
                NextStep::Done => Course { attempts: 1, waits: Seq::empty(), moved: true },
                NextStep::GiveUp => Course { attempts: 1, waits: Seq::empty(), moved: false },
                NextStep::RetryAfter(millis) => {
                    let rest = self.course(results.skip(1), retries + 1);
                    Course {
                        attempts: rest.attempts + 1,
                        waits: seq![millis] + rest.waits,
                        moved: rest.moved,
                    }
                },
            }
        }
    }

    /// A policy with the given bound and pause.
    pub fn new(max_retries: u32, delay_millis: u64) -> (policy: RetryPolicy)
        ensures
            policy == (RetryPolicy { max_retries, delay_millis }),
    {
        RetryPolicy { max_retries, delay_millis }
    }

    /// The standard policy: one retry, one second after the failure.
    pub fn standard() -> (policy: RetryPolicy)
        ensures
            policy == (RetryPolicy {
                max_retries: STANDARD_RETRIES,
                delay_millis: STANDARD_DELAY_MILLIS,
            }),
    {
        RetryPolicy { max_retries: STANDARD_RETRIES, delay_millis: STANDARD_DELAY_MILLIS }
    }

    /// What to do after an attempt that ended as `attempt`, when `retries` retries of
    /// this move were made before it.
    pub fn after_attempt(&self, retries: u32, attempt: Attempt) -> (step: NextStep)
        ensures
            step == self.next(retries as nat, attempt),
    {
        match attempt {
            Attempt::Moved => NextStep::Done,
            Attempt::SourceMissing => {
                if retries < self.max_retries {
                    NextStep::RetryAfter(self.delay_millis)
                } else {
                    NextStep::GiveUp
                }
            },
            Attempt::Failed => NextStep::GiveUp,
        }
    }
}

/// No move is tried without end: after `retries` retries at most
/// `max_retries - retries` more are made, each after the policy's pause. Where the
/// results reach as far as the bound, every pause is followed by an attempt.
pub proof fn law_retries_are_bounded(policy: RetryPolicy, results: Seq<Attempt>, retries: nat)
    requires
        retries <= policy.max_retries,
    ensures
        policy.course(results, retries).attempts <= policy.max_retries - retries + 1,
        policy.course(results, retries).waits.len() <= policy.max_retries - retries,
        results.len() > policy.max_retries - retries ==> policy.course(
            results,
            retries,
        ).attempts == policy.course(results, retries).waits.len() + 1,
        forall|i: int|
            0 <= i < policy.course(results, retries).waits.len() ==> policy.course(
                results,
                retries,
            ).waits[i] == policy.delay_millis,
    decreases results.len(),
{
    if results.len() > 0 {
        if policy.next(retries, results[0]) is RetryAfter {
            law_retries_are_bounded(policy, results.skip(1), retries + 1);
        }
    }
}

/// Under the standard policy a move whose source is missing is tried exactly once
/// more, one second later, and the second attempt settles it: the move succeeded if
/// that attempt did, and failed for good whatever else came of it.
pub proof fn law_missing_source_is_retried_once(results: Seq<Attempt>)
    requires
        results.len() >= 2,
        results[0] == Attempt::SourceMissing,
    ensures
        ({
            let policy = RetryPolicy {
                max_retries: STANDARD_RETRIES,
                delay_millis: STANDARD_DELAY_MILLIS,
            };
            let course = policy.course(results, 0);
            &&& course.attempts == 2
            &&& course.waits == seq![1000u64]
            &&& course.moved == (results[1] == Attempt::Moved)
        }),
{
    let policy = RetryPolicy {
        max_retries: STANDARD_RETRIES,
        delay_millis: STANDARD_DELAY_MILLIS,
    };
    let rest = results.skip(1);
    assert(rest[0] == results[1]);
    assert(policy.next(0, results[0]) == NextStep::RetryAfter(1000u64));
    let second = policy.course(rest, 1);
    assert(second.attempts == 1 && second.waits == Seq::<u64>::empty());
    assert(policy.course(results, 0).waits =~= seq![1000u64]);
}

/// A first attempt that succeeds, or fails for another reason than a missing source,
/// is the only one, under any policy: no pause, no retry.
pub proof fn law_other_results_are_final(policy: RetryPolicy, results: Seq<Attempt>)
    requires
        results.len() >= 1,
        results[0] != Attempt::SourceMissing,
    ensures
        policy.course(results, 0).attempts == 1,
        policy.course(results, 0).waits == Seq::<u64>::empty(),
        policy.course(results, 0).moved == (results[0] == Attempt::Moved),
{
}

} // verus!
