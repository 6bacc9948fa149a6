//! When a failed attempt is tried again, and how long to wait before it.
use vstd::prelude::*;
use vstd::arithmetic::power2::{lemma_pow2_pos, lemma_pow2_unfold, pow2};
use crate::http::{HttpOutcome, HttpOutcomeView};

verus! {

/// How often a request is tried again and how long the waits between the
/// attempts are.
#[derive(Clone, Copy, Debug, PartialEq, Eq, Structural)]
pub struct RetryPolicy {
    /// How many attempts may follow the first one.
    pub max_retries: u32,
    /// The shortest wait between two attempts, in seconds.
    pub min_wait_sec: u64,
    /// The longest wait between two attempts, in seconds.
    pub max_wait_sec: u64,
}

/// What to do after an attempt.
#[derive(Clone, Copy, Debug, PartialEq, Eq, Structural)]
pub enum Step {
    /// Wait this many seconds, then try again.
    Retry { wait_sec: u64 },
    /// Take the attempt's outcome as the outcome of the request.
    Finish,
}

/// The least of two numbers.
pub open spec fn least(a: int, b: int) -> int {
    if a <= b {
        a
    } else {
        b
    }
}

/// Whether an outcome is worth another attempt: no response at all, or a
/// response with a status from 500 to 599.
pub open spec fn spec_is_transient(outcome: HttpOutcomeView) -> bool {
    match outcome {
        HttpOutcomeView::Transport(_) => true,
        HttpOutcomeView::Response { status, body } => 500 <= status <= 599,
    }
}

pub fn is_transient(outcome: &HttpOutcome) -> (r: bool)
    ensures
        r == spec_is_transient(outcome@),
{
    match outcome {
        HttpOutcome::Transport(_) => true,
        HttpOutcome::Response { status, body: _ } => 500 <= *status && *status <= 599,
    }
}

impl RetryPolicy {
    /// The wait before the retry that follows `retries_done` earlier retries:
    /// the shortest wait, doubled once for each earlier retry, but never more
    /// than the longest wait.
    pub open spec fn wait_before(self, retries_done: nat) -> int {
        least(self.min_wait_sec * pow2(retries_done), self.max_wait_sec as int)
    }

    /// What follows an attempt that ended in `outcome` after `retries_done`
    /// retries: another attempt where the outcome is worth one and the policy
    /// allows one more, else the end.
    pub open spec fn step_after(self, retries_done: u32, outcome: HttpOutcomeView) -> Step {
        if spec_is_transient(outcome) && retries_done < self.max_retries {
            Step::Retry { wait_sec: self.wait_before(retries_done as nat) as u64 }
        } else {
            Step::Finish
        }
    }

    /// The policy for a retry count and a wait bound: waits grow from half the
    /// bound to the bound.
    pub fn new(retry_count: u32, retry_wait_time_sec: u64) -> (r: RetryPolicy)
        ensures
            r.max_retries == retry_count,
            r.min_wait_sec == retry_wait_time_sec / 2,
            r.max_wait_sec == retry_wait_time_sec,
    {
        RetryPolicy {
            max_retries: retry_count,
            min_wait_sec: retry_wait_time_sec / 2,
            max_wait_sec: retry_wait_time_sec,
        }
    }

    /// The wait, in seconds, before the retry that follows `retries_done`
    /// earlier retries.
    pub fn backoff_sec(&self, retries_done: u32) -> (wait: u64)
        ensures
            wait == self.wait_before(retries_done as nat),
    {
        let mut wait: u64 = if self.min_wait_sec <= self.max_wait_sec {
            self.min_wait_sec
        } else {
            self.max_wait_sec
        };
        let mut done: u32 = 0;
        proof {
            vstd::arithmetic::power2::lemma2_to64();
        }
        while done < retries_done && 0 < wait && wait < self.max_wait_sec
            invariant
                done <= retries_done,
                wait == self.wait_before(done as nat),
            decreases retries_done - done,
        {
            proof {
                let grown = self.min_wait_sec * pow2(done as nat);
                lemma_pow2_unfold((done + 1) as nat);
                assert(self.min_wait_sec * pow2((done + 1) as nat) == 2 * grown)
                    by (nonlinear_arith)
                    requires
                        pow2((done + 1) as nat) == 2 * pow2(done as nat),
                        grown == self.min_wait_sec * pow2(done as nat),
                ;
            }
            wait = if wait > self.max_wait_sec / 2 {
                self.max_wait_sec
            } else {
                wait * 2
            };
            done = done + 1;
        }
        proof {
            self.lemma_wait_settles(done as nat, retries_done as nat);
        }
        wait
    }

    /// Says what follows an attempt.
    pub fn after_attempt(&self, retries_done: u32, outcome: &HttpOutcome) -> (step: Step)
        ensures
            step == self.step_after(retries_done, outcome@),
    {
        if is_transient(outcome) && retries_done < self.max_retries {
            Step::Retry { wait_sec: self.backoff_sec(retries_done) }
        } else {
            Step::Finish
        }
    }

    /// A wait that has come down to zero or up to the longest wait stays
    /// there.
    proof fn lemma_wait_settles(self, done: nat, later: nat)
        requires
            done <= later,
            done == later || self.wait_before(done) == 0 || self.wait_before(done)
                >= self.max_wait_sec,
        ensures
            self.wait_before(later) == self.wait_before(done),
        decreases later - done,
    {
        if done < later {
            lemma_pow2_unfold(later);
            lemma_pow2_pos(done);
            lemma_pow2_pos((later - 1) as nat);
            self.lemma_wait_settles(done, (later - 1) as nat);
            let before = self.min_wait_sec * pow2((later - 1) as nat);
            assert(self.min_wait_sec * pow2(later) == 2 * before) by (nonlinear_arith)
                requires
                    pow2(later) == 2 * pow2((later - 1) as nat),
                    before == self.min_wait_sec * pow2((later - 1) as nat),
            ;
            if self.wait_before(done) == 0 && self.max_wait_sec > 0 {
                assert(self.min_wait_sec * pow2(done) == 0);
                assert(self.min_wait_sec == 0) by (nonlinear_arith)
                    requires
                        self.min_wait_sec * pow2(done) == 0,
                        pow2(done) > 0,
                ;
                assert(self.min_wait_sec * pow2(later) == 0) by (nonlinear_arith)
                    requires
                        self.min_wait_sec == 0,
                ;
            }
        }
    }
}

/// With a shortest wait that is not above the longest, every wait lies
/// between the two, and no wait is shorter than the one before it.
pub proof fn lemma_wait_bounds(policy: RetryPolicy, retries_done: nat)
    requires
        policy.min_wait_sec <= policy.max_wait_sec,
    ensures
        policy.min_wait_sec <= policy.wait_before(retries_done) <= policy.max_wait_sec,
        policy.wait_before(retries_done) <= policy.wait_before(retries_done + 1),
{
    lemma_pow2_pos(retries_done);
    lemma_pow2_unfold(retries_done + 1);
    let grown = policy.min_wait_sec * pow2(retries_done);
    assert(grown >= policy.min_wait_sec) by (nonlinear_arith)
        requires
            grown == policy.min_wait_sec * pow2(retries_done),
            pow2(retries_done) >= 1,
    ;
    assert(policy.min_wait_sec * pow2(retries_done + 1) == 2 * grown) by (nonlinear_arith)
        requires
            pow2(retries_done + 1) == 2 * pow2(retries_done),
            grown == policy.min_wait_sec * pow2(retries_done),
    ;
}

/// A request is never tried more often than the policy allows, and never
/// given up while the policy allows another attempt at a failure worth one:
/// after `max_retries` retries every outcome ends the request, an outcome that
/// is not worth another attempt ends it at once, and any other outcome before
/// that is retried.
pub proof fn lemma_retry_budget(policy: RetryPolicy, retries_done: u32, outcome: HttpOutcomeView)
    ensures
        retries_done >= policy.max_retries ==> policy.step_after(retries_done, outcome)
            == Step::Finish,
        !spec_is_transient(outcome) ==> policy.step_after(retries_done, outcome) == Step::Finish,
        spec_is_transient(outcome) && retries_done < policy.max_retries ==> policy.step_after(
            retries_done,
            outcome,
        ) is Retry,
{
}

/// The retries that have been made when a request ends, counted from
/// `retries_done`, where the attempts end as `outcomes` says, one outcome for
/// each attempt in turn.
pub open spec fn retries_made(
    policy: RetryPolicy,
    outcomes: Seq<HttpOutcomeView>,
    retries_done: nat,
) -> nat
    decreases policy.max_retries - retries_done,
{
    if retries_done < policy.max_retries && retries_done < outcomes.len() && spec_is_transient(
        outcomes[retries_done as int],
    ) {
        retries_made(policy, outcomes, retries_done + 1)
    } else {
        retries_done
    }
}

/// Whatever the attempts bring, a request ends: after at most `max_retries`
/// retries, at the first outcome that is not worth another attempt, or else
/// at the last attempt that the policy allows. Every attempt before that one
/// was retried, and the outcome of that one is what the request ends with.
pub proof fn lemma_request_ends(policy: RetryPolicy, outcomes: Seq<HttpOutcomeView>)
    requires
        outcomes.len() > policy.max_retries,
    ensures
        ({
            let last = retries_made(policy, outcomes, 0);
            &&& last <= policy.max_retries
            &&& policy.step_after(last as u32, outcomes[last as int]) == Step::Finish
            &&& last < policy.max_retries ==> !spec_is_transient(outcomes[last as int])
            &&& forall|i: nat|
                i < last ==> spec_is_transient(outcomes[i as int]) && #[trigger] policy.step_after(
                    i as u32,
                    outcomes[i as int],
                ) is Retry
        }),
{
    lemma_request_ends_from(policy, outcomes, 0);
}

proof fn lemma_request_ends_from(policy: RetryPolicy, outcomes: Seq<HttpOutcomeView>, from: nat)
    requires
        outcomes.len() > policy.max_retries,
        from <= policy.max_retries,
    ensures
        ({
            let last = retries_made(policy, outcomes, from);
            &&& from <= last <= policy.max_retries
            &&& policy.step_after(last as u32, outcomes[last as int]) == Step::Finish
            &&& last < policy.max_retries ==> !spec_is_transient(outcomes[last as int])
            &&& forall|i: nat|
                from <= i < last ==> spec_is_transient(outcomes[i as int])
                    && #[trigger] policy.step_after(i as u32, outcomes[i as int]) is Retry
        }),
    decreases policy.max_retries - from,
{
    if from < policy.max_retries && spec_is_transient(outcomes[from as int]) {
        lemma_request_ends_from(policy, outcomes, from + 1);
    }
}

/// Two failures worth another attempt and then an outcome that is not: with
/// two retries or more to spend, the request ends with the third outcome.
pub proof fn lemma_third_attempt_counts(policy: RetryPolicy, outcomes: Seq<HttpOutcomeView>)
    requires
        policy.max_retries >= 2,
        outcomes.len() >= 3,
        spec_is_transient(outcomes[0]),
        spec_is_transient(outcomes[1]),
        !spec_is_transient(outcomes[2]),
    ensures
        retries_made(policy, outcomes, 0) == 2,
{
    reveal_with_fuel(retries_made, 4);
}

/// Failures worth another attempt all the way: the request ends with the
/// outcome of the last attempt that the policy allows.
pub proof fn lemma_budget_spent(policy: RetryPolicy, outcomes: Seq<HttpOutcomeView>)
    requires
        outcomes.len() > policy.max_retries,
        forall|i: int| 0 <= i < outcomes.len() ==> spec_is_transient(#[trigger] outcomes[i]),
    ensures
        retries_made(policy, outcomes, 0) == policy.max_retries,
{
    lemma_request_ends(policy, outcomes);
}

} // verus!
