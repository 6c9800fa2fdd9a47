use vstd::prelude::*;

verus! {

/// Attempts that a submission makes at most.
pub const MAX_ATTEMPTS: u32 = 3;

/// Wait, in milliseconds, after the first failed attempt; each later wait is
/// twice the one before.
pub const INITIAL_BACKOFF_MS: u64 = 250;

/// What one attempt to submit a signed request came to.
#[derive(Debug, Clone, Copy, PartialEq, Eq, Structural)]
pub enum AttemptOutcome {
    /// The request was confirmed.
    Confirmed,
    /// The request did not reach the ledger or was not confirmed.
    TransportFailure,
    /// The ledger refused the request for the state it found.
    Rejected,
}

/// Why a submission failed.
#[derive(Debug, Clone, Copy, PartialEq, Eq, Structural)]
pub enum SubmitError {
    /// The ledger refused the request; it was not tried again.
    Rejected,
    /// Every attempt failed in transport.
    Exhausted,
}

/// What the submitter does after an attempt.
#[derive(Debug, Clone, Copy, PartialEq, Eq, Structural)]
pub enum SubmitStep {
    /// The submission succeeded.
    Done,
    /// Wait this many milliseconds, then sign anew and try again.
    RetryAfter(u64),
    /// The submission failed.
    Fail(SubmitError),
}

/// The wait after the `n`-th failed attempt: 250 ms, doubled each time.
pub open spec fn backoff_ms(n: nat) -> nat
    decreases n,
{
    if n <= 1 {
        INITIAL_BACKOFF_MS as nat
    } else {
        2 * backoff_ms((n - 1) as nat)
    }
}

/// The step that follows the `n`-th attempt when it came to `outcome`.
pub open spec fn step_after(n: nat, outcome: AttemptOutcome) -> SubmitStep {
    match outcome {
        AttemptOutcome::Confirmed => SubmitStep::Done,
        AttemptOutcome::Rejected => SubmitStep::Fail(SubmitError::Rejected),
        AttemptOutcome::TransportFailure => if n < MAX_ATTEMPTS {
            SubmitStep::RetryAfter(backoff_ms(n) as u64)
        } else {
            SubmitStep::Fail(SubmitError::Exhausted)
        },
    }
}

/// The course of one submission: how many attempts it has made.
#[derive(Debug, Clone, Copy)]
pub struct Submission {
    pub attempts: u32,
}

impl Submission {
    /// A submission that has made no attempt yet.
    pub fn new() -> (r: Submission)
        ensures
            r.attempts == 0,
    {
        Submission { attempts: 0 }
    }

    /// Records the outcome of the next attempt and says what to do next.
    pub fn record(&mut self, outcome: AttemptOutcome) -> (r: SubmitStep)
        requires
            old(self).attempts < MAX_ATTEMPTS,
        ensures
            final(self).attempts == old(self).attempts + 1,
            r == step_after(final(self).attempts as nat, outcome),
    {
        self.attempts = self.attempts + 1;
        match outcome {
            AttemptOutcome::Confirmed => SubmitStep::Done,
            AttemptOutcome::Rejected => SubmitStep::Fail(SubmitError::Rejected),
            AttemptOutcome::TransportFailure => {
                if self.attempts < MAX_ATTEMPTS {
                    let mut wait: u64 = INITIAL_BACKOFF_MS;
                    let mut k: u32 = 1;
                    while k < self.attempts
                        invariant
                            1 <= k <= self.attempts < MAX_ATTEMPTS,
                            wait as nat == backoff_ms(k as nat),
                            wait <= 500,
                        decreases self.attempts - k,
                    {
                        wait = wait * 2;
                        k = k + 1;
                    }
                    SubmitStep::RetryAfter(wait)
                } else {
                    SubmitStep::Fail(SubmitError::Exhausted)
                }
            },
        }
    }
}

/// How a submission ends when its attempts come to `outcomes` in turn,
/// starting after `made` attempts: the result and the number of attempts
/// made in all. An attempt is made only while the steps ask for one.
pub open spec fn run_from(outcomes: Seq<AttemptOutcome>, made: nat) -> (Result<(), SubmitError>, nat)
    decreases outcomes.len(),
{
    if outcomes.len() == 0 || made >= MAX_ATTEMPTS {
        (Err(SubmitError::Exhausted), made)
    } else {
        match step_after(made + 1, outcomes[0]) {
            SubmitStep::Done => (Ok(()), made + 1),
            SubmitStep::Fail(e) => (Err(e), made + 1),
            SubmitStep::RetryAfter(_) => run_from(outcomes.drop_first(), made + 1),
        }
    }
}

/// A submission never makes more than three attempts, whatever its attempts
/// come to; when each of them fails in transport it makes exactly three and
/// fails as exhausted.
pub proof fn lemma_attempts_capped(outcomes: Seq<AttemptOutcome>)
    ensures
        run_from(outcomes, 0).1 <= MAX_ATTEMPTS,
        outcomes.len() >= MAX_ATTEMPTS && (forall|i: int|
            0 <= i < MAX_ATTEMPTS ==> #[trigger] outcomes[i] == AttemptOutcome::TransportFailure)
            ==> run_from(outcomes, 0) == (Err::<(), SubmitError>(SubmitError::Exhausted), 3nat),
{
    lemma_run_capped(outcomes, 0);
    if outcomes.len() >= MAX_ATTEMPTS && (forall|i: int|
        0 <= i < MAX_ATTEMPTS ==> #[trigger] outcomes[i] == AttemptOutcome::TransportFailure) {
        let o1 = outcomes.drop_first();
        let o2 = o1.drop_first();
        let o3 = o2.drop_first();
        assert(outcomes[0] == AttemptOutcome::TransportFailure);
        assert(o1[0] == outcomes[1] && outcomes[1] == AttemptOutcome::TransportFailure);
        assert(o2[0] == outcomes[2] && outcomes[2] == AttemptOutcome::TransportFailure);
        assert(step_after(3, o2[0]) == SubmitStep::Fail(SubmitError::Exhausted));
        assert(run_from(o2, 2) == (Err::<(), SubmitError>(SubmitError::Exhausted), 3nat));
        assert(step_after(2, o1[0]) is RetryAfter);
        assert(run_from(o1, 1) == run_from(o2, 2));
        assert(step_after(1, outcomes[0]) is RetryAfter);
        assert(run_from(outcomes, 0) == run_from(o1, 1));
    }
}

/// A submission whose first two attempts fail in transport and whose third is
/// confirmed succeeds after exactly three attempts.
pub proof fn lemma_success_on_third_attempt(outcomes: Seq<AttemptOutcome>)
    requires
        outcomes.len() >= 3,
        outcomes[0] == AttemptOutcome::TransportFailure,
        outcomes[1] == AttemptOutcome::TransportFailure,
        outcomes[2] == AttemptOutcome::Confirmed,
    ensures
        run_from(outcomes, 0) == (Ok::<(), SubmitError>(()), 3nat),
{
    let o1 = outcomes.drop_first();
    let o2 = o1.drop_first();
    assert(o1[0] == outcomes[1] && o2[0] == outcomes[2]);
    assert(run_from(o2, 2) == (Ok::<(), SubmitError>(()), 3nat));
    assert(step_after(2, o1[0]) is RetryAfter);
    assert(run_from(o1, 1) == run_from(o2, 2));
    assert(step_after(1, outcomes[0]) is RetryAfter);
    assert(run_from(outcomes, 0) == run_from(o1, 1));
}

proof fn lemma_run_capped(outcomes: Seq<AttemptOutcome>, made: nat)
    requires
        made <= MAX_ATTEMPTS,
    ensures
        run_from(outcomes, made).1 <= MAX_ATTEMPTS,
    decreases outcomes.len(),
{
    if outcomes.len() > 0 && made < MAX_ATTEMPTS {
        lemma_run_capped(outcomes.drop_first(), made + 1);
    }
}

} // verus!
