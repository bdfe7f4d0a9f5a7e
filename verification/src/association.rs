//! Bounded-retry wireless association.
//!
//! [`AssociationAttempt`] counts the association requests issued so
//! far against a configured maximum.  One request's outcome is handed
//! back as a plain value: [`AssociationAttempt::record_success`] ends
//! the bring-up with `Connected`, [`AssociationAttempt::record_failure`]
//! decides between one more retry (after the configured delay) and
//! giving up for good.  [`attempt_association`] runs the whole bounded
//! retry over a sequence of request outcomes, as an embedding runs it
//! over live radio requests.

use vstd::prelude::*;
use crate::errors::AssociationError;

verus! {

/// The retry bookkeeping of one bring-up.  Created fresh per bring-up
/// and discarded on success or exhaustion.
pub struct AssociationAttempt {
    /// Association requests issued so far.
    pub attempt_number: usize,
    /// Requests allowed in all.  At least one.
    pub max_attempts: usize,
    /// Milliseconds to suspend between a failed request and the next.
    pub retry_delay: u64,
}

/// The diagnostic answer of the link-level connectivity query made
/// right after a request completes successfully.  It is reported, but
/// a doubtful answer does not itself fail the association.
#[derive(Clone, Copy, PartialEq, Eq, Structural, Debug)]
pub enum LinkCheck {
    /// The query confirmed the link.
    Confirmed,
    /// The query completed and reported no link.  Logged as a warning;
    /// the bring-up proceeds as connected anyway.
    NotConfirmed,
    /// The query itself errored.  Logged; the bring-up proceeds.
    QueryFailed,
}

/// What one recorded request outcome leads to.
#[derive(Clone, Copy, PartialEq, Eq, Structural, Debug)]
pub enum AssociationStep {
    /// The association stands; the bring-up moves on.
    Connected { diagnostic: LinkCheck },
    /// Suspend for this many milliseconds, then issue the next request.
    RetryAfter { delay: u64 },
    /// Every allowed request failed.  Fatal to the bring-up.
    Exhausted,
}

/// The outcome of one association request, as an embedding observed it.
#[derive(Clone, Copy, PartialEq, Eq, Structural, Debug)]
pub enum AttemptOutcome {
    /// The request completed, with the diagnostic link query's answer.
    Succeeded(LinkCheck),
    /// The request errored.
    Failed,
}

/// What one whole bounded-retry association produced.
pub struct AssociationRun {
    /// The diagnostic of the connecting attempt, or exhaustion.
    pub result: Result<LinkCheck, AssociationError>,
    /// Association requests issued.
    pub attempts: usize,
    /// Retry delays waited through.
    pub delays: usize,
}

impl AssociationAttempt {
    /// The counter never passes the configured maximum, which is at
    /// least one.
    pub open spec fn wf(self) -> bool {
        &&& 1 <= self.max_attempts
        &&& self.attempt_number <= self.max_attempts
    }

    /// Fresh bookkeeping: no request issued yet.
    pub fn new(max_attempts: usize, retry_delay: u64) -> (r: AssociationAttempt)
        requires
            1 <= max_attempts,
        ensures
            r == (AssociationAttempt { attempt_number: 0, max_attempts, retry_delay }),
            r.wf(),
    {
        AssociationAttempt { attempt_number: 0, max_attempts, retry_delay }
    }

    /// Records a request that completed successfully, with the answer
    /// of the diagnostic link query.  The association always stands:
    /// a doubtful diagnostic is carried along for reporting only.
    pub fn record_success(&mut self, diagnostic: LinkCheck) -> (r: AssociationStep)
        requires
            old(self).wf(),
            old(self).attempt_number < old(self).max_attempts,
        ensures
            final(self).wf(),
            *final(self) == (AssociationAttempt {
                attempt_number: (old(self).attempt_number + 1) as usize,
                ..*old(self)
            }),
            r == (AssociationStep::Connected { diagnostic }),
    {
        self.attempt_number = self.attempt_number + 1;
        AssociationStep::Connected { diagnostic }
    }

    /// Records a request that errored: one more request follows after
    /// the retry delay if the maximum allows it, otherwise the
    /// association is exhausted.
    pub fn record_failure(&mut self) -> (r: AssociationStep)
        requires
            old(self).wf(),
            old(self).attempt_number < old(self).max_attempts,
        ensures
            final(self).wf(),
            *final(self) == (AssociationAttempt {
                attempt_number: (old(self).attempt_number + 1) as usize,
                ..*old(self)
            }),
            r == (if old(self).attempt_number + 1 == old(self).max_attempts {
                AssociationStep::Exhausted
            } else {
                AssociationStep::RetryAfter { delay: old(self).retry_delay }
            }),
    {
        self.attempt_number = self.attempt_number + 1;
        if self.attempt_number == self.max_attempts {
            AssociationStep::Exhausted
        } else {
            AssociationStep::RetryAfter { delay: self.retry_delay }
        }
    }
}

/// The first `k` request outcomes all failed.
pub open spec fn all_failed_before(outcomes: Seq<AttemptOutcome>, k: int) -> bool {
    forall|i: int| 0 <= i < k ==> (#[trigger] outcomes[i]) is Failed
}

/// Runs one whole bounded-retry association over the outcomes of the
/// requests, as an embedding runs it over live requests.
///
/// If the first `k < max_attempts` requests fail and request `k + 1`
/// succeeds, the run connects having issued exactly `k + 1` requests
/// and waited `k` retry delays; if all `max_attempts` requests fail,
/// it exhausts after exactly `max_attempts` requests and
/// `max_attempts - 1` delays.
pub fn attempt_association(
    outcomes: &Vec<AttemptOutcome>,
    max_attempts: usize,
    retry_delay: u64,
) -> (r: AssociationRun)
    requires
        1 <= max_attempts,
        max_attempts <= outcomes@.len(),
    ensures
        forall|k: int|
            0 <= k < max_attempts
                && (#[trigger] outcomes@[k]) is Succeeded
                && all_failed_before(outcomes@, k)
            ==> r.result == Ok::<LinkCheck, AssociationError>(outcomes@[k]->0)
                && r.attempts == k + 1
                && r.delays == k,
        all_failed_before(outcomes@, max_attempts as int)
            ==> r.result == Err::<LinkCheck, AssociationError>(AssociationError::Exhausted)
                && r.attempts == max_attempts
                && r.delays == max_attempts - 1,
{
    let mut state = AssociationAttempt::new(max_attempts, retry_delay);
    let mut delays: usize = 0;
    loop
        invariant
            1 <= max_attempts,
            max_attempts <= outcomes@.len(),
            state.wf(),
            state.max_attempts == max_attempts,
            state.retry_delay == retry_delay,
            state.attempt_number < max_attempts,
            delays == state.attempt_number,
            all_failed_before(outcomes@, state.attempt_number as int),
        decreases max_attempts - state.attempt_number,
    {
        let i = state.attempt_number;
        match outcomes[i] {
            AttemptOutcome::Succeeded(diagnostic) => {
                let _step = state.record_success(diagnostic);
                proof {
                    assert(outcomes@[i as int] is Succeeded);
                }
                return AssociationRun {
                    result: Ok(diagnostic),
                    attempts: state.attempt_number,
                    delays,
                };
            }
            AttemptOutcome::Failed => {
                let step = state.record_failure();
                match step {
                    AssociationStep::Exhausted => {
                        proof {
                            assert(all_failed_before(outcomes@, max_attempts as int));
                        }
                        return AssociationRun {
                            result: Err(AssociationError::Exhausted),
                            attempts: state.attempt_number,
                            delays,
                        };
                    }
                    _ => {
                        delays = delays + 1;
                    }
                }
            }
        }
    }
}

} // verus!
