use bringup::association::AssociationAttempt;
use bringup::association::AssociationRun;
use bringup::association::AssociationStep;
use bringup::association::AttemptOutcome;
use bringup::association::LinkCheck;
use bringup::association::attempt_association;
use bringup::errors::AssociationError;

fn outcomes_with_success_at(k: usize, n: usize, diagnostic: LinkCheck) -> Vec<AttemptOutcome> {
    let mut v = vec![AttemptOutcome::Failed; n];
    v[k] = AttemptOutcome::Succeeded(diagnostic);
    v
}

#[test]
fn success_after_three_failures_counts_attempts_and_delays() {
    let outcomes = outcomes_with_success_at(3, 10, LinkCheck::Confirmed);
    let run: AssociationRun = attempt_association(&outcomes, 10, 5000);
    assert_eq!(run.result, Ok(LinkCheck::Confirmed));
    assert_eq!(run.attempts, 4);
    assert_eq!(run.delays, 3);
}

#[test]
fn success_on_first_attempt_waits_no_delay() {
    let outcomes = outcomes_with_success_at(0, 10, LinkCheck::Confirmed);
    let run = attempt_association(&outcomes, 10, 5000);
    assert_eq!(run.result, Ok(LinkCheck::Confirmed));
    assert_eq!(run.attempts, 1);
    assert_eq!(run.delays, 0);
}

#[test]
fn success_on_last_allowed_attempt_connects() {
    let outcomes = outcomes_with_success_at(9, 10, LinkCheck::Confirmed);
    let run = attempt_association(&outcomes, 10, 5000);
    assert_eq!(run.result, Ok(LinkCheck::Confirmed));
    assert_eq!(run.attempts, 10);
    assert_eq!(run.delays, 9);
}

#[test]
fn all_attempts_failing_exhausts_after_n_attempts_and_n_minus_one_delays() {
    let outcomes = vec![AttemptOutcome::Failed; 10];
    let run = attempt_association(&outcomes, 10, 5000);
    assert_eq!(run.result, Err(AssociationError::Exhausted));
    assert_eq!(run.attempts, 10);
    assert_eq!(run.delays, 9);
}

#[test]
fn single_allowed_attempt_failing_exhausts_without_delay() {
    let outcomes = vec![AttemptOutcome::Failed];
    let run = attempt_association(&outcomes, 1, 5000);
    assert_eq!(run.result, Err(AssociationError::Exhausted));
    assert_eq!(run.attempts, 1);
    assert_eq!(run.delays, 0);
}

#[test]
fn doubtful_link_diagnostic_still_connects() {
    let outcomes = outcomes_with_success_at(0, 1, LinkCheck::NotConfirmed);
    let run = attempt_association(&outcomes, 1, 5000);
    assert_eq!(run.result, Ok(LinkCheck::NotConfirmed));

    let outcomes = outcomes_with_success_at(0, 1, LinkCheck::QueryFailed);
    let run = attempt_association(&outcomes, 1, 5000);
    assert_eq!(run.result, Ok(LinkCheck::QueryFailed));
}

#[test]
fn record_failure_retries_with_configured_delay_until_exhausted() {
    let mut state = AssociationAttempt::new(3, 700);
    assert_eq!(state.attempt_number, 0);
    assert_eq!(state.record_failure(), AssociationStep::RetryAfter { delay: 700 });
    assert_eq!(state.attempt_number, 1);
    assert_eq!(state.record_failure(), AssociationStep::RetryAfter { delay: 700 });
    assert_eq!(state.record_failure(), AssociationStep::Exhausted);
    assert_eq!(state.attempt_number, 3);
}

#[test]
fn record_success_connects_and_carries_the_diagnostic() {
    let mut state = AssociationAttempt::new(3, 700);
    assert_eq!(state.record_failure(), AssociationStep::RetryAfter { delay: 700 });
    assert_eq!(
        state.record_success(LinkCheck::Confirmed),
        AssociationStep::Connected { diagnostic: LinkCheck::Confirmed }
    );
    assert_eq!(state.attempt_number, 2);
}
