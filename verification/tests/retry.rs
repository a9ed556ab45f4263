use dyndns::retry::{
    retry_indefinitely, retry_times, RetryDecision, RetryPolicy, RetryState, RetryRun,
    BOUNDED_RETRY_DELAY_SECS, INDEFINITE_RETRY_DELAY_SECS,
};

#[test]
fn bounded_always_failing_makes_budget_plus_one_attempts() {
    let outcomes = vec![false, false, false, false, false];
    let run = retry_times(3, &outcomes);
    assert_eq!(run, RetryRun { succeeded: false, attempts: 4 });
}

#[test]
fn bounded_zero_budget_makes_one_attempt() {
    let outcomes = vec![false];
    let run = retry_times(0, &outcomes);
    assert_eq!(run, RetryRun { succeeded: false, attempts: 1 });

    let outcomes = vec![true];
    let run = retry_times(0, &outcomes);
    assert_eq!(run, RetryRun { succeeded: true, attempts: 1 });
}

#[test]
fn bounded_success_on_attempt_k_makes_k_attempts() {
    // success on the first attempt
    let outcomes = vec![true, false, false, false];
    assert_eq!(retry_times(3, &outcomes), RetryRun { succeeded: true, attempts: 1 });
    // success on the third of four permitted attempts
    let outcomes = vec![false, false, true, false];
    assert_eq!(retry_times(3, &outcomes), RetryRun { succeeded: true, attempts: 3 });
    // success on the last permitted attempt
    let outcomes = vec![false, false, false, true];
    assert_eq!(retry_times(3, &outcomes), RetryRun { succeeded: true, attempts: 4 });
}

#[test]
fn bounded_success_just_past_the_budget_is_missed() {
    // the operation would succeed on attempt 5, but budget 3 permits only 4
    let outcomes = vec![false, false, false, false, true];
    assert_eq!(retry_times(3, &outcomes), RetryRun { succeeded: false, attempts: 4 });
}

#[test]
fn indefinite_failing_m_times_makes_m_plus_one_attempts() {
    let outcomes = vec![true];
    assert_eq!(retry_indefinitely(&outcomes), 1);

    let outcomes = vec![false, false, false, false, false, false, true];
    assert_eq!(retry_indefinitely(&outcomes), 7);
}

#[test]
fn indefinite_outlasts_any_bounded_budget() {
    // 10 failures before the success: far past the write budget, but the
    // indefinite policy still reaches it
    let mut outcomes = vec![false; 10];
    outcomes.push(true);
    assert_eq!(retry_indefinitely(&outcomes), 11);
}

#[test]
fn state_machine_counts_down_and_gives_up() {
    let mut state = RetryState::new(RetryPolicy::Bounded { budget: 2 });
    assert_eq!(state.on_outcome(false), RetryDecision::SleepAndRetry);
    assert_eq!(state.on_outcome(false), RetryDecision::SleepAndRetry);
    assert_eq!(state.on_outcome(false), RetryDecision::GiveUp);
}

#[test]
fn state_machine_stops_at_first_success() {
    let mut state = RetryState::new(RetryPolicy::Bounded { budget: 2 });
    assert_eq!(state.on_outcome(false), RetryDecision::SleepAndRetry);
    assert_eq!(state.on_outcome(true), RetryDecision::Done);

    let mut state = RetryState::new(RetryPolicy::Indefinite);
    assert_eq!(state.on_outcome(false), RetryDecision::SleepAndRetry);
    assert_eq!(state.on_outcome(false), RetryDecision::SleepAndRetry);
    assert_eq!(state.on_outcome(true), RetryDecision::Done);
}

#[test]
fn delays_match_the_policies() {
    let indefinite = RetryState::new(RetryPolicy::Indefinite);
    assert_eq!(indefinite.delay_secs(), 60);
    assert_eq!(indefinite.delay_secs(), INDEFINITE_RETRY_DELAY_SECS);

    let bounded = RetryState::new(RetryPolicy::Bounded { budget: 3 });
    assert_eq!(bounded.delay_secs(), 5);
    assert_eq!(bounded.delay_secs(), BOUNDED_RETRY_DELAY_SECS);
}
