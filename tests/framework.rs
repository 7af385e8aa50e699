use api_framework::framework::queued_async::{
    is_superseded, Generation, QueuedAsyncFramework, Step,
};
use api_framework::framework::{retry_if_possible, State, StateError};

#[test]
fn map_applies_to_success_only() {
    assert_eq!(State::Success(20).map(|v| v + 1), State::Success(21));
    assert_eq!(State::<i32>::Retry.map(|v| v + 1), State::Retry);
    assert_eq!(State::<i32>::Stop.map(|v| v + 1), State::Stop);
}

#[test]
fn replace_applies_to_success_only() {
    assert_eq!(State::Success(1).replace(State::Success(2)), State::Success(2));
    assert_eq!(State::Success(1).replace(State::Stop), State::Stop);
    assert_eq!(State::<i32>::Retry.replace(State::Success(2)), State::Retry);
    assert_eq!(State::<i32>::Stop.replace(State::Success(2)), State::Stop);
}

#[test]
fn retry_allowed_up_to_the_budget() {
    let mut retry: u8 = 0;
    assert_eq!(retry_if_possible(&mut retry, 2), Ok(()));
    assert_eq!(retry, 1);
    assert_eq!(retry_if_possible(&mut retry, 2), Ok(()));
    assert_eq!(retry, 2);
    assert_eq!(retry_if_possible(&mut retry, 2), Err(()));
    assert_eq!(retry, 3);
}

#[test]
fn retry_with_zero_budget_is_refused() {
    let mut retry: u8 = 0;
    assert_eq!(retry_if_possible(&mut retry, 0), Err(()));
    assert_eq!(retry, 1);
}

#[test]
fn retry_count_stays_at_its_top() {
    let mut retry: u8 = 255;
    assert_eq!(retry_if_possible(&mut retry, 255), Err(()));
    assert_eq!(retry, 255);
    let mut retry: u8 = 254;
    assert_eq!(retry_if_possible(&mut retry, 255), Ok(()));
    assert_eq!(retry, 255);
}

#[test]
fn generation_bumps_and_wraps() {
    let mut generation = Generation::new();
    assert_eq!(generation.bump(), 0);
    assert_eq!(generation.bump(), 1);
    assert_eq!(generation.current(), 2);
    let mut top = Generation { latest: 255 };
    assert_eq!(top.bump(), 255);
    assert_eq!(top.current(), 0);
}

#[test]
fn the_counter_one_past_the_index_is_current() {
    assert!(!is_superseded(3, 4));
    assert!(!is_superseded(3, 3));
    assert!(is_superseded(3, 5));
    assert!(is_superseded(3, 6));
    assert!(!is_superseded(0, 1));
}

#[test]
fn a_reset_counter_supersedes_older_submissions() {
    assert!(is_superseded(0, 0));
    assert!(is_superseded(254, 0));
    assert!(!is_superseded(255, 0));
}

#[test]
fn submit_takes_the_counter_as_index() {
    let framework = QueuedAsyncFramework::new(4);
    let mut generation = Generation { latest: 9 };
    let (context, session) = framework.submit(&mut generation, String::from("deploy"));
    assert_eq!(context.index, 9);
    assert_eq!(context.name, "deploy");
    assert_eq!(session.index, 9);
    assert_eq!(session.retry, 0);
    assert_eq!(session.max_retries, 4);
    assert_eq!(generation.current(), 10);
}

#[test]
fn newest_submission_wins_and_older_ones_are_cancelled() {
    let framework = QueuedAsyncFramework::new(5);
    let mut generation = Generation::new();
    let (first, mut first_run) = framework.submit(&mut generation, String::from("A"));
    let (second, mut second_run) = framework.submit(&mut generation, String::from("A"));
    let (third, mut third_run) = framework.submit(&mut generation, String::from("A"));
    assert_eq!(third.check(&generation, ()), Ok(()));
    assert_eq!(third_run.conclude(Ok(100), &mut generation), Step::Done(Ok(100)));
    assert_eq!(generation.current(), 0);
    assert_eq!(first.check(&generation, ()), Err(StateError::Cancelled));
    assert_eq!(second.check(&generation, ()), Err(StateError::Cancelled));
    assert_eq!(
        first_run.conclude(Ok(1), &mut generation),
        Step::Done(Err(StateError::Cancelled))
    );
    assert_eq!(
        second_run.conclude(Ok(2), &mut generation),
        Step::Done(Err(StateError::Cancelled))
    );
    assert_eq!(generation.current(), 0);
}

#[test]
fn older_submissions_are_stale_before_the_newest_finishes() {
    let framework = QueuedAsyncFramework::new(5);
    let mut generation = Generation::new();
    let (first, _) = framework.submit(&mut generation, String::from("A"));
    assert_eq!(first.check(&generation, 7), Ok(7));
    let (second, _) = framework.submit(&mut generation, String::from("A"));
    assert_eq!(first.check(&generation, 7), Err(StateError::Cancelled));
    assert_eq!(second.check(&generation, 7), Ok(7));
    let (third, _) = framework.submit(&mut generation, String::from("A"));
    assert_eq!(first.check(&generation, 7), Err(StateError::Cancelled));
    assert_eq!(second.check(&generation, 7), Err(StateError::Cancelled));
    assert_eq!(third.check(&generation, 7), Ok(7));
}

#[test]
fn retrying_work_gets_exactly_budget_plus_one_attempts() {
    let framework = QueuedAsyncFramework::new(3);
    let mut generation = Generation::new();
    let (_, mut session) = framework.submit(&mut generation, String::from("single"));
    let mut attempts = 0;
    let result = loop {
        attempts += 1;
        match session.conclude::<()>(Err(StateError::Retry), &mut generation) {
            Step::Again => continue,
            Step::Done(result) => break result,
        }
    };
    assert_eq!(attempts, 4);
    assert_eq!(result, Err(StateError::ExceededMaxRetries));
    assert_eq!(generation.current(), 1);
}

#[test]
fn zero_budget_allows_one_attempt() {
    let framework = QueuedAsyncFramework::new(0);
    let mut generation = Generation::new();
    let (_, mut session) = framework.submit(&mut generation, String::from("once"));
    assert_eq!(
        session.conclude::<()>(Err(StateError::Retry), &mut generation),
        Step::Done(Err(StateError::ExceededMaxRetries))
    );
}

#[test]
fn cancellation_spends_no_retry() {
    let framework = QueuedAsyncFramework::new(5);
    let mut generation = Generation::new();
    let (_, mut session) = framework.submit(&mut generation, String::from("stop"));
    assert_eq!(
        session.conclude::<()>(Err(StateError::Cancelled), &mut generation),
        Step::Done(Err(StateError::Cancelled))
    );
    assert_eq!(session.retry, 0);
    assert_eq!(generation.current(), 1);
}

#[test]
fn success_after_retries_resets_the_counter() {
    let framework = QueuedAsyncFramework::new(5);
    let mut generation = Generation::new();
    let (_, mut session) = framework.submit(&mut generation, String::from("flaky"));
    assert_eq!(session.conclude::<u32>(Err(StateError::Retry), &mut generation), Step::Again);
    assert_eq!(session.retry, 1);
    assert_eq!(session.conclude(Ok(42u32), &mut generation), Step::Done(Ok(42)));
    assert_eq!(generation.current(), 0);
    let (next, _) = framework.submit(&mut generation, String::from("flaky"));
    assert_eq!(next.index, 0);
}
