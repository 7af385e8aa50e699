//! Properties of the runner that relate several of its steps.

use vstd::prelude::*;

use crate::framework::queued_async::{
    concluded, is_stale, next_generation, submitted, RunSession, Step,
};
use crate::framework::state::{next_retry, StateError};

verus! {

/// The number of attempts and the last step of a run whose every attempt returns
/// `Retry`, given at most `fuel` attempts; a run still going after `fuel`
/// attempts ends in [`Step::Again`].
pub open spec fn retrying_run(s: RunSession, latest: u8, fuel: nat) -> (nat, Step<()>)
    decreases fuel,
{
    if fuel == 0 {
        (0, Step::Again)
    } else {
        let (s2, latest2, step) = concluded::<()>(s, Err(StateError::Retry), latest);
        if step is Again {
            let (n, last) = retrying_run(s2, latest2, (fuel - 1) as nat);
            (n + 1, last)
        } else {
            (1, step)
        }
    }
}

proof fn retrying_run_from(s: RunSession, latest: u8, fuel: nat)
    requires
        s.retry <= s.max_retries,
    ensures
        fuel > s.max_retries - s.retry ==> retrying_run(s, latest, fuel) == (
            (s.max_retries - s.retry + 1) as nat,
            Step::<()>::Done(Err(StateError::ExceededMaxRetries)),
        ),
        fuel <= s.max_retries - s.retry ==> retrying_run(s, latest, fuel) == (fuel, Step::<()>::Again),
    decreases fuel,
{
    if fuel > 0 && s.retry < s.max_retries {
        let s2 = RunSession { retry: next_retry(s.retry), ..s };
        retrying_run_from(s2, latest, (fuel - 1) as nat);
    }
}

/// A run that receives `Retry` from every attempt finishes with
/// [`StateError::ExceededMaxRetries`] after exactly `max_retries + 1` attempts,
/// the first attempt and `max_retries` retries; with fewer attempts it is
/// still asking for another.
pub proof fn retry_budget_is_exact(max_retries: u8, latest: u8, fuel: nat)
    ensures
        fuel > max_retries ==> retrying_run(submitted(max_retries, latest), next_generation(latest), fuel)
            == ((max_retries + 1) as nat, Step::<()>::Done(Err(StateError::ExceededMaxRetries))),
        fuel <= max_retries ==> retrying_run(
            submitted(max_retries, latest),
            next_generation(latest),
            fuel,
        ) == (fuel, Step::<()>::Again),
{
    retrying_run_from(submitted(max_retries, latest), next_generation(latest), fuel);
}

/// A `Cancelled` outcome finishes the run with `Cancelled` and leaves the retry
/// count and the key's counter as they were: no retry is spent on it.
pub proof fn cancellation_spends_no_retry<T>(s: RunSession, latest: u8)
    ensures
        concluded::<T>(s, Err(StateError::Cancelled), latest) == (
            s,
            latest,
            Step::<T>::Done(Err(StateError::Cancelled)),
        ),
{
}

/// After a run finishes with a value, the key's counter is 0, and the next
/// submission for the key receives generation index 0.
pub proof fn success_resets_generation<T>(s: RunSession, v: T, latest: u8, max_retries: u8)
    requires
        concluded::<T>(s, Ok(v), latest).2 == Step::<T>::Done(Ok(v)),
    ensures
        concluded::<T>(s, Ok(v), latest).1 == 0,
        submitted(max_retries, concluded::<T>(s, Ok(v), latest).1).index == 0,
{
}

/// Of three submissions in a row for one key, with no success in between and no
/// wrap of the counter before the third, the first two are stale once the third
/// is accepted: each of their checks and each value they return is cancelled,
/// and only the third can finish with a value. Once it has, and has reset the
/// counter, the first two are still stale.
pub proof fn latest_submission_wins<T>(start: u8, max_retries: u8, v: T)
    requires
        start <= 253,
    ensures
        ({
            let g0 = start;
            let g1 = next_generation(g0);
            let g2 = next_generation(g1);
            let latest = next_generation(g2);
            &&& is_stale(g0, latest)
            &&& is_stale(g1, latest)
            &&& !is_stale(g2, latest)
            &&& concluded::<T>(submitted(max_retries, g0), Ok(v), latest).2 == Step::<T>::Done(
                Err(StateError::Cancelled),
            )
            &&& concluded::<T>(submitted(max_retries, g1), Ok(v), latest).2 == Step::<T>::Done(
                Err(StateError::Cancelled),
            )
            &&& concluded::<T>(submitted(max_retries, g2), Ok(v), latest) == (
                submitted(max_retries, g2),
                0u8,
                Step::<T>::Done(Ok(v)),
            )
            &&& is_stale(g0, 0)
            &&& is_stale(g1, 0)
        }),
{
}

} // verus!
