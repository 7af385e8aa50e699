use vstd::prelude::*;

verus! {

/// A state that controls the flow of data.
#[derive(Debug, PartialEq, Eq)]
pub enum State<T> {
    /// The control flow should exit with a value.
    Success(T),
    /// The control flow should retry if possible.
    Retry,
    /// The control flow should exit immediately.
    Stop,
}

/// Why a transaction did not produce a value.
#[derive(Debug, Clone, Copy, PartialEq, Eq)]
pub enum StateError {
    /// A transient failure: the transaction may be attempted again.
    Retry,
    /// A final failure, or a submission that a newer one superseded.
    Cancelled,
    /// The retry budget was spent on transient failures.
    ExceededMaxRetries,
}

/// The result of one attempt of a transaction.
pub type StateResult<T> = Result<T, StateError>;

impl<T> State<T> {
    /// Maps the value if `self` is [`State::Success`].
    pub fn map<F, R>(self, f: F) -> (r: State<R>) where F: FnOnce(T) -> R
        requires
            self matches State::Success(v) ==> f.requires((v,)),
        ensures
            match self {
                State::Success(v) => r matches State::Success(w) && f.ensures((v,), w),
                State::Retry => r is Retry,
                State::Stop => r is Stop,
            },
    {
        match self {
            State::Success(value) => State::Success(f(value)),
            State::Retry => State::Retry,
            State::Stop => State::Stop,
        }
    }

    /// Replaces `self` with a same-typed [`State`] if `self` is [`State::Success`].
    pub fn replace(self, state: Self) -> (r: Self)
        ensures
            r == match self {
                State::Success(_) => state,
                State::Retry => State::Retry,
                State::Stop => State::Stop,
            },
    {
        match self {
            State::Success(_) => state,
            State::Retry => State::Retry,
            State::Stop => State::Stop,
        }
    }
}

/// The retry counter after one more attempt; it stays at the top of its range.
pub open spec fn next_retry(retry: u8) -> u8 {
    if retry < u8::MAX {
        (retry + 1) as u8
    } else {
        u8::MAX
    }
}

/// Counts one more retry and decides whether it is allowed under `max_retries`.
///
/// The count goes up by one; the retry is allowed when the new count does not
/// exceed `max_retries`, and refused with `Err(())` otherwise.
pub fn retry_if_possible(retry: &mut u8, max_retries: u8) -> (r: Result<(), ()>)
    ensures
        *final(retry) == next_retry(*old(retry)),
        r is Ok <==> *old(retry) + 1 <= max_retries,
{
    if *retry >= max_retries {
        *retry = if *retry < u8::MAX { *retry + 1 } else { u8::MAX };
        Err(())
    } else {
        *retry = *retry + 1;
        Ok(())
    }
}

} // verus!
