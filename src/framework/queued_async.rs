//! The superseding runner: each key has a generation counter that every
//! submission bumps, so that the counter stands one past the newest submission's
//! index. A submission whose index lies more than one below the counter has been
//! superseded, and is cancelled when it is checked. Every attempt's outcome goes through [`RunSession::conclude`],
//! which decides whether to attempt again or to finish, and with what.
//!
//! The counter is eight bits wide and wraps from 255 to 0. A counter at 0 reads as
//! "one past 255", so a submission that was accepted before a success reset the
//! counter is judged stale.

use vstd::prelude::*;

use crate::framework::state::{next_retry, retry_if_possible, StateError, StateResult};

verus! {

/// The counter after one more submission: it wraps from 255 to 0.
pub open spec fn next_generation(latest: u8) -> u8 {
    if latest == u8::MAX {
        0
    } else {
        (latest + 1) as u8
    }
}

/// Whether the submission with generation `index` is superseded when the
/// key's counter reads `latest`: the counter is more than one past `index`,
/// reading 0 as one past 255.
pub open spec fn is_stale(index: u8, latest: u8) -> bool {
    if latest == 0 {
        index != u8::MAX
    } else {
        index + 1 < latest
    }
}

/// Decides whether the submission with generation `index` is superseded when the
/// key's counter reads `latest`.
pub fn is_superseded(index: u8, latest: u8) -> (r: bool)
    ensures
        r == is_stale(index, latest),
{
    if latest == 0 {
        index != u8::MAX
    } else {
        index < latest - 1
    }
}

/// The generation counter of one key.
#[derive(Debug, Clone, Copy, PartialEq, Eq)]
pub struct Generation {
    /// The generation that the next submission receives.
    pub latest: u8,
}

impl Generation {
    /// A counter at 0.
    pub fn new() -> (r: Self)
        ensures
            r.latest == 0,
    {
        Generation { latest: 0 }
    }

    /// Takes the next generation index: returns the counter's value and bumps it.
    pub fn bump(&mut self) -> (index: u8)
        ensures
            index == old(self).latest,
            final(self).latest == next_generation(old(self).latest),
    {
        let index = self.latest;
        self.latest = if self.latest == u8::MAX { 0 } else { self.latest + 1 };
        index
    }

    /// Sets the counter back to 0, as a success does.
    pub fn reset(&mut self)
        ensures
            final(self).latest == 0,
    {
        self.latest = 0;
    }

    /// The counter's value.
    pub fn current(&self) -> (r: u8)
        ensures
            r == self.latest,
    {
        self.latest
    }
}

/// Provides extra information for a business run by a [`QueuedAsyncFramework`].
#[derive(Debug, Clone)]
pub struct QueuedAsyncFrameworkContext {
    /// The index of the current business. Can be used to determine if a newer business exists.
    pub index: u8,
    /// The name of the current business. Can be used by loggers to distinguish between businesses.
    pub name: String,
}

impl QueuedAsyncFrameworkContext {
    /// Checks whether a newer business superseded this one, given the key's counter.
    ///
    /// Returns `returning` unchanged when this business is current, and
    /// [`StateError::Cancelled`] when it is stale.
    pub fn check<T>(&self, generation: &Generation, returning: T) -> (r: StateResult<T>)
        ensures
            r == if is_stale(self.index, generation.latest) {
                Err::<T, StateError>(StateError::Cancelled)
            } else {
                Ok(returning)
            },
    {
        if is_superseded(self.index, generation.latest) {
            Err(StateError::Cancelled)
        } else {
            Ok(returning)
        }
    }
}

/// What the runner does after an attempt.
#[derive(Debug, PartialEq, Eq)]
pub enum Step<T> {
    /// Attempt the transaction again, with the same context.
    Again,
    /// Finish the run with this result.
    Done(StateResult<T>),
}

/// The decision state of one run: its generation index and its retry count.
#[derive(Debug, Clone, Copy, PartialEq, Eq)]
pub struct RunSession {
    /// The generation index of this submission.
    pub index: u8,
    /// The retries made so far.
    pub retry: u8,
    /// The retries allowed after the first attempt.
    pub max_retries: u8,
}

/// The session, the key's counter and the step after an attempt with `outcome`,
/// when the counter read `latest`.
pub open spec fn concluded<T>(s: RunSession, outcome: StateResult<T>, latest: u8) -> (
    RunSession,
    u8,
    Step<T>,
) {
    match outcome {
        Ok(v) => if is_stale(s.index, latest) {
            (s, latest, Step::Done(Err(StateError::Cancelled)))
        } else {
            (s, 0, Step::Done(Ok(v)))
        },
        Err(StateError::Retry) => {
            let s2 = RunSession { retry: next_retry(s.retry), ..s };
            if s.retry < s.max_retries {
                (s2, latest, Step::Again)
            } else {
                (s2, latest, Step::Done(Err(StateError::ExceededMaxRetries)))
            }
        },
        Err(e) => (s, latest, Step::Done(Err(e))),
    }
}

impl RunSession {
    /// Interprets the outcome of one attempt.
    ///
    /// A value is accepted only if this submission is not stale; the counter is
    /// then reset to 0. A stale value cancels the run. A `Retry` spends one retry
    /// and asks for another attempt while the budget lasts, and finishes with
    /// [`StateError::ExceededMaxRetries`] once it is spent. Any other error
    /// finishes the run as it is, without touching the retry count.
    pub fn conclude<T>(&mut self, outcome: StateResult<T>, generation: &mut Generation) -> (step:
        Step<T>)
        ensures
            (*final(self), final(generation).latest, step) == concluded(
                *old(self),
                outcome,
                old(generation).latest,
            ),
    {
        match outcome {
            Ok(v) => if is_superseded(self.index, generation.latest) {
                Step::Done(Err(StateError::Cancelled))
            } else {
                generation.reset();
                Step::Done(Ok(v))
            },
            Err(StateError::Retry) => match retry_if_possible(&mut self.retry, self.max_retries) {
                Ok(()) => Step::Again,
                Err(()) => Step::Done(Err(StateError::ExceededMaxRetries)),
            },
            Err(e) => Step::Done(Err(e)),
        }
    }
}

/// The decisions of a framework that runs transactions until the retry budget is
/// spent, a stop is returned, or a value is accepted.
///
/// It ensures that the latest business is the one that completes: each submission
/// takes a generation index, and a business that fell behind is cancelled when it
/// or the runner checks it.
#[derive(Debug, Clone, Copy, PartialEq, Eq)]
pub struct QueuedAsyncFramework {
    /// The retries allowed after the first attempt of each run.
    pub max_retries: u8,
}

/// The context and the session of a submission to a key whose counter reads `latest`.
pub open spec fn submitted(max_retries: u8, latest: u8) -> RunSession {
    RunSession { index: latest, retry: 0, max_retries }
}

impl QueuedAsyncFramework {
    /// Creates a framework with the given retry budget.
    pub fn new(max_retries: u8) -> (r: Self)
        ensures
            r.max_retries == max_retries,
    {
        QueuedAsyncFramework { max_retries }
    }

    /// Accepts a submission: bumps the key's counter and hands out the context
    /// for the business and the session for the runner.
    pub fn submit(&self, generation: &mut Generation, name: String) -> (r: (
        QueuedAsyncFrameworkContext,
        RunSession,
    ))
        ensures
            r.0.index == old(generation).latest,
            r.0.name == name,
            r.1 == submitted(self.max_retries, old(generation).latest),
            final(generation).latest == next_generation(old(generation).latest),
    {
        let index = generation.bump();
        (
            QueuedAsyncFrameworkContext { index, name },
            RunSession { index, retry: 0, max_retries: self.max_retries },
        )
    }
}

} // verus!
