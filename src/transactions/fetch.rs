//! What fetching artifacts and requesting a download come to.

use vstd::prelude::*;

use crate::framework::state::State;
use crate::workflow::artifact::{Artifact, Artifacts};

verus! {

/// How a request for the artifact list ended.
#[derive(Debug, Clone)]
pub enum FetchResponse {
    /// The request could not connect, or timed out.
    Unreachable,
    /// The request failed in another way.
    Failed,
    /// A response came with a status outside the 2xx range.
    Rejected,
    /// A successful response came whose body is not an artifact list.
    Unparsable,
    /// A successful response came with this artifact list.
    Listed(Artifacts),
}

/// Whether a listing is usable: it holds at least one artifact, and exactly
/// `count` of them, by both its total and its list, when `count` is given.
pub open spec fn listing_fits(list: Artifacts, count: Option<u8>) -> bool {
    &&& list.total_count > 0
    &&& list.artifacts.len() > 0
    &&& count is Some ==> list.total_count == count->0 && list.artifacts.len() == count->0
}

/// The state that a fetch comes to: a lost connection or a timeout asks for a
/// retry; a usable listing succeeds with its artifacts; every other end stops.
pub open spec fn fetched(response: FetchResponse, count: Option<u8>) -> State<Vec<Artifact>> {
    match response {
        FetchResponse::Unreachable => State::Retry,
        FetchResponse::Listed(list) => if listing_fits(list, count) {
            State::Success(list.artifacts)
        } else {
            State::Stop
        },
        _ => State::Stop,
    }
}

/// Decides what a fetch of the artifact list comes to, given how the request
/// ended and how many artifacts are expected, if that is known.
pub fn select_artifacts(response: FetchResponse, count: Option<u8>) -> (r: State<Vec<Artifact>>)
    ensures
        r == fetched(response, count),
{
    match response {
        FetchResponse::Unreachable => State::Retry,
        FetchResponse::Failed => State::Stop,
        FetchResponse::Rejected => State::Stop,
        FetchResponse::Unparsable => State::Stop,
        FetchResponse::Listed(list) => {
            if list.total_count == 0 || list.artifacts.len() == 0 {
                State::Stop
            } else {
                match count {
                    Some(expected) => if list.total_count != expected
                        || list.artifacts.len() != expected as usize {
                        State::Stop
                    } else {
                        State::Success(list.artifacts)
                    },
                    None => State::Success(list.artifacts),
                }
            }
        },
    }
}

/// Takes the only artifact out of a fetch that expected one: the first artifact
/// of a successful fetch, and a stop where the list is empty.
pub fn single_artifact(fetched: State<Vec<Artifact>>) -> (r: State<Artifact>)
    ensures
        r == match fetched {
            State::Success(list) => if list.len() > 0 {
                State::Success(list[0])
            } else {
                State::Stop
            },
            State::Retry => State::Retry,
            State::Stop => State::Stop,
        },
{
    match fetched {
        State::Success(mut list) => if list.len() > 0 {
            State::Success(list.remove(0))
        } else {
            State::Stop
        },
        State::Retry => State::Retry,
        State::Stop => State::Stop,
    }
}

/// The HTTP status that marks an artifact as expired or removed.
pub const GONE: u16 = 410;

/// Decides what a failed download request comes to, given the HTTP status it
/// carried, if any: an artifact that is gone stops; any other failure asks for
/// a retry.
pub fn download_failure<T>(status: Option<u16>) -> (r: State<T>)
    ensures
        status == Some(GONE) ==> r is Stop,
        status != Some(GONE) ==> r is Retry,
{
    match status {
        Some(code) => if code == GONE {
            State::Stop
        } else {
            State::Retry
        },
        None => State::Retry,
    }
}

} // verus!
