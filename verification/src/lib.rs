//! Client-side logic for a proxy's local control channel.
//!
//! The client sends one control request over a length-framed duplex channel
//! and reads status-tagged responses until a terminal one arrives, or batches
//! many requests into a single bulk load through a staging file. This crate
//! holds the decisions of that exchange: the status loop's state machine, the
//! connect-retry policy, the connection-health rules a generic pool needs,
//! and the staging-file format. The channel itself, the socket I/O and the
//! pool live outside and drive these decisions event by event.

use vstd::prelude::*;

pub mod batch;
pub mod channel;
pub mod ext;
pub mod protocol;
pub mod socket;

use crate::protocol::{
    outcome, valid_status, Envelope, Step, STATUS_FAILURE, STATUS_OK, STATUS_PROCESSING,
};

verus! {

/// A terminal protocol failure as the caller sees it.
#[derive(Debug)]
pub enum Error<B> {
    /// A response carried a status code the protocol does not know.
    InvalidStatusCode(i32),
    /// The proxy itself answered with a failure; its full response is kept so
    /// the caller can inspect the reason.
    Failure(Envelope<B>),
}

/// The caller-facing verdict of a terminal step: the successful response, or
/// one typed error.
pub open spec fn verdict_of<B>(s: Step<B>) -> Option<Result<Envelope<B>, Error<B>>> {
    match s {
        Step::Continue => None,
        Step::Success(e) => Some(Ok(e)),
        Step::RemoteFailure(e) => Some(Err(Error::Failure(e))),
        Step::InvalidStatus(c) => Some(Err(Error::InvalidStatusCode(c))),
    }
}

impl<B> Step<B> {
    /// Turns a step into the caller-facing verdict; only a progress step has
    /// none.
    pub fn into_verdict(self) -> (r: Option<Result<Envelope<B>, Error<B>>>)
        ensures
            r == verdict_of(self),
    {
        match self {
            Step::Continue => None,
            Step::Success(e) => Some(Ok(e)),
            Step::RemoteFailure(e) => Some(Err(Error::Failure(e))),
            Step::InvalidStatus(c) => Some(Err(Error::InvalidStatusCode(c))),
        }
    }
}

/// What a whole exchange returns to the caller once the responses are known:
/// `None` while no terminal response has arrived, otherwise exactly one
/// terminal outcome.
pub open spec fn exchange_verdict<B>(resps: Seq<Envelope<B>>) -> Option<
    Result<Envelope<B>, Error<B>>,
> {
    match outcome(resps) {
        None => None,
        Some(s) => verdict_of(s),
    }
}

/// Runs the status loop over a collected response sequence and maps its
/// terminal step to the caller-facing result.
pub fn exchange_result<B>(resps: Vec<Envelope<B>>) -> (r: Option<
    Result<Envelope<B>, Error<B>>,
>)
    ensures
        r == exchange_verdict(resps@),
        r is Some <==> outcome(resps@) is Some,
{
    proof {
        crate::protocol::lemma_outcome_not_continue(resps@);
    }
    match crate::protocol::interpret(resps) {
        None => None,
        Some(s) => s.into_verdict(),
    }
}

/// For every sequence of progress responses followed by one `Ok` response,
/// the exchange returns exactly that final response as its success — it
/// never returns early on a progress update.
pub proof fn lemma_exchange_processing_then_ok<B>(resps: Seq<Envelope<B>>)
    requires
        resps.len() > 0,
        forall|i: int| 0 <= i < resps.len() - 1 ==> resps[i].status == STATUS_PROCESSING,
        resps[resps.len() - 1].status == STATUS_OK,
    ensures
        exchange_verdict(resps) == Some(Ok::<Envelope<B>, Error<B>>(resps[resps.len() - 1])),
{
    crate::protocol::lemma_processing_then_ok(resps);
}

/// For every sequence of progress responses ending in a `Failure` response,
/// the exchange returns a remote-failure error wrapping exactly that final
/// response.
pub proof fn lemma_exchange_processing_then_failure<B>(resps: Seq<Envelope<B>>)
    requires
        resps.len() > 0,
        forall|i: int| 0 <= i < resps.len() - 1 ==> resps[i].status == STATUS_PROCESSING,
        resps[resps.len() - 1].status == STATUS_FAILURE,
    ensures
        exchange_verdict(resps) == Some(
            Err::<Envelope<B>, Error<B>>(Error::Failure(resps[resps.len() - 1])),
        ),
{
    crate::protocol::lemma_processing_then_failure(resps);
}

/// The first response carrying an unrecognized status code decides the
/// exchange at once with an invalid-status error, whatever comes after it.
pub proof fn lemma_exchange_invalid_status<B>(resps: Seq<Envelope<B>>, k: int)
    requires
        0 <= k < resps.len(),
        forall|i: int| 0 <= i < k ==> resps[i].status == STATUS_PROCESSING,
        !valid_status(resps[k].status),
    ensures
        exchange_verdict(resps) == Some(
            Err::<Envelope<B>, Error<B>>(Error::InvalidStatusCode(resps[k].status)),
        ),
{
    crate::protocol::lemma_invalid_stops(resps, k);
}

} // verus!
