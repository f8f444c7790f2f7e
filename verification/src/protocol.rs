//! The request/response status loop.
//!
//! After one request is written, the proxy answers with a stream of framed
//! responses, each tagged with a status code. `Processing` responses are
//! progress updates and are discarded; the first response with any other
//! status ends the exchange: `Ok` is the successful answer, `Failure` is the
//! proxy's own refusal (returned with its full body so the caller can inspect
//! the reason), and any unrecognized code fails at once instead of looping on
//! garbage.
//!
//! Whoever owns the channel runs the read loop: it reads one message, wraps
//! it into an [`Envelope`], and lets [`step`] decide whether to read again or
//! to stop with which outcome.

use vstd::prelude::*;

verus! {

/// Status code of a successful terminal response.
pub const STATUS_OK: i32 = 0;

/// Status code of a progress update; the loop discards it and reads again.
pub const STATUS_PROCESSING: i32 = 1;

/// Status code of a terminal failure reported by the proxy itself.
pub const STATUS_FAILURE: i32 = 2;

/// One response as the status loop sees it: the status code it is tagged
/// with, and the message body, which the loop carries through untouched.
#[derive(Debug)]
pub struct Envelope<B> {
    pub status: i32,
    pub body: B,
}

/// The state the loop moves to after reading one response.
#[derive(Debug)]
pub enum Step<B> {
    /// A progress update: discard it and read the next response.
    Continue,
    /// The terminal successful answer.
    Success(Envelope<B>),
    /// The proxy reported failure; its full response is carried along.
    RemoteFailure(Envelope<B>),
    /// An unrecognized status code: the exchange is aborted at once.
    InvalidStatus(i32),
}

/// The status codes the protocol knows.
pub open spec fn valid_status(status: i32) -> bool {
    status == STATUS_OK || status == STATUS_PROCESSING || status == STATUS_FAILURE
}

/// What the loop does with one response.
pub open spec fn step_of<B>(resp: Envelope<B>) -> Step<B> {
    if resp.status == STATUS_PROCESSING {
        Step::Continue
    } else if resp.status == STATUS_OK {
        Step::Success(resp)
    } else if resp.status == STATUS_FAILURE {
        Step::RemoteFailure(resp)
    } else {
        Step::InvalidStatus(resp.status)
    }
}

/// The explicit transition of the status loop's state machine.
pub fn step<B>(resp: Envelope<B>) -> (s: Step<B>)
    ensures
        s == step_of(resp),
{
    if resp.status == STATUS_PROCESSING {
        Step::Continue
    } else if resp.status == STATUS_OK {
        Step::Success(resp)
    } else if resp.status == STATUS_FAILURE {
        Step::RemoteFailure(resp)
    } else {
        Step::InvalidStatus(resp.status)
    }
}

/// The terminal state the loop reaches on a given response sequence: the
/// verdict of the first non-`Processing` response, or `None` when every
/// response so far is a progress update.
pub open spec fn outcome<B>(resps: Seq<Envelope<B>>) -> Option<Step<B>>
    decreases resps.len(),
{
    if resps.len() == 0 {
        None
    } else if resps[0].status == STATUS_PROCESSING {
        outcome(resps.drop_first())
    } else {
        Some(step_of(resps[0]))
    }
}

/// The loop can never stop in the `Continue` state: a terminal verdict is
/// always `Success`, `RemoteFailure` or `InvalidStatus`.
pub proof fn lemma_outcome_not_continue<B>(resps: Seq<Envelope<B>>)
    ensures
        outcome(resps) != Some(Step::<B>::Continue),
    decreases resps.len(),
{
    if resps.len() > 0 && resps[0].status == STATUS_PROCESSING {
        lemma_outcome_not_continue(resps.drop_first());
    }
}

/// Runs the status loop over an already-collected response sequence,
/// consuming responses in order until the first terminal one.
pub fn interpret<B>(resps: Vec<Envelope<B>>) -> (r: Option<Step<B>>)
    ensures
        r == outcome(resps@),
    decreases resps@.len(),
{
    let ghost orig = resps@;
    let mut resps = resps;
    if resps.len() == 0 {
        None
    } else {
        let first = resps.remove(0);
        proof {
            assert(resps@ =~= orig.drop_first());
        }
        match step(first) {
            Step::Continue => interpret(resps),
            s => Some(s),
        }
    }
}

/// Every sequence of `Processing` responses followed by one `Ok` response
/// ends the loop with exactly that final response as its success: the loop
/// never returns early on a progress update.
pub proof fn lemma_processing_then_ok<B>(resps: Seq<Envelope<B>>)
    requires
        resps.len() > 0,
        forall|i: int| 0 <= i < resps.len() - 1 ==> resps[i].status == STATUS_PROCESSING,
        resps[resps.len() - 1].status == STATUS_OK,
    ensures
        outcome(resps) == Some(Step::Success(resps[resps.len() - 1])),
    decreases resps.len(),
{
    if resps.len() > 1 {
        lemma_processing_then_ok(resps.drop_first());
    }
}

/// Every sequence of `Processing` responses ending in a `Failure` response
/// ends the loop with a remote-failure verdict wrapping exactly that final
/// response.
pub proof fn lemma_processing_then_failure<B>(resps: Seq<Envelope<B>>)
    requires
        resps.len() > 0,
        forall|i: int| 0 <= i < resps.len() - 1 ==> resps[i].status == STATUS_PROCESSING,
        resps[resps.len() - 1].status == STATUS_FAILURE,
    ensures
        outcome(resps) == Some(Step::RemoteFailure(resps[resps.len() - 1])),
    decreases resps.len(),
{
    if resps.len() > 1 {
        lemma_processing_then_failure(resps.drop_first());
    }
}

/// The first response carrying an unrecognized status code stops the loop
/// with an invalid-status outcome. Later responses play no part in the
/// outcome, so the loop cannot spin on garbage.
pub proof fn lemma_invalid_stops<B>(resps: Seq<Envelope<B>>, k: int)
    requires
        0 <= k < resps.len(),
        forall|i: int| 0 <= i < k ==> resps[i].status == STATUS_PROCESSING,
        !valid_status(resps[k].status),
    ensures
        outcome(resps) == Some(Step::<B>::InvalidStatus(resps[k].status)),
    decreases k,
{
    if k > 0 {
        lemma_invalid_stops(resps.drop_first(), k - 1);
    }
}

} // verus!
