//! The frames of one request-pull exchange: progress notices while the
//! request is authorised, then exactly one terminal `Success` or `Error`.
use vstd::prelude::*;
use crate::error::{self, Replicate};
use crate::guard::{Describe, Guard, State};
use crate::progress::{self, authorizing_text, replicating_text};
use crate::rpc::{PeerId, Request, Response, Success, Urn};

verus! {

pub open spec fn is_progress(r: Response, text: Seq<char>) -> bool {
    r is Progress && r->Progress_0.message@ == text
}

pub open spec fn is_error(r: Response, text: Seq<char>) -> bool {
    r is Error && r->Error_0.message@ == text
}

/// What an exchange sends before any replication: `responses`, in order,
/// and whether the replication is to run.
pub struct Opening {
    pub responses: Vec<Response>,
    pub proceed: bool,
}

/// The opening of an exchange for `urn`, given the guard's `verdict`.
///
/// A refusal ends the exchange with the guard's error, and no replication
/// runs; a grant reports what the guard did and that replication starts.
pub fn authorised<O: Describe, E: Describe>(urn: &Urn, verdict: Result<O, E>) -> (r: Opening)
    ensures
        r.proceed == verdict is Ok,
        r.responses@.len() == if verdict is Ok { 3int } else { 2int },
        is_progress(r.responses@[0], authorizing_text(urn@)),
        verdict is Ok ==> is_progress(r.responses@[1], verdict->Ok_0.text())
            && is_progress(r.responses@[2], replicating_text(urn@)),
        verdict is Err ==> is_error(r.responses@[1], verdict->Err_0.text()),
{
    let mut responses: Vec<Response> = Vec::new();
    responses.push(Response::Progress(progress::authorizing(urn)));
    match verdict {
        Ok(out) => {
            responses.push(Response::Progress(progress::guard(out)));
            responses.push(Response::Progress(progress::replicating(urn)));
            Opening { responses, proceed: true }
        },
        Err(e) => {
            responses.push(Response::Error(error::guard(e)));
            Opening { responses, proceed: false }
        },
    }
}

/// Runs `state`'s guard on the requesting `peer` and `request`, and opens
/// the exchange with its verdict.
pub fn begin<S, G: Guard>(state: &State<S, G>, peer: &PeerId, request: &Request) -> (r: Opening)
    ensures
        r.proceed == state.guard.permits(*peer, request.urn),
        is_progress(r.responses@[0], authorizing_text(request.urn@)),
        r.proceed ==> r.responses@.len() == 3
            && is_progress(r.responses@[1], state.guard.granted_text(*peer, request.urn))
            && is_progress(r.responses@[2], replicating_text(request.urn@)),
        !r.proceed ==> r.responses@.len() == 2
            && is_error(r.responses@[1], state.guard.refused_text(*peer, request.urn)),
{
    let verdict = state.guard(peer, &request.urn);
    authorised(&request.urn, verdict)
}

/// The terminal response for the result of a replication.
pub fn respond(result: Result<Success, Replicate>) -> (r: Response)
    ensures
        result is Ok ==> r == Response::Success(result->Ok_0),
        result is Err ==> is_error(r, error::wire_text(result->Err_0)),
{
    match result {
        Ok(s) => Response::Success(s),
        Err(e) => Response::Error(error::to_wire(e)),
    }
}

} // verus!
