//! Failures of a request-pull, and their rendering as a wire `Error`.
use vstd::prelude::*;
use crate::guard::Describe;
use crate::rpc::Error;

verus! {

/// Why a replication failed. Each variant keeps the text of the failure it
/// stands for, for local diagnostics.
#[derive(Clone, Debug, PartialEq, Eq)]
pub enum Replicate {
    /// The replication engine failed.
    Replication(String),
    /// No handle to storage could be had from the pool.
    Pool(String),
    /// The replication engine could not be set up.
    Init(String),
    /// The target of a symbolic ref could not be read.
    Read(String),
}

pub open spec fn pool_text() -> Seq<char> {
    "internal error: could not get handle to storage"@
}

pub open spec fn init_text() -> Seq<char> {
    "internal error: could not intialise storage"@
}

pub open spec fn read_text() -> Seq<char> {
    "internal error: failed to look up symbolic-ref target"@
}

pub open spec fn replication_prefix() -> Seq<char> {
    "request-pull replication error: "@
}

pub open spec fn decode_failed_text() -> Seq<char> {
    "failed to decode request"@
}

pub open spec fn internal_error_text() -> Seq<char> {
    "internal error"@
}

impl Replicate {
    /// The text that describes this failure: the engine's own for
    /// `Replication`, a fixed description for the others.
    pub open spec fn text(&self) -> Seq<char> {
        match self {
            Replicate::Replication(e) => e@,
            Replicate::Pool(_) => pool_text(),
            Replicate::Init(_) => init_text(),
            Replicate::Read(_) => read_text(),
        }
    }

    pub fn message(&self) -> (r: String)
        ensures
            r@ == self.text(),
    {
        match self {
            Replicate::Replication(e) => e.clone(),
            Replicate::Pool(_) => String::from_str("internal error: could not get handle to storage"),
            Replicate::Init(_) => String::from_str("internal error: could not intialise storage"),
            Replicate::Read(_) => String::from_str("internal error: failed to look up symbolic-ref target"),
        }
    }
}

/// The error sent when a request cannot be decoded.
pub fn decode_failed() -> (r: Error)
    ensures
        r.message@ == decode_failed_text(),
{
    Error { message: String::from_str("failed to decode request") }
}

/// The error sent for a failure whose detail stays with this node.
pub fn internal_error() -> (r: Error)
    ensures
        r.message@ == internal_error_text(),
{
    Error { message: String::from_str("internal error") }
}

/// The error that reports `err` in full to the requesting peer.
pub fn replication_error(err: Replicate) -> (r: Error)
    ensures
        r.message@ == replication_prefix() + err.text(),
{
    let mut message = String::from_str("request-pull replication error: ");
    let text = err.message();
    message.append(text.as_str());
    Error { message }
}

/// The error that reports a guard's refusal in the guard's own words.
pub fn guard<E: Describe>(e: E) -> (r: Error)
    ensures
        r.message@ == e.text(),
{
    Error { message: e.describe() }
}

/// The message of the error sent to the requesting peer for `err`.
pub open spec fn wire_text(err: Replicate) -> Seq<char> {
    match err {
        Replicate::Replication(_) => replication_prefix() + err.text(),
        _ => internal_error_text(),
    }
}

/// Of the failures of a replication, only the engine's own is disclosed to
/// the requesting peer: a failure to reach storage, to set up the engine
/// or to read a ref is reported as a bare internal error.
pub proof fn lemma_infrastructure_failures_are_hidden(err: Replicate)
    ensures
        err is Replication ==> wire_text(err) == replication_prefix() + err->Replication_0@,
        !(err is Replication) ==> wire_text(err) == internal_error_text(),
{
}

/// The error sent to the requesting peer for `err`: only a failure of the
/// replication itself is disclosed, a failure of this node's infrastructure
/// is reported as an internal error.
pub fn to_wire(err: Replicate) -> (r: Error)
    ensures
        r.message@ == wire_text(err),
{
    match err {
        Replicate::Replication(_) => replication_error(err),
        _ => internal_error(),
    }
}

} // verus!
