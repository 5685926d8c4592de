//! Server side of the request-pull exchange: a remote peer asks this node to
//! pull its refs for a repository; the request is authorised by a guard, the
//! replication is driven step by step, and its outcome is reported back.
use vstd::prelude::*;

pub mod rpc;
pub mod error;
pub mod progress;
pub mod guard;
pub mod replication;
pub mod exchange;

pub use guard::{AllowAll, AllowList, Describe, Guard, Paths, State};
pub use rpc::{Error, Oid, PeerId, Progress, Ref, Request, Response, Success, Urn};

verus! {

/// Buffer size, in size units, for writing and reading request-pull messages.
/// It is sized for the largest message, a `Success`: 100 updated refs, with
/// names of 10 characters on average, each with a 20-byte SHA-1 digest.
pub const FRAMED_BUFSIZ: usize = 100 * 10 * 20;

} // verus!
