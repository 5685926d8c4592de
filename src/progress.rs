//! Progress notices streamed to the requesting peer before the terminal
//! response.
use vstd::prelude::*;
use crate::guard::Describe;
use crate::rpc::{Progress, Urn};

verus! {

pub open spec fn replicating_text(urn: Seq<char>) -> Seq<char> {
    "Starting replication for `"@ + urn + "`"@
}

pub open spec fn authorizing_text(urn: Seq<char>) -> Seq<char> {
    "Checking if request-pull is allowed for `"@ + urn + "`"@
}

/// The notice sent once the guard let the request through, before the
/// replication starts.
pub fn replicating(urn: &Urn) -> (r: Progress)
    ensures
        r.message@ == replicating_text(urn@),
{
    let mut message = String::from_str("Starting replication for `");
    message.append(urn.as_str());
    message.append("`");
    Progress { message }
}

/// The notice sent before the guard runs.
pub fn authorizing(urn: &Urn) -> (r: Progress)
    ensures
        r.message@ == authorizing_text(urn@),
{
    let mut message = String::from_str("Checking if request-pull is allowed for `");
    message.append(urn.as_str());
    message.append("`");
    Progress { message }
}

/// The notice that reports what the guard did, in the guard's own words.
pub fn guard<T: Describe>(t: T) -> (r: Progress)
    ensures
        r.message@ == t.text(),
{
    Progress { message: t.describe() }
}

} // verus!
