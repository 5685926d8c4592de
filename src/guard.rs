//! Authorisation of a request-pull, and the state that serves the calls.
use vstd::prelude::*;
use crate::rpc::{PeerId, Urn};

verus! {

/// A value that can be reported to the requesting peer as text.
pub trait Describe {
    spec fn text(&self) -> Seq<char>;

    fn describe(&self) -> (r: String)
        ensures
            r@ == self.text();
}

impl Describe for String {
    open spec fn text(&self) -> Seq<char> {
        self@
    }

    fn describe(&self) -> (r: String) {
        self.clone()
    }
}

/// The checks and effects that a request-pull must pass before any
/// replication starts.
///
/// An implementation may, for example, check that `peer` is allowed to ask
/// for `urn`, and track `peer` for `urn`. The `Output` is reported back to
/// the requesting peer as a progress notice, the `Error` as the terminal
/// error.
pub trait Guard {
    type Output: Describe;
    type Error: Describe;

    /// Whether this guard lets `peer` request a pull of `urn`.
    spec fn permits(&self, peer: PeerId, urn: Urn) -> bool;

    /// What this guard reports when it lets `peer` request a pull of `urn`.
    spec fn granted_text(&self, peer: PeerId, urn: Urn) -> Seq<char>;

    /// What this guard reports when it refuses `peer` a pull of `urn`.
    spec fn refused_text(&self, peer: PeerId, urn: Urn) -> Seq<char>;

    fn guard(&self, peer: &PeerId, urn: &Urn) -> (r: Result<Self::Output, Self::Error>)
        ensures
            r is Ok <==> self.permits(*peer, *urn),
            r is Ok ==> r->Ok_0.text() == self.granted_text(*peer, *urn),
            r is Err ==> r->Err_0.text() == self.refused_text(*peer, *urn);
}

/// A guard that lets every peer request a pull of every repository.
#[derive(Clone, Copy, Debug, PartialEq, Eq)]
pub struct AllowAll;

pub open spec fn allowed_text() -> Seq<char> {
    "request-pull allowed"@
}

pub open spec fn denied_text() -> Seq<char> {
    "request-pull denied: peer is not allowed"@
}

impl Guard for AllowAll {
    type Output = String;
    type Error = String;

    open spec fn permits(&self, peer: PeerId, urn: Urn) -> bool {
        true
    }

    open spec fn granted_text(&self, peer: PeerId, urn: Urn) -> Seq<char> {
        allowed_text()
    }

    open spec fn refused_text(&self, peer: PeerId, urn: Urn) -> Seq<char> {
        denied_text()
    }

    fn guard(&self, peer: &PeerId, urn: &Urn) -> (r: Result<String, String>) {
        Ok(String::from_str("request-pull allowed"))
    }
}

/// A guard that lets only the listed peers request a pull.
#[derive(Clone, Debug, PartialEq, Eq)]
pub struct AllowList {
    pub peers: Vec<PeerId>,
}

impl AllowList {
    /// Whether `peer` is among `self.peers`.
    pub open spec fn lists(&self, peer: PeerId) -> bool {
        exists|i: int| 0 <= i < self.peers@.len() && #[trigger] self.peers@[i]@ == peer@
    }

    pub fn new(peers: Vec<PeerId>) -> (r: AllowList)
        ensures
            r.peers@ == peers@,
    {
        AllowList { peers }
    }
}

impl Guard for AllowList {
    type Output = String;
    type Error = String;

    open spec fn permits(&self, peer: PeerId, urn: Urn) -> bool {
        self.lists(peer)
    }

    open spec fn granted_text(&self, peer: PeerId, urn: Urn) -> Seq<char> {
        allowed_text()
    }

    open spec fn refused_text(&self, peer: PeerId, urn: Urn) -> Seq<char> {
        denied_text()
    }

    fn guard(&self, peer: &PeerId, urn: &Urn) -> (r: Result<String, String>) {
        let mut i: usize = 0;
        while i < self.peers.len()
            invariant
                i <= self.peers@.len(),
                forall|k: int| 0 <= k < i ==> #[trigger] self.peers@[k]@ != peer@,
            decreases self.peers@.len() - i,
        {
            if self.peers[i].text == peer.text {
                assert(self.peers@[i as int]@ == peer@);
                return Ok(String::from_str("request-pull allowed"));
            }
            i = i + 1;
        }
        Err(String::from_str("request-pull denied: peer is not allowed"))
    }
}

/// Where this node keeps its local state on disk.
#[derive(Clone, Debug, PartialEq, Eq)]
pub struct Paths {
    pub root: String,
}

/// State for serving request-pull calls: the storage pool, the paths of the
/// local state and the guard.
#[derive(Clone)]
pub struct State<S, G> {
    pub storage: S,
    pub paths: Paths,
    pub guard: G,
}

impl<S, G: Guard> State<S, G> {
    pub fn new(storage: S, paths: Paths, guard: G) -> (r: Self)
        ensures
            r.storage == storage,
            r.paths == paths,
            r.guard == guard,
    {
        State { storage, paths, guard }
    }

    /// Runs the guard on `peer` and `urn`, and hands back its verdict.
    pub fn guard(&self, peer: &PeerId, urn: &Urn) -> (r: Result<G::Output, G::Error>)
        ensures
            r is Ok <==> self.guard.permits(*peer, *urn),
            r is Ok ==> r->Ok_0.text() == self.guard.granted_text(*peer, *urn),
            r is Err ==> r->Err_0.text() == self.guard.refused_text(*peer, *urn),
    {
        self.guard.guard(peer, urn)
    }
}

} // verus!
