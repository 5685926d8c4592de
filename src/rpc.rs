//! The messages of a request-pull exchange.
use vstd::prelude::*;

verus! {

/// Identifier of a repository, held in its textual form.
#[derive(Clone, Debug, PartialEq, Eq)]
pub struct Urn {
    pub text: String,
}

impl View for Urn {
    type V = Seq<char>;

    open spec fn view(&self) -> Seq<char> {
        self.text@
    }
}

impl Urn {
    pub fn new(text: String) -> (r: Urn)
        ensures
            r@ == text@,
    {
        Urn { text }
    }

    /// The textual form, as reported in progress messages.
    pub fn as_str(&self) -> (r: &str)
        ensures
            r@ == self@,
    {
        self.text.as_str()
    }
}

/// Identifier of a peer of the network, held in its textual form.
#[derive(Clone, Debug, PartialEq, Eq)]
pub struct PeerId {
    pub text: String,
}

impl View for PeerId {
    type V = Seq<char>;

    open spec fn view(&self) -> Seq<char> {
        self.text@
    }
}

impl PeerId {
    pub fn new(text: String) -> (r: PeerId)
        ensures
            r@ == text@,
    {
        PeerId { text }
    }
}

/// A git object identifier: a SHA-1 digest.
#[derive(Clone, Copy, Debug, PartialEq, Eq)]
pub struct Oid {
    pub bytes: [u8; 20],
}

/// A pull request for the repository `urn`.
#[derive(Clone, Debug, PartialEq, Eq)]
pub struct Request {
    pub urn: Urn,
}

/// A ref that the replication updated, with the object it now points to.
#[derive(Clone, Debug, PartialEq, Eq)]
pub struct Ref {
    pub name: String,
    pub oid: Oid,
}

/// The terminal positive response: the updated refs and the names of the
/// pruned refs, each in the order in which the replication reported them.
#[derive(Clone, Debug, PartialEq, Eq)]
pub struct Success {
    pub refs: Vec<Ref>,
    pub pruned: Vec<String>,
}

/// An intermediate status notice.
#[derive(Clone, Debug, PartialEq, Eq)]
pub struct Progress {
    pub message: String,
}

/// The terminal negative response.
#[derive(Clone, Debug, PartialEq, Eq)]
pub struct Error {
    pub message: String,
}

#[derive(Clone, Debug, PartialEq, Eq)]
pub enum Response {
    Progress(Progress),
    Success(Success),
    Error(Error),
}

/// Size units that one updated ref takes in a frame: its name and a digest.
pub open spec fn ref_size(r: Ref) -> nat {
    r.name@.len() + 20
}

/// Size units of the updated refs `refs`.
pub open spec fn refs_size(refs: Seq<Ref>) -> nat
    decreases refs.len(),
{
    if refs.len() == 0 {
        0
    } else {
        refs_size(refs.drop_last()) + ref_size(refs.last())
    }
}

/// Size units of the pruned names `names`.
pub open spec fn names_size(names: Seq<String>) -> nat
    decreases names.len(),
{
    if names.len() == 0 {
        0
    } else {
        names_size(names.drop_last()) + names.last()@.len()
    }
}

proof fn lemma_refs_size_of_short_names(refs: Seq<Ref>)
    requires
        forall|k: int| 0 <= k < refs.len() ==> (#[trigger] refs[k]).name@.len() <= 10,
    ensures
        refs_size(refs) <= 30 * refs.len(),
    decreases refs.len(),
{
    if refs.len() > 0 {
        let prev = refs.drop_last();
        assert forall|k: int| 0 <= k < prev.len() implies (#[trigger] prev[k]).name@.len() <= 10 by {
            assert(prev[k] == refs[k]);
        }
        lemma_refs_size_of_short_names(prev);
        assert(refs.last() == refs[refs.len() - 1]);
    }
}

/// A response of 100 updated refs, each named in 10 characters, and no
/// pruned name fits within `FRAMED_BUFSIZ`; so does any with fewer refs or
/// shorter names.
pub proof fn lemma_hundred_refs_fit(s: Success)
    requires
        s.refs@.len() <= 100,
        forall|k: int| 0 <= k < s.refs@.len() ==> (#[trigger] s.refs@[k]).name@.len() <= 10,
        s.pruned@.len() == 0,
    ensures
        s.payload_size() <= crate::FRAMED_BUFSIZ,
{
    lemma_refs_size_of_short_names(s.refs@);
}

impl Success {
    /// Size units that this response takes in a frame.
    pub open spec fn payload_size(&self) -> nat {
        refs_size(self.refs@) + names_size(self.pruned@)
    }

    /// The empty response: nothing updated, nothing pruned.
    pub fn new() -> (r: Success)
        ensures
            r.refs@.len() == 0,
            r.pruned@.len() == 0,
    {
        Success { refs: Vec::new(), pruned: Vec::new() }
    }

    /// Whether this response fits within `FRAMED_BUFSIZ`.
    pub fn fits_frame(&self) -> (r: bool)
        ensures
            r == (self.payload_size() <= crate::FRAMED_BUFSIZ),
    {
        let mut total: usize = 0;
        let mut i: usize = 0;
        while i < self.refs.len()
            invariant
                i <= self.refs@.len(),
                total == refs_size(self.refs@.take(i as int)),
                total <= crate::FRAMED_BUFSIZ,
            decreases self.refs@.len() - i,
        {
            assert(self.refs@.take(i + 1).drop_last() == self.refs@.take(i as int));
            let n = self.refs[i].name.as_str().unicode_len();
            if n > crate::FRAMED_BUFSIZ || crate::FRAMED_BUFSIZ - n < 20 + total {
                proof { self.lemma_refs_prefix_grows((i + 1) as int); }
                return false;
            }
            total = total + n + 20;
            i = i + 1;
        }
        assert(self.refs@.take(i as int) == self.refs@);
        let mut j: usize = 0;
        while j < self.pruned.len()
            invariant
                i == self.refs@.len(),
                j <= self.pruned@.len(),
                total == refs_size(self.refs@) + names_size(self.pruned@.take(j as int)),
                total <= crate::FRAMED_BUFSIZ,
            decreases self.pruned@.len() - j,
        {
            assert(self.pruned@.take(j + 1).drop_last() == self.pruned@.take(j as int));
            let n = self.pruned[j].as_str().unicode_len();
            if n > crate::FRAMED_BUFSIZ - total {
                proof { self.lemma_names_prefix_grows((j + 1) as int); }
                return false;
            }
            total = total + n;
            j = j + 1;
        }
        assert(self.pruned@.take(j as int) == self.pruned@);
        true
    }

    proof fn lemma_refs_prefix_grows(&self, k: int)
        requires
            0 <= k <= self.refs@.len(),
        ensures
            refs_size(self.refs@.take(k)) <= self.payload_size(),
        decreases self.refs@.len() - k,
    {
        if k < self.refs@.len() {
            self.lemma_refs_prefix_grows(k + 1);
            assert(self.refs@.take(k + 1).drop_last() == self.refs@.take(k));
        } else {
            assert(self.refs@.take(k) == self.refs@);
        }
    }

    proof fn lemma_names_prefix_grows(&self, k: int)
        requires
            0 <= k <= self.pruned@.len(),
        ensures
            refs_size(self.refs@) + names_size(self.pruned@.take(k)) <= self.payload_size(),
        decreases self.pruned@.len() - k,
    {
        if k < self.pruned@.len() {
            self.lemma_names_prefix_grows(k + 1);
            assert(self.pruned@.take(k + 1).drop_last() == self.pruned@.take(k));
        } else {
            assert(self.pruned@.take(k) == self.pruned@);
        }
    }
}

} // verus!
