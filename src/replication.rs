//! One replication, driven step by step.
//!
//! A `Session` holds the decisions of a replication. The caller does the
//! work that each `Action` asks for (set up the engine, take a handle from
//! the storage pool, run the engine, read a ref) and hands the result back
//! through the method of the matching phase, until the action is `Finish`.
use vstd::prelude::*;
use crate::error::Replicate;
use crate::rpc::{Oid, Ref, Success};

verus! {

/// What the replication engine did to one ref.
#[derive(Clone, Debug, PartialEq, Eq)]
pub enum Updated {
    /// `name` now points to the object `target`.
    Direct { name: String, target: Oid },
    /// `name` now points to the ref `target_ref`.
    Symbolic { name: String, target_ref: String },
    /// `name` was removed.
    Prune { name: String },
}

/// The work the caller is asked to do next.
#[derive(Debug, PartialEq, Eq)]
pub enum Action {
    /// Set up the replication engine over the local paths.
    Initialise,
    /// Take a handle from the storage pool for the engine.
    AcquireStorage,
    /// Run the engine for the requested repository, with no ref prefix.
    Replicate,
    /// Take a second handle from the storage pool, to read refs with.
    AcquireReader,
    /// Read the object that the ref `target` points to.
    Resolve(String),
    /// The replication is over, with this result.
    Finish(Result<Success, Replicate>),
}

#[derive(Clone, Copy, Debug, PartialEq, Eq)]
pub enum Phase {
    Initialising,
    Acquiring,
    Replicating,
    AcquiringReader,
    Resolving,
    Finished,
}

/// A ref as a name and the object it points to.
pub type RefView = (Seq<char>, Oid);

pub open spec fn ref_views(refs: Seq<Ref>) -> Seq<RefView> {
    refs.map_values(|r: Ref| (r.name@, r.oid))
}

pub open spec fn name_views(names: Seq<String>) -> Seq<Seq<char>> {
    names.map_values(|s: String| s@)
}

/// The number of symbolic outcomes in `u`.
pub open spec fn symbolic_count(u: Seq<Updated>) -> nat
    decreases u.len(),
{
    if u.len() == 0 {
        0
    } else {
        symbolic_count(u.drop_last()) + if u.last() is Symbolic { 1nat } else { 0nat }
    }
}

/// The number of outcomes in `u` that update a ref: direct and symbolic.
pub open spec fn updated_count(u: Seq<Updated>) -> nat
    decreases u.len(),
{
    if u.len() == 0 {
        0
    } else {
        updated_count(u.drop_last()) + if u.last() is Prune { 0nat } else { 1nat }
    }
}

/// The number of prune outcomes in `u`.
pub open spec fn pruned_count(u: Seq<Updated>) -> nat
    decreases u.len(),
{
    if u.len() == 0 {
        0
    } else {
        pruned_count(u.drop_last()) + if u.last() is Prune { 1nat } else { 0nat }
    }
}

/// The names of the refs that `u` updates, in the order of `u`.
pub open spec fn updated_names(u: Seq<Updated>) -> Seq<Seq<char>>
    decreases u.len(),
{
    if u.len() == 0 {
        seq![]
    } else {
        match u.last() {
            Updated::Direct { name, .. } => updated_names(u.drop_last()).push(name@),
            Updated::Symbolic { name, .. } => updated_names(u.drop_last()).push(name@),
            Updated::Prune { .. } => updated_names(u.drop_last()),
        }
    }
}

/// The refs that `u` updates, in the order of `u`, where the `k`-th symbolic
/// outcome points to `oids[k]`.
pub open spec fn folded_refs(u: Seq<Updated>, oids: Seq<Oid>) -> Seq<RefView>
    decreases u.len(),
{
    if u.len() == 0 {
        seq![]
    } else {
        match u.last() {
            Updated::Direct { name, target } => folded_refs(u.drop_last(), oids).push(
                (name@, target),
            ),
            Updated::Symbolic { name, .. } => folded_refs(u.drop_last(), oids).push(
                (name@, oids[symbolic_count(u.drop_last()) as int]),
            ),
            Updated::Prune { .. } => folded_refs(u.drop_last(), oids),
        }
    }
}

/// The names of the refs that `u` prunes, in the order of `u`.
pub open spec fn pruned_names(u: Seq<Updated>) -> Seq<Seq<char>>
    decreases u.len(),
{
    if u.len() == 0 {
        seq![]
    } else {
        match u.last() {
            Updated::Prune { name } => pruned_names(u.drop_last()).push(name@),
            _ => pruned_names(u.drop_last()),
        }
    }
}

/// Whether `s` reports the outcomes `u`, where the `k`-th symbolic outcome
/// resolved to `oids[k]`.
pub open spec fn reports(s: Success, u: Seq<Updated>, oids: Seq<Oid>) -> bool {
    &&& ref_views(s.refs@) == folded_refs(u, oids)
    &&& name_views(s.pruned@) == pruned_names(u)
}

proof fn lemma_take_step(u: Seq<Updated>, i: int)
    requires
        0 <= i < u.len(),
    ensures
        u.take(i + 1).drop_last() == u.take(i),
        u.take(i + 1).last() == u[i],
        u.take(i + 1).len() == i + 1,
{
    assert(u.take(i + 1).drop_last() =~= u.take(i));
}

proof fn lemma_folded_extend(u: Seq<Updated>, oids: Seq<Oid>, x: Oid)
    requires
        symbolic_count(u) <= oids.len(),
    ensures
        folded_refs(u, oids.push(x)) == folded_refs(u, oids),
    decreases u.len(),
{
    if u.len() > 0 {
        lemma_folded_extend(u.drop_last(), oids, x);
    }
}

proof fn lemma_folded_shape(u: Seq<Updated>, oids: Seq<Oid>)
    ensures
        folded_refs(u, oids).len() == updated_count(u),
        updated_names(u).len() == updated_count(u),
        pruned_names(u).len() == pruned_count(u),
        forall|k: int|
            0 <= k < updated_count(u) ==> (#[trigger] folded_refs(u, oids)[k]).0
                == updated_names(u)[k],
    decreases u.len(),
{
    if u.len() > 0 {
        lemma_folded_shape(u.drop_last(), oids);
    }
}

/// A successful replication reports one ref for each direct or symbolic
/// outcome of the engine and one pruned name for each prune outcome, in the
/// order in which the engine reported them.
pub proof fn lemma_reports_every_outcome(s: Success, u: Seq<Updated>, oids: Seq<Oid>)
    requires
        reports(s, u, oids),
    ensures
        s.refs@.len() == updated_count(u),
        s.pruned@.len() == pruned_count(u),
        forall|k: int| 0 <= k < s.refs@.len() ==> #[trigger] s.refs@[k].name@ == updated_names(u)[k],
        forall|k: int| 0 <= k < s.pruned@.len() ==> #[trigger] s.pruned@[k]@ == pruned_names(u)[k],
{
    lemma_folded_shape(u, oids);
    assert forall|k: int| 0 <= k < s.refs@.len() implies #[trigger] s.refs@[k].name@
        == updated_names(u)[k] by {
        assert(ref_views(s.refs@)[k] == folded_refs(u, oids)[k]);
    }
    assert forall|k: int| 0 <= k < s.pruned@.len() implies #[trigger] s.pruned@[k]@
        == pruned_names(u)[k] by {
        assert(name_views(s.pruned@)[k] == pruned_names(u)[k]);
    }
}

/// A replication whose engine reports no outcome, as when the same request
/// is made again against an unchanged remote, reports no ref and no pruned
/// name.
pub proof fn lemma_no_outcome_reports_nothing(s: Success, u: Seq<Updated>, oids: Seq<Oid>)
    requires
        u.len() == 0,
        reports(s, u, oids),
    ensures
        s.refs@.len() == 0,
        s.pruned@.len() == 0,
{
    lemma_reports_every_outcome(s, u, oids);
}

/// The state of one replication.
pub struct Session {
    pub phase: Phase,
    /// The outcomes that the engine reported.
    pub updates: Vec<Updated>,
    /// How many of `updates` are folded into `success`.
    pub next: usize,
    pub success: Success,
    /// The objects that the symbolic outcomes folded so far resolved to.
    pub resolved: Ghost<Seq<Oid>>,
}

impl Session {
    pub open spec fn wf(&self) -> bool {
        &&& self.next <= self.updates@.len()
        &&& self.resolved@.len() == symbolic_count(self.updates@.take(self.next as int))
        &&& self.phase != Phase::Finished ==> reports(
            self.success,
            self.updates@.take(self.next as int),
            self.resolved@,
        )
        &&& self.phase == Phase::Resolving ==> self.next < self.updates@.len()
            && self.updates@[self.next as int] is Symbolic
        &&& (self.phase == Phase::Initialising || self.phase == Phase::Acquiring
            || self.phase == Phase::Replicating) ==> self.updates@.len() == 0
    }

    /// A replication that has not started; the first action is `Initialise`.
    pub fn new() -> (r: (Session, Action))
        ensures
            r.0.wf(),
            r.0.phase == Phase::Initialising,
            r.1 == Action::Initialise,
    {
        let s = Session {
            phase: Phase::Initialising,
            updates: Vec::new(),
            next: 0,
            success: Success::new(),
            resolved: Ghost(Seq::empty()),
        };
        proof {
            assert(ref_views(s.success.refs@) =~= seq![]);
            assert(name_views(s.success.pruned@) =~= seq![]);
        }
        (s, Action::Initialise)
    }

    /// Ends the replication with the error `e`.
    fn fail(&mut self, e: Replicate) -> (r: Action)
        requires
            old(self).wf(),
        ensures
            final(self).wf(),
            final(self).phase == Phase::Finished,
            final(self).updates == old(self).updates,
            final(self).resolved == old(self).resolved,
            r == Action::Finish(Err(e)),
    {
        self.phase = Phase::Finished;
        Action::Finish(Err(e))
    }

    /// Whether the outcomes before `next` are folded into `success`.
    pub open spec fn folds(&self) -> bool {
        &&& self.next <= self.updates@.len()
        &&& self.resolved@.len() == symbolic_count(self.updates@.take(self.next as int))
        &&& reports(self.success, self.updates@.take(self.next as int), self.resolved@)
    }

    /// Folds the outcomes from `next` on into `success`, up to the next
    /// symbolic outcome, whose target is then to be resolved, or to the end.
    fn advance(&mut self) -> (a: Action)
        requires
            old(self).folds(),
            old(self).phase == Phase::AcquiringReader || old(self).phase == Phase::Resolving,
        ensures
            final(self).wf(),
            final(self).updates == old(self).updates,
            final(self).resolved == old(self).resolved,
            final(self).phase == Phase::Resolving || final(self).phase == Phase::Finished,
            final(self).phase == Phase::Finished ==> final(self).next == final(self).updates@.len(),
            final(self).phase == Phase::Finished ==> final(self).resolved@.len() == symbolic_count(
                final(self).updates@,
            ),
            final(self).phase == Phase::Resolving ==> a == Action::Resolve(
                final(self).updates@[final(self).next as int]->Symbolic_target_ref,
            ),
            final(self).phase == Phase::Finished ==> exists|s: Success|
                a == Action::Finish(Ok(s)) && reports(s, final(self).updates@, final(self).resolved@),
    {
        while self.next < self.updates.len()
            invariant
                self.folds(),
                self.updates == old(self).updates,
                self.resolved == old(self).resolved,
                self.phase == old(self).phase,
            decreases self.updates@.len() - self.next,
        {
            let i = self.next;
            proof { lemma_take_step(self.updates@, i as int); }
            match &self.updates[i] {
                Updated::Direct { name, target } => {
                    let ghost before = self.success.refs@;
                    self.success.refs.push(Ref { name: name.clone(), oid: *target });
                    assert(ref_views(self.success.refs@) =~= ref_views(before).push(
                        (name@, *target),
                    ));
                },
                Updated::Symbolic { target_ref, .. } => {
                    self.phase = Phase::Resolving;
                    return Action::Resolve(target_ref.clone());
                },
                Updated::Prune { name } => {
                    let ghost before = self.success.pruned@;
                    self.success.pruned.push(name.clone());
                    assert(name_views(self.success.pruned@) =~= name_views(before).push(name@));
                },
            }
            self.next = i + 1;
        }
        assert(self.updates@.take(self.next as int) =~= self.updates@);
        let mut done = Success::new();
        core::mem::swap(&mut done, &mut self.success);
        self.phase = Phase::Finished;
        Action::Finish(Ok(done))
    }

    /// The pool handed out a handle to read refs with (`Ok`), or could not
    /// (`Err`, with why).
    pub fn reader_acquired(&mut self, r: Result<(), String>) -> (a: Action)
        requires
            old(self).wf(),
            old(self).phase == Phase::AcquiringReader,
        ensures
            final(self).wf(),
            final(self).updates == old(self).updates,
            final(self).resolved == old(self).resolved,
            r is Err ==> a == Action::Finish(Err(Replicate::Pool(r->Err_0)))
                && final(self).phase == Phase::Finished,
            r is Ok ==> final(self).phase == Phase::Resolving || final(self).phase == Phase::Finished,
            r is Ok && final(self).phase == Phase::Finished ==> final(self).resolved@.len()
                == symbolic_count(final(self).updates@),
            r is Ok && final(self).phase == Phase::Resolving ==> a == Action::Resolve(
                final(self).updates@[final(self).next as int]->Symbolic_target_ref,
            ),
            r is Ok && final(self).phase == Phase::Finished ==> exists|s: Success|
                a == Action::Finish(Ok(s)) && reports(s, final(self).updates@, final(self).resolved@),
    {
        match r {
            Ok(()) => self.advance(),
            Err(e) => self.fail(Replicate::Pool(e)),
        }
    }

    /// The target of the symbolic outcome at `next` points to the object
    /// `r` (`Ok`), or could not be read (`Err`, with why). A failed read
    /// ends the whole replication: nothing of what was folded is reported.
    pub fn resolved(&mut self, r: Result<Oid, String>) -> (a: Action)
        requires
            old(self).wf(),
            old(self).phase == Phase::Resolving,
        ensures
            final(self).wf(),
            final(self).updates == old(self).updates,
            r is Err ==> a == Action::Finish(Err(Replicate::Read(r->Err_0)))
                && final(self).phase == Phase::Finished,
            r is Ok ==> final(self).resolved@ == old(self).resolved@.push(r->Ok_0),
            r is Ok ==> final(self).phase == Phase::Resolving || final(self).phase == Phase::Finished,
            r is Ok && final(self).phase == Phase::Finished ==> final(self).resolved@.len()
                == symbolic_count(final(self).updates@),
            r is Ok && final(self).phase == Phase::Resolving ==> a == Action::Resolve(
                final(self).updates@[final(self).next as int]->Symbolic_target_ref,
            ),
            r is Ok && final(self).phase == Phase::Finished ==> exists|s: Success|
                a == Action::Finish(Ok(s)) && reports(s, final(self).updates@, final(self).resolved@),
    {
        match r {
            Ok(oid) => {
                let i = self.next;
                let n = self.updates.len();
                assert(i < n);
                proof { lemma_take_step(self.updates@, i as int); }
                let name = match &self.updates[i] {
                    Updated::Symbolic { name, .. } => name.clone(),
                    Updated::Direct { name, .. } => name.clone(),
                    Updated::Prune { name } => name.clone(),
                };
                let ghost before = self.success.refs@;
                self.success.refs.push(Ref { name, oid });
                self.resolved = Ghost(self.resolved@.push(oid));
                self.next = i + 1;
                proof {
                    lemma_folded_extend(self.updates@.take(i as int), old(self).resolved@, oid);
                }
                assert(ref_views(self.success.refs@) =~= ref_views(before).push((name@, oid)));
                self.advance()
            },
            Err(e) => self.fail(Replicate::Read(e)),
        }
    }

    /// The engine was set up (`Ok`), or could not be (`Err`, with why).
    pub fn initialised(&mut self, r: Result<(), String>) -> (a: Action)
        requires
            old(self).wf(),
            old(self).phase == Phase::Initialising,
        ensures
            final(self).wf(),
            r is Ok ==> a == Action::AcquireStorage && final(self).phase == Phase::Acquiring,
            r is Err ==> a == Action::Finish(Err(Replicate::Init(r->Err_0)))
                && final(self).phase == Phase::Finished,
    {
        match r {
            Ok(()) => {
                self.phase = Phase::Acquiring;
                Action::AcquireStorage
            },
            Err(e) => self.fail(Replicate::Init(e)),
        }
    }

    /// The pool handed out a handle for the engine (`Ok`), or could not
    /// (`Err`, with why).
    pub fn acquired(&mut self, r: Result<(), String>) -> (a: Action)
        requires
            old(self).wf(),
            old(self).phase == Phase::Acquiring,
        ensures
            final(self).wf(),
            r is Ok ==> a == Action::Replicate && final(self).phase == Phase::Replicating,
            r is Err ==> a == Action::Finish(Err(Replicate::Pool(r->Err_0)))
                && final(self).phase == Phase::Finished,
    {
        match r {
            Ok(()) => {
                self.phase = Phase::Replicating;
                Action::Replicate
            },
            Err(e) => self.fail(Replicate::Pool(e)),
        }
    }

    /// The engine reported its outcomes, in order (`Ok`), or failed (`Err`,
    /// with why).
    pub fn replicated(&mut self, r: Result<Vec<Updated>, String>) -> (a: Action)
        requires
            old(self).wf(),
            old(self).phase == Phase::Replicating,
        ensures
            final(self).wf(),
            r is Ok ==> a == Action::AcquireReader && final(self).phase == Phase::AcquiringReader
                && final(self).updates@ == r->Ok_0@ && final(self).next == 0
                && final(self).resolved@ == Seq::<Oid>::empty(),
            r is Err ==> a == Action::Finish(Err(Replicate::Replication(r->Err_0)))
                && final(self).phase == Phase::Finished,
    {
        match r {
            Ok(updates) => {
                assert(self.updates@.take(self.next as int) =~= seq![]);
                assert(self.resolved@ =~= Seq::<Oid>::empty());
                self.updates = updates;
                self.phase = Phase::AcquiringReader;
                assert(self.updates@.take(0) =~= seq![]);
                Action::AcquireReader
            },
            Err(e) => self.fail(Replicate::Replication(e)),
        }
    }
}

} // verus!
