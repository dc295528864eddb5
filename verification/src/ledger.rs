//! The monotonic ledger.
//!
//! The remote side of a ledger is a single named ref whose history only moves
//! by compare-and-swap pushes: a push names the commit it expects to be the
//! current tip and is accepted exactly when the remote still points there, in
//! which case the remote gains one commit whose parent is that tip. This
//! module models the remote as seen through that interface — a linear chain of
//! commits, each identified by its height — and proves the two protocol
//! properties the rest of the crate builds on: mutual exclusion of racing
//! pushes, and strict append-only growth of the history.
//!
//! `RemoteLedger` is the executable form of the model; it stands in for the
//! remote in tests and in the verified lease operations, which describe every
//! remote interaction through the spec-level transitions below.

use vstd::prelude::*;

use crate::codec::LedgerTree;
use crate::codec::TreeEntryV;

verus! {

/// One commit in a ledger's history: its identifier, the identifier of its
/// parent (absent for the root), and the tree it carries.
pub struct ModelCommit {
    pub id: u64,
    pub parent: Option<u64>,
    pub tree: LedgerTree,
}

/// Mathematical image of a commit.
#[verifier::ext_equal]
pub struct ModelCommitV {
    pub id: u64,
    pub parent: Option<u64>,
    pub tree: Seq<TreeEntryV>,
}

impl View for ModelCommit {
    type V = ModelCommitV;

    open spec fn view(&self) -> ModelCommitV {
        ModelCommitV { id: self.id, parent: self.parent, tree: self.tree@ }
    }
}

/// A linear history: the commit at position `i` has identifier `i + 1` and its
/// parent is the commit before it.
pub open spec fn chain_ok(h: Seq<ModelCommitV>) -> bool {
    forall|i: int|
        0 <= i < h.len() ==> (#[trigger] h[i]).id == i + 1 && h[i].parent == (if i == 0 {
            None::<u64>
        } else {
            Some(i as u64)
        })
}

/// The identifier of the current tip, absent for an empty history.
pub open spec fn tip_of(h: Seq<ModelCommitV>) -> Option<u64> {
    if h.len() == 0 {
        None
    } else {
        Some(h.last().id)
    }
}

/// Whether a push that expects `expected_parent` to be the tip is accepted.
pub open spec fn push_accepted(h: Seq<ModelCommitV>, expected_parent: Option<u64>) -> bool {
    expected_parent == tip_of(h)
}

/// The history after an accepted push of `tree`: one new commit whose parent
/// is the prior tip.
pub open spec fn push_next(h: Seq<ModelCommitV>, tree: Seq<TreeEntryV>) -> Seq<ModelCommitV> {
    h.push(ModelCommitV { id: (h.len() + 1) as u64, parent: tip_of(h), tree })
}

/// Mutual exclusion under compare-and-swap: of two pushes that name the same
/// expected parent, at most one is accepted — once the first lands, the tip
/// has moved and the second is rejected.
pub proof fn lemma_cas_mutual_exclusion(
    h: Seq<ModelCommitV>,
    expected_parent: Option<u64>,
    tree: Seq<TreeEntryV>,
)
    requires
        chain_ok(h),
        h.len() < u64::MAX,
        push_accepted(h, expected_parent),
    ensures
        !push_accepted(push_next(h, tree), expected_parent),
{
    if h.len() > 0 {
        assert(h.last().id == h.len());
    }
}

/// Monotonic history: an accepted push appends exactly one commit whose
/// parent is the prior tip; every earlier commit is unchanged and the history
/// stays a linear chain.
pub proof fn lemma_monotonic_history(h: Seq<ModelCommitV>, tree: Seq<TreeEntryV>)
    requires
        chain_ok(h),
        h.len() < u64::MAX,
    ensures
        chain_ok(push_next(h, tree)),
        push_next(h, tree).len() == h.len() + 1,
        forall|i: int| 0 <= i < h.len() ==> push_next(h, tree)[i] == h[i],
        push_next(h, tree).last().parent == tip_of(h),
        push_next(h, tree).last().tree == tree,
{
    if h.len() > 0 {
        assert(h.last().id == h.len());
    }
}

/// Whether the commit named `a` is an ancestor of, or equal to, the commit
/// named `b` in a linear history: identifiers grow along the chain.
pub open spec fn ancestor_of(a: u64, b: u64) -> bool {
    a <= b
}

/// Whether a local ref standing at `current` may be fast-forwarded to
/// `target`: allowed when the ref is absent, already there, or a strict
/// ancestor of the target; divergence — a target strictly behind the ref —
/// is refused, the mark of a rewritten history.
pub fn fast_forward_allowed(current: Option<u64>, target: u64) -> (r: bool)
    ensures
        r <==> match current {
            None => true,
            Some(c) => ancestor_of(c, target),
        },
{
    match current {
        None => true,
        Some(c) => c <= target,
    }
}

/// The remote end of a ledger, as the push/fetch interface exposes it: a
/// linear chain of commits advanced only by accepted pushes.
pub struct RemoteLedger {
    commits: Vec<ModelCommit>,
}

impl View for RemoteLedger {
    type V = Seq<ModelCommitV>;

    closed spec fn view(&self) -> Seq<ModelCommitV> {
        Seq::new(self.commits@.len(), |i: int| self.commits@[i]@)
    }
}

impl RemoteLedger {
    /// The history is a well-formed linear chain.
    pub open spec fn wf(&self) -> bool {
        chain_ok(self@)
    }

    /// A ledger with no history yet: no branch exists remotely.
    pub fn new() -> (r: RemoteLedger)
        ensures
            r@ == Seq::<ModelCommitV>::empty(),
            r.wf(),
    {
        let r = RemoteLedger { commits: Vec::new() };
        proof {
            assert(r@ =~= Seq::<ModelCommitV>::empty());
        }
        r
    }

    /// The identifier of the current tip commit, absent if no push landed yet.
    pub fn tip(&self) -> (r: Option<u64>)
        requires
            self.wf(),
        ensures
            r == tip_of(self@),
    {
        let n = self.commits.len();
        if n == 0 {
            None
        } else {
            Some(self.commits[n - 1].id)
        }
    }

    /// Fetch the current state: the tip commit's identifier and its tree, or
    /// absent if no push landed yet.
    pub fn fetch(&self) -> (r: Option<(u64, &LedgerTree)>)
        requires
            self.wf(),
        ensures
            match r {
                None => self@.len() == 0,
                Some(p) => self@.len() > 0 && Some(p.0) == tip_of(self@) && p.1@
                    == self@.last().tree,
            },
    {
        let n = self.commits.len();
        if n == 0 {
            None
        } else {
            let c = &self.commits[n - 1];
            Some((c.id, &c.tree))
        }
    }

    /// Compare-and-swap push: accepted exactly when `expected_parent` still
    /// names the tip, in which case the history gains one commit carrying
    /// `tree` and the new tip's identifier is returned. A rejected push — a
    /// race lost to some other pusher — leaves the history unchanged.
    pub fn push(&mut self, expected_parent: Option<u64>, tree: LedgerTree) -> (r: Option<u64>)
        requires
            old(self).wf(),
            old(self)@.len() < u64::MAX,
        ensures
            final(self).wf(),
            r is Some <==> push_accepted(old(self)@, expected_parent),
            r is Some ==> r == Some((old(self)@.len() + 1) as u64) && final(self)@ == push_next(
                old(self)@,
                tree@,
            ),
            r is None ==> final(self)@ == old(self)@,
    {
        let ghost tv = tree@;
        let tip = self.tip();
        if opt_u64_eq(expected_parent, tip) {
            let id = self.commits.len() as u64 + 1;
            self.commits.push(ModelCommit { id, parent: tip, tree });
            proof {
                assert(self@ =~= push_next(old(self)@, tv));
                lemma_monotonic_history(old(self)@, tv);
            }
            Some(id)
        } else {
            None
        }
    }
}

/// Equality of two optional commit identifiers.
fn opt_u64_eq(a: Option<u64>, b: Option<u64>) -> (r: bool)
    ensures
        r == (a == b),
{
    match (a, b) {
        (None, None) => true,
        (Some(x), Some(y)) => x == y,
        _ => false,
    }
}

} // verus!
