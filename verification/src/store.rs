use vstd::prelude::*;
use crate::proposal::ProposalId;
use crate::proposal::ProposalInfo;
use crate::proposal::ProposalView;

verus! {

/// The proposal store: a durable mapping from proposal identifier to proposal
/// record.
///
/// Identifiers are allocated densely from 0 and proposals are never deleted,
/// so the store realizes the mapping as a vector indexed by identifier. Its
/// iteration order — ascending identifier — is the stable order that the
/// per-block sweep visits, identical on every replica.
pub struct ProposalStore {
    items: Vec<ProposalInfo>,
}

impl View for ProposalStore {
    type V = Seq<ProposalView>;

    closed spec fn view(&self) -> Seq<ProposalView> {
        self.items@.map_values(|p: ProposalInfo| p@)
    }
}

impl ProposalStore {
    /// Every stored description respects the fixed storage bound.
    pub open spec fn wf(&self) -> bool {
        forall|i: int| 0 <= i < self@.len() ==> (#[trigger] self@[i]).wf()
    }

    /// An empty store.
    pub fn new() -> (r: ProposalStore)
        ensures
            r@ == Seq::<ProposalView>::empty(),
            r.wf(),
    {
        let s = ProposalStore { items: Vec::new() };
        proof {
            assert(s@ =~= Seq::<ProposalView>::empty());
        }
        s
    }

    /// Number of proposals ever stored (closed ones included).
    pub fn len(&self) -> (r: usize)
        ensures
            r == self@.len(),
    {
        self.items.len()
    }

    /// The proposal stored under `id`, if any.
    pub fn get(&self, id: ProposalId) -> (r: Option<&ProposalInfo>)
        ensures
            (id as int) < self@.len() ==> (r matches Some(p) && p@ == self@[id as int]),
            (id as int) >= self@.len() ==> r is None,
    {
        let idx = id as usize;
        if idx < self.items.len() {
            Some(&self.items[idx])
        } else {
            None
        }
    }

    /// The proposal at position `i` of the store's stable iteration order:
    /// ascending identifier, so position `i` holds identifier `i`.
    pub fn at(&self, i: usize) -> (r: &ProposalInfo)
        requires
            i < self@.len(),
        ensures
            r@ == self@[i as int],
    {
        &self.items[i]
    }

    /// Store `p` under `id`, overwriting any existing entry: used both for
    /// creation (at the next free identifier) and for the closing mutation.
    pub fn insert(&mut self, id: ProposalId, p: ProposalInfo)
        requires
            id as int <= old(self)@.len(),
        ensures
            final(self)@ == if (id as int) < old(self)@.len() {
                old(self)@.update(id as int, p@)
            } else {
                old(self)@.push(p@)
            },
            old(self).wf() && p@.wf() ==> final(self).wf(),
    {
        let idx = id as usize;
        if idx < self.items.len() {
            self.items.set(idx, p);
            proof {
                assert(self@ =~= old(self)@.update(id as int, p@));
            }
        } else {
            self.items.push(p);
            proof {
                assert(self@ =~= old(self)@.push(p@));
            }
        }
    }
}

} // verus!
