use vstd::prelude::*;
use crate::proposal::AccountId;
use crate::proposal::ProposalId;

verus! {

/// One recorded vote. Votes are keyed by (proposal id, voter identity);
/// once written, a record is never overwritten or deleted.
#[derive(Clone, Copy, Debug, PartialEq, Eq, Structural)]
pub struct VoteRecord {
    pub proposal_id: ProposalId,
    pub voter: AccountId,
    /// The choice: true is a vote for, false a vote against.
    pub approve: bool,
}

/// Whether `votes` records a vote by `voter` on `proposal_id`.
pub open spec fn has_vote(
    votes: Seq<VoteRecord>,
    proposal_id: ProposalId,
    voter: AccountId,
) -> bool {
    exists|k: int|
        0 <= k < votes.len() && (#[trigger] votes[k]).proposal_id == proposal_id
            && votes[k].voter == voter
}

/// No two records share a (proposal id, voter) key.
pub open spec fn distinct_votes(votes: Seq<VoteRecord>) -> bool {
    forall|k1: int, k2: int|
        0 <= k1 < k2 < votes.len() ==> !((#[trigger] votes[k1]).proposal_id
            == (#[trigger] votes[k2]).proposal_id && votes[k1].voter == votes[k2].voter)
}

/// Number of records that vote on `proposal_id` with the given choice.
pub open spec fn count_choice(
    votes: Seq<VoteRecord>,
    proposal_id: ProposalId,
    approve: bool,
) -> nat
    decreases votes.len(),
{
    if votes.len() == 0 {
        0
    } else {
        count_choice(votes.drop_last(), proposal_id, approve) + if votes.last().proposal_id
            == proposal_id && votes.last().approve == approve {
            1nat
        } else {
            0nat
        }
    }
}

/// Number of records that vote on `proposal_id`, with either choice.
pub open spec fn count_votes(votes: Seq<VoteRecord>, proposal_id: ProposalId) -> nat
    decreases votes.len(),
{
    if votes.len() == 0 {
        0
    } else {
        count_votes(votes.drop_last(), proposal_id) + if votes.last().proposal_id
            == proposal_id {
            1nat
        } else {
            0nat
        }
    }
}

/// The votes on a proposal split exactly into the votes for and the votes
/// against it.
pub proof fn lemma_count_votes_splits(votes: Seq<VoteRecord>, proposal_id: ProposalId)
    ensures
        count_votes(votes, proposal_id) == count_choice(votes, proposal_id, true) + count_choice(
            votes,
            proposal_id,
            false,
        ),
    decreases votes.len(),
{
    if votes.len() > 0 {
        lemma_count_votes_splits(votes.drop_last(), proposal_id);
    }
}

/// Appending a record extends each count by one exactly when the record
/// matches it.
pub proof fn lemma_count_push(votes: Seq<VoteRecord>, rec: VoteRecord)
    ensures
        forall|id: ProposalId, approve: bool|
            #[trigger] count_choice(votes.push(rec), id, approve) == count_choice(
                votes,
                id,
                approve,
            ) + if rec.proposal_id == id && rec.approve == approve {
                1nat
            } else {
                0nat
            },
        forall|id: ProposalId|
            #[trigger] count_votes(votes.push(rec), id) == count_votes(votes, id) + if rec
                .proposal_id == id {
                1nat
            } else {
                0nat
            },
{
    assert(votes.push(rec).drop_last() =~= votes);
}

/// The vote ledger: the durable record of every accepted vote, enforcing
/// one vote per (proposal, account) pair together with the lifecycle engine,
/// which checks [`VoteLedger::contains`] before it inserts.
pub struct VoteLedger {
    records: Vec<VoteRecord>,
}

impl View for VoteLedger {
    type V = Seq<VoteRecord>;

    closed spec fn view(&self) -> Seq<VoteRecord> {
        self.records@
    }
}

impl VoteLedger {
    /// No two records share a key.
    pub open spec fn wf(&self) -> bool {
        distinct_votes(self@)
    }

    /// An empty ledger.
    pub fn new() -> (r: VoteLedger)
        ensures
            r@ == Seq::<VoteRecord>::empty(),
            r.wf(),
    {
        VoteLedger { records: Vec::new() }
    }

    /// Whether `voter` has a recorded vote on `proposal_id`.
    pub fn contains(&self, proposal_id: ProposalId, voter: AccountId) -> (r: bool)
        ensures
            r == has_vote(self@, proposal_id, voter),
    {
        let mut i: usize = 0;
        while i < self.records.len()
            invariant
                i <= self.records.len(),
                forall|k: int|
                    0 <= k < i ==> !((#[trigger] self.records@[k]).proposal_id == proposal_id
                        && self.records@[k].voter == voter),
            decreases self.records.len() - i,
        {
            let rec = self.records[i];
            if rec.proposal_id == proposal_id && rec.voter == voter {
                return true;
            }
            i = i + 1;
        }
        false
    }

    /// The recorded choice of `voter` on `proposal_id`, if any.
    pub fn get(&self, proposal_id: ProposalId, voter: AccountId) -> (r: Option<bool>)
        requires
            self.wf(),
        ensures
            r is Some <==> has_vote(self@, proposal_id, voter),
            forall|k: int|
                0 <= k < self@.len() && (#[trigger] self@[k]).proposal_id == proposal_id
                    && self@[k].voter == voter ==> r == Some(self@[k].approve),
    {
        let mut i: usize = 0;
        while i < self.records.len()
            invariant
                self.wf(),
                i <= self.records.len(),
                forall|k: int|
                    0 <= k < i ==> !((#[trigger] self.records@[k]).proposal_id == proposal_id
                        && self.records@[k].voter == voter),
            decreases self.records.len() - i,
        {
            let rec = self.records[i];
            if rec.proposal_id == proposal_id && rec.voter == voter {
                proof {
                    assert forall|k: int|
                        0 <= k < self@.len() && (#[trigger] self@[k]).proposal_id == proposal_id
                            && self@[k].voter == voter implies self@[k].approve == rec.approve by {
                        assert(self@[i as int] == rec);
                        if k < i as int {
                            assert(!(self@[k].proposal_id == self@[i as int].proposal_id
                                && self@[k].voter == self@[i as int].voter));
                        } else if k > i as int {
                            assert(!(self@[i as int].proposal_id == self@[k].proposal_id
                                && self@[i as int].voter == self@[k].voter));
                        }
                    }
                }
                return Some(rec.approve);
            }
            i = i + 1;
        }
        None
    }

    /// Record a vote. The caller must have checked, via
    /// [`VoteLedger::contains`], that no vote by this voter on this proposal
    /// exists yet.
    pub fn insert(&mut self, proposal_id: ProposalId, voter: AccountId, approve: bool)
        requires
            !has_vote(old(self)@, proposal_id, voter),
        ensures
            final(self)@ == old(self)@.push(
                VoteRecord { proposal_id, voter, approve },
            ),
            old(self).wf() ==> final(self).wf(),
    {
        self.records.push(VoteRecord { proposal_id, voter, approve });
    }
}

} // verus!
