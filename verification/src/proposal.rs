use vstd::prelude::*;

verus! {

/// Identifier of a proposal: an unsigned integer, assigned monotonically
/// starting at 0 and never reused.
pub type ProposalId = u32;

/// Identity of an account, supplied (already authenticated) by the enclosing
/// runtime.
pub type AccountId = u64;

/// A block height, read from the enclosing runtime's monotonically increasing
/// block counter.
pub type BlockNumber = u64;

/// Fixed upper bound, in bytes, of the stored representation of a proposal
/// description. A description is validated both against the configured
/// maximum length and against this storage bound.
pub const MAX_DESCRIPTION_BYTES: usize = 256;

/// Mathematical model of a stored proposal.
#[verifier::ext_equal]
pub ghost struct ProposalView {
    pub proposer: AccountId,
    pub description: Seq<u8>,
    pub start_block: BlockNumber,
    pub end_block: BlockNumber,
    pub is_closed: bool,
}

impl ProposalView {
    /// The description respects the fixed storage bound.
    pub open spec fn wf(self) -> bool {
        self.description.len() <= MAX_DESCRIPTION_BYTES
    }

    /// The same proposal with its closed flag set.
    pub open spec fn closed(self) -> ProposalView {
        ProposalView { is_closed: true, ..self }
    }
}

/// Information about a governance proposal.
#[derive(Debug, PartialEq, Eq)]
pub struct ProposalInfo {
    /// The account that created the proposal. Immutable after creation.
    pub proposer: AccountId,
    /// The proposal description: at most [`MAX_DESCRIPTION_BYTES`] bytes.
    /// Immutable after creation.
    pub description: Vec<u8>,
    /// The block at which the proposal was created. Immutable after creation.
    pub start_block: BlockNumber,
    /// The block at which voting ends. Immutable after creation.
    pub end_block: BlockNumber,
    /// Whether the proposal has been closed. Transitions from false to true
    /// at most once and never reverts.
    pub is_closed: bool,
}

impl View for ProposalInfo {
    type V = ProposalView;

    open spec fn view(&self) -> ProposalView {
        ProposalView {
            proposer: self.proposer,
            description: self.description@,
            start_block: self.start_block,
            end_block: self.end_block,
            is_closed: self.is_closed,
        }
    }
}

impl Clone for ProposalInfo {
    fn clone(&self) -> (r: Self)
        ensures
            r@ == self@,
    {
        let description = self.description.clone();
        proof {
            assert(description@ =~= self.description@);
        }
        ProposalInfo {
            proposer: self.proposer,
            description,
            start_block: self.start_block,
            end_block: self.end_block,
            is_closed: self.is_closed,
        }
    }
}

} // verus!
