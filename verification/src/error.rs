use vstd::prelude::*;

verus! {

/// Errors returned by the proposal lifecycle operations.
///
/// Every error is locally recoverable: it is reported to the caller and the
/// failing operation leaves the state untouched.
#[derive(Clone, Copy, Debug, PartialEq, Eq, Structural)]
pub enum Error {
    /// The proposal description exceeds the maximum allowed length.
    DescriptionTooLong,
    /// The specified proposal does not exist.
    ProposalNotFound,
    /// The proposal's voting period has not yet ended.
    VotingPeriodNotEnded,
    /// The account has already voted on this proposal.
    AlreadyVoted,
    /// The proposal is already closed and cannot be voted on.
    ProposalClosed,
    /// The voting period has ended and the proposal can no longer be voted on.
    VotingPeriodEnded,
}

} // verus!
