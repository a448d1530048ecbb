use vstd::prelude::*;
use crate::proposal::AccountId;
use crate::proposal::BlockNumber;
use crate::proposal::ProposalId;

verus! {

/// Mathematical model of an emitted notification.
#[verifier::ext_equal]
pub ghost enum EventView {
    ProposalCreated {
        proposal_id: ProposalId,
        proposer: AccountId,
        description: Seq<u8>,
        end_block: BlockNumber,
    },
    Voted { proposal_id: ProposalId, voter: AccountId, vote: bool },
    ProposalClosed { proposal_id: ProposalId, for_votes: u32, against_votes: u32 },
}

/// A notification emitted by the lifecycle engine, observable by external
/// subscribers and never consumed by the engine itself.
#[derive(Debug, PartialEq, Eq)]
pub enum Event {
    /// A new proposal was created.
    ProposalCreated {
        proposal_id: ProposalId,
        proposer: AccountId,
        description: Vec<u8>,
        end_block: BlockNumber,
    },
    /// A vote was cast on a proposal (`vote` is true for, false against).
    Voted { proposal_id: ProposalId, voter: AccountId, vote: bool },
    /// A proposal was closed, with its final counts.
    ProposalClosed { proposal_id: ProposalId, for_votes: u32, against_votes: u32 },
}

impl View for Event {
    type V = EventView;

    open spec fn view(&self) -> EventView {
        match self {
            Event::ProposalCreated { proposal_id, proposer, description, end_block } => {
                EventView::ProposalCreated {
                    proposal_id: *proposal_id,
                    proposer: *proposer,
                    description: description@,
                    end_block: *end_block,
                }
            },
            Event::Voted { proposal_id, voter, vote } => {
                EventView::Voted { proposal_id: *proposal_id, voter: *voter, vote: *vote }
            },
            Event::ProposalClosed { proposal_id, for_votes, against_votes } => {
                EventView::ProposalClosed {
                    proposal_id: *proposal_id,
                    for_votes: *for_votes,
                    against_votes: *against_votes,
                }
            },
        }
    }
}

/// The models of a sequence of emitted notifications.
pub open spec fn events_view(events: Seq<Event>) -> Seq<EventView> {
    events.map_values(|e: Event| e@)
}

} // verus!
