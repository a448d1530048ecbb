//! Unit tests for the proposal lifecycle engine, exercising the three
//! operations, the per-block sweep, and genesis seeding.

use simple_governance::Config;
use simple_governance::Error;
use simple_governance::Event;
use simple_governance::GenesisConfig;
use simple_governance::Pallet;

/// The test configuration: descriptions up to 256 bytes, a voting period of
/// 100 blocks, at most 10 auto-closures per block.
fn test_config() -> Config {
    Config { max_description_length: 256, default_voting_period: 100, max_proposals_per_block: 10 }
}

fn new_test_ext() -> Pallet {
    Pallet::new(test_config())
}

/// Advance block by block from `from + 1` up to `to`, running the per-block
/// sweep at each new height.
fn run_to_block(pallet: &mut Pallet, from: u64, to: u64) {
    let mut block = from;
    while block < to {
        block += 1;
        pallet.on_initialize::<()>(block);
    }
}

#[test]
fn propose_works() {
    let mut pallet = new_test_ext();

    let description = b"Test proposal".to_vec();
    let proposer = 1u64;

    // Propose should work
    assert!(pallet.propose(proposer, description.clone(), 1).is_ok());

    // Check that the proposal was created
    let proposal = pallet.proposals(0).unwrap();
    assert_eq!(proposal.proposer, proposer);
    assert_eq!(proposal.description, description);
    assert_eq!(proposal.start_block, 1);
    assert_eq!(proposal.end_block, 101); // 1 + default_voting_period (100)
    assert!(!proposal.is_closed);

    // Check that vote tally was initialized
    let tally = pallet.vote_tallies(0).unwrap();
    assert_eq!(tally.for_votes, 0);
    assert_eq!(tally.against_votes, 0);

    // Check that next proposal ID was incremented
    assert_eq!(pallet.next_proposal_id(), 1);

    // Check event was emitted
    assert!(pallet.events().contains(&Event::ProposalCreated {
        proposal_id: 0,
        proposer,
        description,
        end_block: 101,
    }));
}

#[test]
fn propose_fails_with_long_description() {
    let mut pallet = new_test_ext();

    let long_description = vec![0u8; 300]; // Exceeds max_description_length (256)

    assert_eq!(pallet.propose(1, long_description, 0), Err(Error::DescriptionTooLong));
}

#[test]
fn vote_works() {
    let mut pallet = new_test_ext();

    // Create a proposal first
    assert!(pallet.propose(1, b"Test proposal".to_vec(), 1).is_ok());

    // Vote for the proposal
    assert!(pallet.vote(2, 0, true, 1).is_ok());

    // Check that the vote was recorded
    assert_eq!(pallet.votes(0, 2), Some(true));

    // Check that vote tally was updated
    let tally = pallet.vote_tallies(0).unwrap();
    assert_eq!(tally.for_votes, 1);
    assert_eq!(tally.against_votes, 0);

    // Vote against the proposal with different account
    assert!(pallet.vote(3, 0, false, 1).is_ok());

    // Check updated tally
    let tally = pallet.vote_tallies(0).unwrap();
    assert_eq!(tally.for_votes, 1);
    assert_eq!(tally.against_votes, 1);

    // Check events were emitted
    assert!(pallet.events().contains(&Event::Voted { proposal_id: 0, voter: 2, vote: true }));
    assert!(pallet.events().contains(&Event::Voted { proposal_id: 0, voter: 3, vote: false }));
}

#[test]
fn vote_fails_nonexistent_proposal() {
    let mut pallet = new_test_ext();

    assert_eq!(pallet.vote(1, 999, true, 0), Err(Error::ProposalNotFound));
}

#[test]
fn vote_fails_already_voted() {
    let mut pallet = new_test_ext();

    // Create a proposal
    assert!(pallet.propose(1, b"Test proposal".to_vec(), 1).is_ok());

    // Vote once
    assert!(pallet.vote(2, 0, true, 1).is_ok());

    // Try to vote again
    assert_eq!(pallet.vote(2, 0, false, 1), Err(Error::AlreadyVoted));
}

#[test]
fn vote_fails_after_voting_period() {
    let mut pallet = new_test_ext();

    // Create a proposal at block 1; the voting period ends at block 101
    assert!(pallet.propose(1, b"Test proposal".to_vec(), 1).is_ok());

    // Try to vote after the period ended, without running the sweep
    assert_eq!(pallet.vote(2, 0, true, 102), Err(Error::VotingPeriodEnded));
}

#[test]
fn vote_fails_on_closed_proposal() {
    let mut pallet = new_test_ext();

    // Create a proposal
    assert!(pallet.propose(1, b"Test proposal".to_vec(), 1).is_ok());

    // Close the proposal once the voting period has passed
    assert!(pallet.close_proposal(1, 0, 102).is_ok());

    // Try to vote on the closed proposal
    assert_eq!(pallet.vote(2, 0, true, 102), Err(Error::ProposalClosed));
}

#[test]
fn close_proposal_works() {
    let mut pallet = new_test_ext();

    // Create a proposal and add some votes
    assert!(pallet.propose(1, b"Test proposal".to_vec(), 1).is_ok());

    assert!(pallet.vote(2, 0, true, 1).is_ok());
    assert!(pallet.vote(3, 0, false, 1).is_ok());
    assert!(pallet.vote(4, 0, true, 1).is_ok());

    // Close the proposal manually, past the voting period
    assert!(pallet.close_proposal(5, 0, 102).is_ok());

    // Check that proposal is marked as closed
    let proposal = pallet.proposals(0).unwrap();
    assert!(proposal.is_closed);

    // Check event was emitted with correct vote counts
    assert!(pallet.events().contains(&Event::ProposalClosed {
        proposal_id: 0,
        for_votes: 2,
        against_votes: 1,
    }));
}

#[test]
fn close_proposal_fails_nonexistent() {
    let mut pallet = new_test_ext();

    assert_eq!(pallet.close_proposal(1, 999, 0), Err(Error::ProposalNotFound));
}

#[test]
fn close_proposal_fails_voting_period_not_ended() {
    let mut pallet = new_test_ext();

    // Create a proposal; the voting period ends at block 101
    assert!(pallet.propose(1, b"Test proposal".to_vec(), 1).is_ok());

    // Try to close before the voting period ends
    assert_eq!(pallet.close_proposal(1, 0, 50), Err(Error::VotingPeriodNotEnded));
}

#[test]
fn close_proposal_fails_already_closed() {
    let mut pallet = new_test_ext();

    // Create a proposal
    assert!(pallet.propose(1, b"Test proposal".to_vec(), 1).is_ok());

    // Close it once the voting period has passed
    assert!(pallet.close_proposal(1, 0, 102).is_ok());

    // Try to close again
    assert_eq!(pallet.close_proposal(1, 0, 102), Err(Error::ProposalClosed));
}

#[test]
fn auto_close_on_initialize_works() {
    let mut pallet = new_test_ext();

    // Create multiple proposals at block 1
    assert!(pallet.propose(1, b"Proposal 1".to_vec(), 1).is_ok());
    assert!(pallet.propose(2, b"Proposal 2".to_vec(), 1).is_ok());

    // Add some votes
    assert!(pallet.vote(3, 0, true, 1).is_ok());
    assert!(pallet.vote(4, 1, false, 1).is_ok());

    // Move past the voting period - this should auto-close proposals
    run_to_block(&mut pallet, 1, 102);

    // Check both proposals are closed
    assert!(pallet.proposals(0).unwrap().is_closed);
    assert!(pallet.proposals(1).unwrap().is_closed);

    // Check events were emitted
    assert!(pallet.events().contains(&Event::ProposalClosed {
        proposal_id: 0,
        for_votes: 1,
        against_votes: 0,
    }));
    assert!(pallet.events().contains(&Event::ProposalClosed {
        proposal_id: 1,
        for_votes: 0,
        against_votes: 1,
    }));
}

#[test]
fn multiple_proposals_work() {
    let mut pallet = new_test_ext();

    // Create multiple proposals
    for i in 0..5u32 {
        let description = format!("Proposal {}", i).as_bytes().to_vec();
        assert!(pallet.propose(1, description, 1).is_ok());
    }

    // Check all proposals were created
    for i in 0..5u32 {
        assert!(pallet.proposals(i).is_some());
    }

    assert_eq!(pallet.next_proposal_id(), 5);
}

#[test]
fn genesis_config_works() {
    // Test that genesis config can initialize proposals
    let genesis = GenesisConfig {
        proposals: vec![
            (1u64, b"Genesis proposal 1".to_vec()),
            (2u64, b"Genesis proposal 2".to_vec()),
        ],
    };
    let pallet = genesis.build(test_config());

    // Check proposals were created
    assert_eq!(pallet.next_proposal_id(), 2);

    let proposal1 = pallet.proposals(0).unwrap();
    assert_eq!(proposal1.proposer, 1u64);
    assert_eq!(proposal1.description, b"Genesis proposal 1".to_vec());

    let proposal2 = pallet.proposals(1).unwrap();
    assert_eq!(proposal2.proposer, 2u64);
    assert_eq!(proposal2.description, b"Genesis proposal 2".to_vec());
}
