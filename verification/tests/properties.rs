//! Scenario tests for the boundary behavior of the lifecycle engine: the
//! description bounds, the voting window edges, the sweep's per-block cap,
//! and the saturating arithmetic.

use simple_governance::Config;
use simple_governance::Error;
use simple_governance::Event;
use simple_governance::GenesisConfig;
use simple_governance::Pallet;
use simple_governance::SubstrateWeight;
use simple_governance::Weight;
use simple_governance::WeightInfo;

fn config(max_len: u32, period: u64, cap: u32) -> Config {
    Config {
        max_description_length: max_len,
        default_voting_period: period,
        max_proposals_per_block: cap,
    }
}

#[test]
fn description_at_bound_accepted_one_byte_over_rejected() {
    // With the bound at 256, a 256-byte description succeeds with id 0 ...
    let mut pallet = Pallet::new(config(256, 100, 10));
    assert_eq!(pallet.propose(1, vec![7u8; 256], 1), Ok(0));

    // ... and a 257-byte one is rejected.
    assert_eq!(pallet.propose(1, vec![7u8; 257], 1), Err(Error::DescriptionTooLong));
    assert_eq!(pallet.next_proposal_id(), 1);
}

#[test]
fn configured_maximum_checked_before_storage_bound() {
    // A configured maximum below the 256-byte storage bound already rejects.
    let mut pallet = Pallet::new(config(10, 100, 10));
    assert_eq!(pallet.propose(1, vec![0u8; 11], 1), Err(Error::DescriptionTooLong));
    assert_eq!(pallet.propose(1, vec![0u8; 10], 1), Ok(0));
}

#[test]
fn voting_window_boundaries() {
    // Propose at block 1 with a period of 100: the window ends at block 101.
    let mut pallet = Pallet::new(config(256, 100, 10));
    assert_eq!(pallet.propose(1, b"window".to_vec(), 1), Ok(0));
    assert_eq!(pallet.proposals(0).unwrap().end_block, 101);

    // Voting exactly at the end block still succeeds ...
    assert!(pallet.vote(2, 0, true, 101).is_ok());
    // ... one block later it fails.
    assert_eq!(pallet.vote(3, 0, true, 102), Err(Error::VotingPeriodEnded));

    // Closing exactly at the end block fails; one block later it succeeds.
    assert_eq!(pallet.close_proposal(4, 0, 101), Err(Error::VotingPeriodNotEnded));
    assert!(pallet.close_proposal(4, 0, 102).is_ok());
}

#[test]
fn second_vote_rejected_regardless_of_choice() {
    let mut pallet = Pallet::new(config(256, 100, 10));
    assert_eq!(pallet.propose(1, b"one vote each".to_vec(), 1), Ok(0));

    assert!(pallet.vote(2, 0, true, 1).is_ok());
    // Same choice and flipped choice both fail the same way.
    assert_eq!(pallet.vote(2, 0, true, 1), Err(Error::AlreadyVoted));
    assert_eq!(pallet.vote(2, 0, false, 50), Err(Error::AlreadyVoted));

    // The tally still counts the single accepted vote.
    let tally = pallet.vote_tallies(0).unwrap();
    assert_eq!(tally.for_votes, 1);
    assert_eq!(tally.against_votes, 0);
}

#[test]
fn tally_sum_counts_distinct_voters() {
    let mut pallet = Pallet::new(config(256, 100, 10));
    assert_eq!(pallet.propose(1, b"count me".to_vec(), 1), Ok(0));

    assert!(pallet.vote(2, 0, true, 1).is_ok());
    assert!(pallet.vote(3, 0, false, 1).is_ok());
    assert!(pallet.vote(4, 0, true, 1).is_ok());
    assert_eq!(pallet.vote(4, 0, false, 1), Err(Error::AlreadyVoted));

    // Three distinct voters, three counted votes.
    let tally = pallet.vote_tallies(0).unwrap();
    assert_eq!(tally.for_votes + tally.against_votes, 3);
}

#[test]
fn ids_allocated_monotonically() {
    let mut pallet = Pallet::new(config(256, 100, 10));
    assert_eq!(pallet.next_proposal_id(), 0);
    assert_eq!(pallet.propose(1, b"first".to_vec(), 1), Ok(0));
    assert_eq!(pallet.next_proposal_id(), 1);
    assert_eq!(pallet.propose(2, b"second".to_vec(), 1), Ok(1));
    assert_eq!(pallet.next_proposal_id(), 2);

    // A rejected call does not consume an identifier.
    assert_eq!(pallet.propose(3, vec![0u8; 257], 1), Err(Error::DescriptionTooLong));
    assert_eq!(pallet.next_proposal_id(), 2);
}

#[test]
fn sweep_closes_both_expired_proposals_in_one_invocation() {
    // Two proposals expire in the same block and the cap (10) allows both.
    let mut pallet = Pallet::new(config(256, 100, 10));
    assert_eq!(pallet.propose(1, b"first of two".to_vec(), 1), Ok(0));
    assert_eq!(pallet.propose(2, b"second of two".to_vec(), 1), Ok(1));
    assert!(pallet.vote(3, 0, true, 1).is_ok());
    assert!(pallet.vote(4, 0, true, 1).is_ok());
    assert!(pallet.vote(5, 1, false, 1).is_ok());

    // One single sweep invocation past the end block closes both.
    pallet.on_initialize::<()>(102);
    assert!(pallet.proposals(0).unwrap().is_closed);
    assert!(pallet.proposals(1).unwrap().is_closed);

    // Each notification carries the tallies of its own proposal.
    assert!(pallet.events().contains(&Event::ProposalClosed {
        proposal_id: 0,
        for_votes: 2,
        against_votes: 0,
    }));
    assert!(pallet.events().contains(&Event::ProposalClosed {
        proposal_id: 1,
        for_votes: 0,
        against_votes: 1,
    }));
}

#[test]
fn sweep_stops_at_cap_and_finishes_later() {
    // Three proposals expire together, but at most one closes per block.
    let mut pallet = Pallet::new(config(256, 100, 1));
    assert_eq!(pallet.propose(1, b"a".to_vec(), 1), Ok(0));
    assert_eq!(pallet.propose(1, b"b".to_vec(), 1), Ok(1));
    assert_eq!(pallet.propose(1, b"c".to_vec(), 1), Ok(2));

    // First sweep: only the lowest id closes.
    pallet.on_initialize::<()>(102);
    assert!(pallet.proposals(0).unwrap().is_closed);
    assert!(!pallet.proposals(1).unwrap().is_closed);
    assert!(!pallet.proposals(2).unwrap().is_closed);

    // The next sweeps close the remainder, one per block.
    pallet.on_initialize::<()>(103);
    assert!(pallet.proposals(1).unwrap().is_closed);
    assert!(!pallet.proposals(2).unwrap().is_closed);

    pallet.on_initialize::<()>(104);
    assert!(pallet.proposals(2).unwrap().is_closed);
}

#[test]
fn sweep_skips_closed_and_live_proposals() {
    let mut pallet = Pallet::new(config(256, 100, 10));
    // One proposal that will expire, one closed manually, one still live.
    assert_eq!(pallet.propose(1, b"expires".to_vec(), 1), Ok(0));
    assert_eq!(pallet.propose(1, b"closed by hand".to_vec(), 1), Ok(1));
    assert_eq!(pallet.propose(1, b"still live".to_vec(), 60), Ok(2));
    assert!(pallet.close_proposal(9, 1, 102).is_ok());

    let events_before = pallet.events().len();
    pallet.on_initialize::<()>(102);

    // Only the expired open proposal was swept: one new notification.
    assert!(pallet.proposals(0).unwrap().is_closed);
    assert!(!pallet.proposals(2).unwrap().is_closed);
    assert_eq!(pallet.events().len(), events_before + 1);
}

#[test]
fn sweep_charges_one_closure_weight_each() {
    let mut pallet = Pallet::new(config(256, 100, 10));
    assert_eq!(pallet.propose(1, b"x".to_vec(), 1), Ok(0));
    assert_eq!(pallet.propose(2, b"y".to_vec(), 1), Ok(1));

    let w = pallet.on_initialize::<SubstrateWeight>(102);
    let per_close = SubstrateWeight::close_proposal();
    assert_eq!(w, Weight::zero().saturating_add(per_close).saturating_add(per_close));

    // A sweep with nothing to do charges nothing.
    let w2 = pallet.on_initialize::<SubstrateWeight>(103);
    assert_eq!(w2, Weight::zero());
}

#[test]
fn end_block_saturates_instead_of_overflowing() {
    let mut pallet = Pallet::new(config(256, 100, 10));
    assert_eq!(pallet.propose(1, b"late".to_vec(), u64::MAX - 5), Ok(0));
    assert_eq!(pallet.proposals(0).unwrap().end_block, u64::MAX);
}

#[test]
fn genesis_defaults_to_no_proposals() {
    let pallet = GenesisConfig::default().build(config(256, 100, 10));
    assert_eq!(pallet.next_proposal_id(), 0);
    assert!(pallet.proposals(0).is_none());
    assert!(pallet.events().is_empty());
}

#[test]
fn genesis_seeds_at_height_zero_and_notifies() {
    let genesis = GenesisConfig { proposals: vec![(5u64, b"seeded".to_vec())] };
    let pallet = genesis.build(config(256, 100, 10));

    let proposal = pallet.proposals(0).unwrap();
    assert_eq!(proposal.start_block, 0);
    assert_eq!(proposal.end_block, 100);
    assert!(!proposal.is_closed);
    assert!(pallet.events().contains(&Event::ProposalCreated {
        proposal_id: 0,
        proposer: 5,
        description: b"seeded".to_vec(),
        end_block: 100,
    }));
}

#[test]
fn dispatch_weights_match_their_parts() {
    let propose = SubstrateWeight::propose();
    assert_eq!(propose.ref_time, 16_000_000 + 2 * 25_000_000 + 3 * 100_000_000);
    assert_eq!(propose.proof_size, 3593);

    let vote = SubstrateWeight::vote();
    assert_eq!(vote.ref_time, 19_000_000 + 4 * 25_000_000 + 2 * 100_000_000);
    assert_eq!(vote.proof_size, 3777);

    let close = SubstrateWeight::close_proposal();
    assert_eq!(close.ref_time, 13_000_000 + 3 * 25_000_000 + 1 * 100_000_000);
    assert_eq!(close.proof_size, 3777);

    // The test configuration's weights are the same reference numbers.
    assert_eq!(<() as WeightInfo>::propose(), propose);
    assert_eq!(<() as WeightInfo>::vote(), vote);
    assert_eq!(<() as WeightInfo>::close_proposal(), close);
}
