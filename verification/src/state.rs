use vstd::prelude::*;
use crate::config::Config;
use crate::error::Error;
use crate::event::EventView;
use crate::ledger::count_choice;
use crate::ledger::distinct_votes;
use crate::ledger::has_vote;
use crate::ledger::VoteRecord;
use crate::proposal::AccountId;
use crate::proposal::BlockNumber;
use crate::proposal::ProposalId;
use crate::proposal::ProposalView;
use crate::proposal::MAX_DESCRIPTION_BYTES;
use crate::tally::VoteTally;

verus! {

/// Mathematical model of the engine: the proposal store, the tally
/// aggregator, the vote ledger, the id counter, and the notifications
/// emitted so far, together with the deployment configuration.
#[verifier::ext_equal]
pub ghost struct StateView {
    pub config: Config,
    pub next_proposal_id: ProposalId,
    pub proposals: Seq<ProposalView>,
    pub tallies: Seq<VoteTally>,
    pub votes: Seq<VoteRecord>,
    pub events: Seq<EventView>,
}

/// `n` clipped to a `u32` counter, the saturation point of the tallies.
pub open spec fn capped_at_u32(n: nat) -> u32 {
    if n <= u32::MAX {
        n as u32
    } else {
        u32::MAX
    }
}

/// The tally stored for proposal `i`, defaulting to zero when absent. A
/// defensive default: in a well-formed state every proposal has a tally.
pub open spec fn tally_at(tallies: Seq<VoteTally>, i: int) -> VoteTally {
    if 0 <= i < tallies.len() {
        tallies[i]
    } else {
        VoteTally { for_votes: 0, against_votes: 0 }
    }
}

impl StateView {
    /// The state invariant, established by the initial state and preserved
    /// by every transition:
    /// - proposal identifiers are dense and never reused: the next one to be
    ///   issued equals the number of proposals ever created, which stays
    ///   within the identifier space;
    /// - every proposal has a tally, created with it;
    /// - every stored description respects the fixed storage bound;
    /// - the vote ledger holds at most one vote per (proposal, voter) key,
    ///   and only for proposals that exist;
    /// - each tally counter equals the number of ledger entries it counts,
    ///   clipped at the counter's maximum.
    pub open spec fn wf(self) -> bool {
        &&& self.proposals.len() <= u32::MAX
        &&& self.next_proposal_id as nat == self.proposals.len()
        &&& self.tallies.len() == self.proposals.len()
        &&& forall|i: int| 0 <= i < self.proposals.len() ==> (#[trigger] self.proposals[i]).wf()
        &&& distinct_votes(self.votes)
        &&& forall|k: int|
            0 <= k < self.votes.len() ==> (#[trigger] self.votes[k]).proposal_id
                < self.proposals.len()
        &&& forall|i: int|
            0 <= i < self.tallies.len() ==> (#[trigger] self.tallies[i]).for_votes
                == capped_at_u32(count_choice(self.votes, i as ProposalId, true))
                && self.tallies[i].against_votes == capped_at_u32(
                count_choice(self.votes, i as ProposalId, false),
            )
    }
}

/// `s` with `v` stored at `i`: overwritten if `i` is in range, appended if
/// `i == s.len()`.
pub open spec fn insert_at<T>(s: Seq<T>, i: int, v: T) -> Seq<T> {
    if i < s.len() {
        s.update(i, v)
    } else {
        s.push(v)
    }
}

/// Whether `description` passes both length checks of `propose`: the
/// configured maximum and the fixed storage bound.
pub open spec fn description_ok(config: Config, description: Seq<u8>) -> bool {
    description.len() <= config.max_description_length && description.len()
        <= MAX_DESCRIPTION_BYTES
}

/// `propose` as a transition on the model: the state after the call, and the
/// allocated identifier or the error reported.
///
/// A rejected call leaves the state untouched. An accepted call stores the
/// new proposal under the issued identifier with a voting window of the
/// configured period starting now (saturating), creates its zeroed tally,
/// advances the identifier counter (saturating), and emits one
/// `ProposalCreated` notification.
pub open spec fn spec_propose(
    s: StateView,
    who: AccountId,
    description: Seq<u8>,
    now: BlockNumber,
) -> (StateView, Result<ProposalId, Error>) {
    if !description_ok(s.config, description) {
        (s, Err(Error::DescriptionTooLong))
    } else {
        let id = s.next_proposal_id;
        let end_block = now.saturating_add(s.config.default_voting_period);
        let p = ProposalView {
            proposer: who,
            description,
            start_block: now,
            end_block,
            is_closed: false,
        };
        (
            StateView {
                next_proposal_id: id.saturating_add(1),
                proposals: insert_at(s.proposals, id as int, p),
                tallies: insert_at(
                    s.tallies,
                    id as int,
                    VoteTally { for_votes: 0, against_votes: 0 },
                ),
                events: s.events.push(
                    EventView::ProposalCreated { proposal_id: id, proposer: who, description, end_block },
                ),
                ..s
            },
            Ok(id),
        )
    }
}

/// `vote` as a transition on the model: the state after the call and its
/// outcome.
///
/// The checks run in this order, and the first failing one names the error:
/// the proposal must exist, must not be closed, its end block must not have
/// passed (voting at the end block itself is still accepted), and the voter
/// must not have voted on it yet. A rejected call leaves the state untouched;
/// an accepted one records the vote, adds it to the proposal's tally
/// (saturating), and emits one `Voted` notification.
pub open spec fn spec_vote(
    s: StateView,
    who: AccountId,
    proposal_id: ProposalId,
    vote: bool,
    now: BlockNumber,
) -> (StateView, Result<(), Error>) {
    if proposal_id as int >= s.proposals.len() {
        (s, Err(Error::ProposalNotFound))
    } else if s.proposals[proposal_id as int].is_closed {
        (s, Err(Error::ProposalClosed))
    } else if now > s.proposals[proposal_id as int].end_block {
        (s, Err(Error::VotingPeriodEnded))
    } else if has_vote(s.votes, proposal_id, who) {
        (s, Err(Error::AlreadyVoted))
    } else {
        (
            StateView {
                votes: s.votes.push(VoteRecord { proposal_id, voter: who, approve: vote }),
                tallies: if (proposal_id as int) < s.tallies.len() {
                    s.tallies.update(
                        proposal_id as int,
                        s.tallies[proposal_id as int].spec_bumped(vote),
                    )
                } else {
                    s.tallies
                },
                events: s.events.push(EventView::Voted { proposal_id, voter: who, vote }),
                ..s
            },
            Ok(()),
        )
    }
}

/// `close` as a transition on the model: the state after the call and its
/// outcome.
///
/// The checks run in this order: the proposal must exist, must not already be
/// closed, and its end block must be strictly in the past (closing at the end
/// block itself is still rejected). A rejected call leaves the state
/// untouched; an accepted one flags the proposal closed and emits one
/// `ProposalClosed` notification with the proposal's current counts.
pub open spec fn spec_close(s: StateView, proposal_id: ProposalId, now: BlockNumber) -> (
    StateView,
    Result<(), Error>,
) {
    if proposal_id as int >= s.proposals.len() {
        (s, Err(Error::ProposalNotFound))
    } else if s.proposals[proposal_id as int].is_closed {
        (s, Err(Error::ProposalClosed))
    } else if now <= s.proposals[proposal_id as int].end_block {
        (s, Err(Error::VotingPeriodNotEnded))
    } else {
        let tally = tally_at(s.tallies, proposal_id as int);
        (
            StateView {
                proposals: s.proposals.update(
                    proposal_id as int,
                    s.proposals[proposal_id as int].closed(),
                ),
                events: s.events.push(
                    EventView::ProposalClosed {
                        proposal_id,
                        for_votes: tally.for_votes,
                        against_votes: tally.against_votes,
                    },
                ),
                ..s
            },
            Ok(()),
        )
    }
}

/// Whether the sweep at block `now` finds `p` expired and still open.
pub open spec fn expired_open(p: ProposalView, now: BlockNumber) -> bool {
    !p.is_closed && now > p.end_block
}

/// Number of proposals among the first `j` that are expired and open at
/// block `now`.
pub open spec fn expired_open_below(
    proposals: Seq<ProposalView>,
    now: BlockNumber,
    j: int,
) -> nat
    decreases j,
{
    if j <= 0 {
        0
    } else {
        expired_open_below(proposals, now, j - 1) + if j - 1 < proposals.len() && expired_open(
            proposals[j - 1],
            now,
        ) {
            1nat
        } else {
            0nat
        }
    }
}

/// Whether the sweep at block `now` closes proposal `i`: it is expired and
/// open, and fewer than `cap` expired open proposals precede it in the
/// store's ascending identifier order.
pub open spec fn sweep_closes(
    proposals: Seq<ProposalView>,
    now: BlockNumber,
    cap: u32,
    i: int,
) -> bool {
    &&& 0 <= i < proposals.len()
    &&& expired_open(proposals[i], now)
    &&& expired_open_below(proposals, now, i) < cap
}

/// The proposal store after the sweep: every swept proposal flagged closed,
/// everything else unchanged.
pub open spec fn sweep_proposals(
    proposals: Seq<ProposalView>,
    now: BlockNumber,
    cap: u32,
) -> Seq<ProposalView> {
    Seq::new(
        proposals.len(),
        |i: int|
            if sweep_closes(proposals, now, cap, i) {
                proposals[i].closed()
            } else {
                proposals[i]
            },
    )
}

/// The notifications the sweep emits for the first `j` proposals: one
/// `ProposalClosed` per swept proposal, in ascending identifier order, each
/// carrying the proposal's current counts.
pub open spec fn sweep_events(
    proposals: Seq<ProposalView>,
    tallies: Seq<VoteTally>,
    now: BlockNumber,
    cap: u32,
    j: int,
) -> Seq<EventView>
    decreases j,
{
    if j <= 0 {
        Seq::empty()
    } else {
        sweep_events(proposals, tallies, now, cap, j - 1) + if sweep_closes(
            proposals,
            now,
            cap,
            j - 1,
        ) {
            seq![
                EventView::ProposalClosed {
                    proposal_id: (j - 1) as ProposalId,
                    for_votes: tally_at(tallies, j - 1).for_votes,
                    against_votes: tally_at(tallies, j - 1).against_votes,
                },
            ]
        } else {
            Seq::empty()
        }
    }
}

/// The per-block sweep as a transition on the model: closes, in ascending
/// identifier order, the expired open proposals up to the configured
/// per-block cap, and emits one `ProposalClosed` notification per closure.
/// Votes, tallies and the identifier counter are untouched.
pub open spec fn spec_sweep(s: StateView, now: BlockNumber) -> StateView {
    let cap = s.config.max_proposals_per_block;
    StateView {
        proposals: sweep_proposals(s.proposals, now, cap),
        events: s.events + sweep_events(
            s.proposals,
            s.tallies,
            now,
            cap,
            s.proposals.len() as int,
        ),
        ..s
    }
}

/// The empty state under `config`: no proposals, no votes, no notifications,
/// the identifier counter at 0.
pub open spec fn initial_state(config: Config) -> StateView {
    StateView {
        config,
        next_proposal_id: 0,
        proposals: Seq::empty(),
        tallies: Seq::empty(),
        votes: Seq::empty(),
        events: Seq::empty(),
    }
}

/// The state after seeding the genesis proposals in order, each created at
/// the genesis height 0 with the same validation as `propose`.
pub open spec fn spec_genesis(config: Config, entries: Seq<(AccountId, Seq<u8>)>) -> StateView
    decreases entries.len(),
{
    if entries.len() == 0 {
        initial_state(config)
    } else {
        spec_propose(
            spec_genesis(config, entries.drop_last()),
            entries.last().0,
            entries.last().1,
            0,
        ).0
    }
}

} // verus!
