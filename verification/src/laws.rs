use vstd::prelude::*;
use crate::config::Config;
use crate::error::Error;
use crate::ledger::count_choice;
use crate::ledger::count_votes;
use crate::ledger::has_vote;
use crate::ledger::lemma_count_push;
use crate::ledger::lemma_count_votes_splits;
use crate::ledger::VoteRecord;
use crate::proposal::AccountId;
use crate::proposal::BlockNumber;
use crate::proposal::ProposalId;
use crate::proposal::ProposalView;
use crate::state::capped_at_u32;
use crate::state::description_ok;
use crate::state::expired_open_below;
use crate::state::spec_close;
use crate::state::spec_genesis;
use crate::state::spec_propose;
use crate::state::spec_sweep;
use crate::state::spec_vote;
use crate::state::sweep_closes;
use crate::state::sweep_events;
use crate::state::sweep_proposals;
use crate::state::StateView;
use crate::tally::VoteTally;

verus! {

/// A ledger with no vote on `proposal_id` counts zero votes on it.
pub proof fn lemma_count_absent(votes: Seq<VoteRecord>, proposal_id: ProposalId)
    requires
        forall|k: int| 0 <= k < votes.len() ==> (#[trigger] votes[k]).proposal_id != proposal_id,
    ensures
        count_choice(votes, proposal_id, true) == 0,
        count_choice(votes, proposal_id, false) == 0,
        count_votes(votes, proposal_id) == 0,
    decreases votes.len(),
{
    if votes.len() > 0 {
        lemma_count_absent(votes.drop_last(), proposal_id);
    }
}

/// `propose` preserves the state invariant, provided the identifier space is
/// not exhausted.
pub proof fn lemma_propose_preserves_wf(
    s: StateView,
    who: AccountId,
    description: Seq<u8>,
    now: BlockNumber,
)
    requires
        s.wf(),
        s.proposals.len() < u32::MAX,
    ensures
        spec_propose(s, who, description, now).0.wf(),
{
    if description_ok(s.config, description) {
        let s1 = spec_propose(s, who, description, now).0;
        let id = s.next_proposal_id;
        assert(id as int == s.proposals.len());
        let end_block = now.saturating_add(s.config.default_voting_period);
        let p = ProposalView {
            proposer: who,
            description,
            start_block: now,
            end_block,
            is_closed: false,
        };
        assert(s1.proposals == s.proposals.push(p));
        assert forall|k: int| 0 <= k < s.votes.len() implies (#[trigger] s.votes[k]).proposal_id
            != id by {}
        lemma_count_absent(s.votes, id);
        assert forall|i: int| 0 <= i < s1.tallies.len() implies (#[trigger] s1.tallies[i]).for_votes
            == capped_at_u32(count_choice(s1.votes, i as ProposalId, true)) && s1.tallies[i].against_votes
            == capped_at_u32(count_choice(s1.votes, i as ProposalId, false)) by {
            if i < s.tallies.len() {
                assert(s1.tallies[i] == s.tallies[i]);
            } else {
                assert(s1.tallies[i] == (VoteTally { for_votes: 0, against_votes: 0 }));
                assert(i as ProposalId == id);
            }
        }
        assert forall|i: int| 0 <= i < s1.proposals.len() implies (
        #[trigger] s1.proposals[i]).wf() by {
            if i < s.proposals.len() {
                assert(s1.proposals[i] == s.proposals[i]);
            }
        }
    }
}

/// `vote` preserves the state invariant.
pub proof fn lemma_vote_preserves_wf(
    s: StateView,
    who: AccountId,
    proposal_id: ProposalId,
    vote: bool,
    now: BlockNumber,
)
    requires
        s.wf(),
    ensures
        spec_vote(s, who, proposal_id, vote, now).0.wf(),
{
    let s1 = spec_vote(s, who, proposal_id, vote, now).0;
    if spec_vote(s, who, proposal_id, vote, now).1 is Ok {
        let rec = VoteRecord { proposal_id, voter: who, approve: vote };
        assert(s1.votes == s.votes.push(rec));
        // Distinctness survives: the new record's key was absent.
        assert forall|k1: int, k2: int| 0 <= k1 < k2 < s1.votes.len() implies !((
        #[trigger] s1.votes[k1]).proposal_id == (#[trigger] s1.votes[k2]).proposal_id
            && s1.votes[k1].voter == s1.votes[k2].voter) by {
            if k2 == s.votes.len() {
                assert(s1.votes[k1] == s.votes[k1]);
                if s.votes[k1].proposal_id == proposal_id && s.votes[k1].voter == who {
                    assert(has_vote(s.votes, proposal_id, who));
                }
            }
        }
        lemma_count_push(s.votes, rec);
        assert forall|i: int| 0 <= i < s1.tallies.len() implies (#[trigger] s1.tallies[i]).for_votes
            == capped_at_u32(count_choice(s1.votes, i as ProposalId, true)) && s1.tallies[i].against_votes
            == capped_at_u32(count_choice(s1.votes, i as ProposalId, false)) by {
            assert(count_choice(s1.votes, i as ProposalId, true) == count_choice(
                s.votes,
                i as ProposalId,
                true,
            ) + if rec.proposal_id == i as ProposalId && rec.approve {
                1nat
            } else {
                0nat
            });
            assert(count_choice(s1.votes, i as ProposalId, false) == count_choice(
                s.votes,
                i as ProposalId,
                false,
            ) + if rec.proposal_id == i as ProposalId && !rec.approve {
                1nat
            } else {
                0nat
            });
        }
    }
}

/// `close` preserves the state invariant.
pub proof fn lemma_close_preserves_wf(s: StateView, proposal_id: ProposalId, now: BlockNumber)
    requires
        s.wf(),
    ensures
        spec_close(s, proposal_id, now).0.wf(),
{
    let s1 = spec_close(s, proposal_id, now).0;
    if spec_close(s, proposal_id, now).1 is Ok {
        assert forall|i: int| 0 <= i < s1.proposals.len() implies (
        #[trigger] s1.proposals[i]).wf() by {
            assert(s.proposals[i].wf());
        }
    }
}

/// The per-block sweep preserves the state invariant.
pub proof fn lemma_sweep_preserves_wf(s: StateView, now: BlockNumber)
    requires
        s.wf(),
    ensures
        spec_sweep(s, now).wf(),
{
    let s1 = spec_sweep(s, now);
    assert forall|i: int| 0 <= i < s1.proposals.len() implies (#[trigger] s1.proposals[i]).wf() by {
        assert(s.proposals[i].wf());
    }
}

/// Seeding the genesis proposals from the empty state yields a well-formed
/// state holding exactly one proposal per entry.
pub proof fn lemma_genesis_wf(config: Config, entries: Seq<(AccountId, Seq<u8>)>)
    requires
        entries.len() <= u32::MAX,
        forall|i: int|
            0 <= i < entries.len() ==> description_ok(config, (#[trigger] entries[i]).1),
    ensures
        spec_genesis(config, entries).wf(),
        spec_genesis(config, entries).proposals.len() == entries.len(),
        spec_genesis(config, entries).config == config,
    decreases entries.len(),
{
    if entries.len() > 0 {
        lemma_genesis_wf(config, entries.drop_last());
        lemma_propose_preserves_wf(
            spec_genesis(config, entries.drop_last()),
            entries.last().0,
            entries.last().1,
            0,
        );
    }
}

/// LAW: an accepted `propose` returns exactly the prior value of the
/// identifier counter, and advances the counter by exactly one. (With the
/// identifier space exhausted — `u32::MAX` proposals already stored — the
/// saturating counter could not advance, so that state is excluded.)
pub proof fn lemma_propose_allocates_next(
    s: StateView,
    who: AccountId,
    description: Seq<u8>,
    now: BlockNumber,
)
    requires
        s.wf(),
        s.proposals.len() < u32::MAX,
        description_ok(s.config, description),
    ensures
        spec_propose(s, who, description, now).1 == Ok::<ProposalId, Error>(s.next_proposal_id),
        spec_propose(s, who, description, now).0.next_proposal_id == s.next_proposal_id + 1,
{
}

/// LAW: for every proposal, the sum of its two tally counters equals the
/// number of distinct (proposal, voter) entries recorded for it in the vote
/// ledger. (The counters saturate at `u32::MAX`, so the law is stated for
/// ledgers that have not reached that many votes on one proposal.)
pub proof fn lemma_tally_matches_ledger(s: StateView, proposal_id: ProposalId)
    requires
        s.wf(),
        (proposal_id as int) < s.proposals.len(),
        count_votes(s.votes, proposal_id) <= u32::MAX,
    ensures
        s.tallies[proposal_id as int].for_votes + s.tallies[proposal_id as int].against_votes
            == count_votes(s.votes, proposal_id),
{
    lemma_count_votes_splits(s.votes, proposal_id);
}

/// LAW: after an accepted vote, a second `vote` by the same identity on the
/// same proposal fails with `AlreadyVoted`, regardless of the choice, at any
/// block within the voting period. (At a later block the period check comes
/// first and reports `VotingPeriodEnded` instead.)
pub proof fn lemma_second_vote_rejected(
    s: StateView,
    who: AccountId,
    proposal_id: ProposalId,
    vote: bool,
    now: BlockNumber,
    vote2: bool,
    now2: BlockNumber,
)
    requires
        s.wf(),
        spec_vote(s, who, proposal_id, vote, now).1 is Ok,
        now2 <= s.proposals[proposal_id as int].end_block,
    ensures
        spec_vote(spec_vote(s, who, proposal_id, vote, now).0, who, proposal_id, vote2, now2).1
            == Err::<(), Error>(Error::AlreadyVoted),
{
    let s1 = spec_vote(s, who, proposal_id, vote, now).0;
    assert(s1.votes.last() == (VoteRecord { proposal_id, voter: who, approve: vote }));
    assert(has_vote(s1.votes, proposal_id, who));
}

/// LAW: a vote on an existing proposal whose end block has passed fails with
/// `VotingPeriodEnded`, even if the proposal has not been closed yet, and
/// leaves the state untouched.
pub proof fn lemma_vote_after_period_rejected(
    s: StateView,
    who: AccountId,
    proposal_id: ProposalId,
    vote: bool,
    now: BlockNumber,
)
    requires
        (proposal_id as int) < s.proposals.len(),
        !s.proposals[proposal_id as int].is_closed,
        now > s.proposals[proposal_id as int].end_block,
    ensures
        spec_vote(s, who, proposal_id, vote, now) == (s, Err::<(), Error>(Error::VotingPeriodEnded)),
{
}

/// LAW: closing an existing, still open proposal fails with
/// `VotingPeriodNotEnded` at every block up to and including its end block
/// (strictly-greater is required), leaves the state untouched in that case,
/// and succeeds at every later block.
pub proof fn lemma_close_timing(s: StateView, proposal_id: ProposalId, now: BlockNumber)
    requires
        (proposal_id as int) < s.proposals.len(),
        !s.proposals[proposal_id as int].is_closed,
    ensures
        now <= s.proposals[proposal_id as int].end_block ==> spec_close(s, proposal_id, now) == (
        s,
        Err::<(), Error>(Error::VotingPeriodNotEnded),
        ),
        now > s.proposals[proposal_id as int].end_block ==> spec_close(s, proposal_id, now).1
            == Ok::<(), Error>(()),
{
}

/// LAW: a stored proposal record is immutable but for its closed flag, and
/// the flag never reverts: every transition either leaves a record untouched
/// or flags it closed.
pub proof fn lemma_closed_monotonic(
    s: StateView,
    who: AccountId,
    description: Seq<u8>,
    proposal_id: ProposalId,
    vote: bool,
    now: BlockNumber,
)
    ensures
        forall|i: int|
            0 <= i < s.proposals.len() && i < s.next_proposal_id ==> #[trigger] spec_propose(
                s,
                who,
                description,
                now,
            ).0.proposals[i] == s.proposals[i],
        forall|i: int|
            0 <= i < s.proposals.len() ==> #[trigger] spec_vote(
                s,
                who,
                proposal_id,
                vote,
                now,
            ).0.proposals[i] == s.proposals[i],
        forall|i: int|
            0 <= i < s.proposals.len() ==> #[trigger] spec_close(s, proposal_id, now).0.proposals[i]
                == s.proposals[i] || spec_close(s, proposal_id, now).0.proposals[i]
                == s.proposals[i].closed(),
        forall|i: int|
            0 <= i < s.proposals.len() ==> #[trigger] spec_sweep(s, now).proposals[i]
                == s.proposals[i] || spec_sweep(s, now).proposals[i] == s.proposals[i].closed(),
{
}

/// Counting expired open proposals over a longer prefix never counts fewer.
pub proof fn lemma_expired_open_below_monotonic(
    proposals: Seq<ProposalView>,
    now: BlockNumber,
    j1: int,
    j2: int,
)
    requires
        j1 <= j2,
    ensures
        expired_open_below(proposals, now, j1) <= expired_open_below(proposals, now, j2),
    decreases j2 - j1,
{
    if j1 < j2 {
        lemma_expired_open_below_monotonic(proposals, now, j1, j2 - 1);
    }
}

/// The sweep emits no notification for a stretch of proposals it does not
/// close.
pub proof fn lemma_sweep_events_stable(
    proposals: Seq<ProposalView>,
    tallies: Seq<VoteTally>,
    now: BlockNumber,
    cap: u32,
    j1: int,
    j2: int,
)
    requires
        0 <= j1 <= j2,
        forall|i: int| j1 <= i < j2 ==> !sweep_closes(proposals, now, cap, i),
    ensures
        sweep_events(proposals, tallies, now, cap, j2) == sweep_events(
            proposals,
            tallies,
            now,
            cap,
            j1,
        ),
    decreases j2 - j1,
{
    if j1 < j2 {
        lemma_sweep_events_stable(proposals, tallies, now, cap, j1, j2 - 1);
        assert(sweep_events(proposals, tallies, now, cap, j2) =~= sweep_events(
            proposals,
            tallies,
            now,
            cap,
            j2 - 1,
        ));
    }
}

/// LAW: among the first `j` proposals, the sweep closes — and notifies —
/// exactly the backlog of expired open proposals clipped at the configured
/// cap; in particular it never closes more than `cap` proposals in one
/// invocation.
pub proof fn lemma_sweep_event_count(
    proposals: Seq<ProposalView>,
    tallies: Seq<VoteTally>,
    now: BlockNumber,
    cap: u32,
    j: int,
)
    ensures
        sweep_events(proposals, tallies, now, cap, j).len() == if expired_open_below(
            proposals,
            now,
            j,
        ) <= cap {
            expired_open_below(proposals, now, j)
        } else {
            cap as nat
        },
        sweep_events(proposals, tallies, now, cap, j).len() <= cap,
    decreases j,
{
    if j > 0 {
        lemma_sweep_event_count(proposals, tallies, now, cap, j - 1);
    }
}

/// LAW: one sweep reduces the backlog of expired open proposals by exactly
/// the number it closed — the backlog clipped at the cap — so sweeps at
/// subsequent blocks close the remainder, cap by cap, as long as it is still
/// eligible.
pub proof fn lemma_sweep_remaining_backlog(
    proposals: Seq<ProposalView>,
    now: BlockNumber,
    cap: u32,
    j: int,
)
    requires
        j <= proposals.len(),
    ensures
        expired_open_below(sweep_proposals(proposals, now, cap), now, j) == expired_open_below(
            proposals,
            now,
            j,
        ) - if expired_open_below(proposals, now, j) <= cap {
            expired_open_below(proposals, now, j)
        } else {
            cap as nat
        },
    decreases j,
{
    if j > 0 {
        lemma_sweep_remaining_backlog(proposals, now, cap, j - 1);
        lemma_expired_open_below_monotonic(proposals, now, j - 1, j);
    }
}

} // verus!
