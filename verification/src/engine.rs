use vstd::prelude::*;
use crate::config::Config;
use crate::error::Error;
use crate::event::events_view;
use crate::event::Event;
use crate::event::EventView;
use crate::laws::lemma_close_preserves_wf;
use crate::laws::lemma_expired_open_below_monotonic;
use crate::laws::lemma_propose_preserves_wf;
use crate::laws::lemma_sweep_events_stable;
use crate::laws::lemma_sweep_preserves_wf;
use crate::laws::lemma_vote_preserves_wf;
use crate::ledger::has_vote;
use crate::ledger::VoteLedger;
use crate::proposal::AccountId;
use crate::proposal::BlockNumber;
use crate::proposal::ProposalId;
use crate::proposal::ProposalInfo;
use crate::proposal::MAX_DESCRIPTION_BYTES;
use crate::state::description_ok;
use crate::state::expired_open_below;
use crate::state::initial_state;
use crate::state::spec_close;
use crate::state::spec_genesis;
use crate::state::spec_propose;
use crate::state::spec_sweep;
use crate::state::spec_vote;
use crate::state::sweep_closes;
use crate::state::sweep_events;
use crate::state::sweep_proposals;
use crate::state::tally_at;
use crate::state::StateView;
use crate::store::ProposalStore;
use crate::tally::TallyAggregator;
use crate::tally::VoteTally;
use crate::weights::Weight;
use crate::weights::WeightInfo;

verus! {

/// The proposal lifecycle engine: owns the proposal store, the vote ledger,
/// the tally aggregator, the identifier counter, and the notifications
/// emitted so far. The enclosing runtime authenticates the caller identity
/// and supplies the current block height with every operation.
pub struct Pallet {
    config: Config,
    next_proposal_id: ProposalId,
    proposals: ProposalStore,
    votes: VoteLedger,
    tallies: TallyAggregator,
    events: Vec<Event>,
}

impl View for Pallet {
    type V = StateView;

    closed spec fn view(&self) -> StateView {
        StateView {
            config: self.config,
            next_proposal_id: self.next_proposal_id,
            proposals: self.proposals@,
            tallies: self.tallies@,
            votes: self.votes@,
            events: events_view(self.events@),
        }
    }
}

impl Pallet {
    /// The state invariant; see [`StateView::wf`]. Established by
    /// [`Pallet::new`] and preserved by every operation.
    pub open spec fn wf(&self) -> bool {
        self@.wf()
    }

    /// A fresh engine under `config`: no proposals, no votes, no
    /// notifications, the identifier counter at 0.
    pub fn new(config: Config) -> (r: Pallet)
        ensures
            r@ == initial_state(config),
            r.wf(),
    {
        let r = Pallet {
            config,
            next_proposal_id: 0,
            proposals: ProposalStore::new(),
            votes: VoteLedger::new(),
            tallies: TallyAggregator::new(),
            events: Vec::new(),
        };
        proof {
            assert(events_view(r.events@) =~= Seq::<EventView>::empty());
            assert(r@ =~= initial_state(config));
        }
        r
    }

    /// Create a new proposal on behalf of `who` at block height `now` and
    /// return its identifier.
    ///
    /// Fails with `DescriptionTooLong` when the description exceeds the
    /// configured maximum length or the fixed storage bound, leaving the
    /// state untouched. On success the proposal is stored with a voting
    /// window of the configured period (saturating), its tally is zeroed,
    /// the identifier counter advances, and a `ProposalCreated` notification
    /// is emitted. The identifier space must not be exhausted.
    pub fn propose(&mut self, who: AccountId, description: Vec<u8>, now: BlockNumber) -> (r:
        Result<ProposalId, Error>)
        requires
            old(self).wf(),
            old(self)@.proposals.len() < u32::MAX,
        ensures
            final(self).wf(),
            final(self)@ == spec_propose(old(self)@, who, description@, now).0,
            r == spec_propose(old(self)@, who, description@, now).1,
    {
        if description.len() > self.config.max_description_length as usize {
            return Err(Error::DescriptionTooLong);
        }
        if description.len() > MAX_DESCRIPTION_BYTES {
            return Err(Error::DescriptionTooLong);
        }
        let proposal_id = self.next_proposal_id;
        let end_block = now.saturating_add(self.config.default_voting_period);
        let description_for_event = description.clone();
        proof {
            assert(description_for_event@ =~= description@);
        }
        let proposal = ProposalInfo {
            proposer: who,
            description,
            start_block: now,
            end_block,
            is_closed: false,
        };
        self.proposals.insert(proposal_id, proposal);
        self.tallies.init(proposal_id);
        self.next_proposal_id = self.next_proposal_id.saturating_add(1);
        self.events.push(
            Event::ProposalCreated {
                proposal_id,
                proposer: who,
                description: description_for_event,
                end_block,
            },
        );
        proof {
            lemma_propose_preserves_wf(old(self)@, who, description@, now);
            assert(events_view(self.events@) =~= old(self)@.events.push(
                EventView::ProposalCreated {
                    proposal_id,
                    proposer: who,
                    description: description@,
                    end_block,
                },
            ));
            assert(self@ =~= spec_propose(old(self)@, who, description@, now).0);
        }
        Ok(proposal_id)
    }

    /// Cast `who`'s vote on `proposal_id` at block height `now`.
    ///
    /// The checks run in order and the first failure is reported: the
    /// proposal must exist (`ProposalNotFound`), must not be closed
    /// (`ProposalClosed`), its end block must not have passed
    /// (`VotingPeriodEnded`; voting at the end block itself is accepted),
    /// and `who` must not have voted on it yet (`AlreadyVoted`). A rejected
    /// call leaves the state untouched. On success the vote is recorded, the
    /// tally is incremented (saturating), and a `Voted` notification is
    /// emitted.
    pub fn vote(
        &mut self,
        who: AccountId,
        proposal_id: ProposalId,
        vote: bool,
        now: BlockNumber,
    ) -> (r: Result<(), Error>)
        requires
            old(self).wf(),
        ensures
            final(self).wf(),
            final(self)@ == spec_vote(old(self)@, who, proposal_id, vote, now).0,
            r == spec_vote(old(self)@, who, proposal_id, vote, now).1,
    {
        let (is_closed, end_block) = match self.proposals.get(proposal_id) {
            None => { return Err(Error::ProposalNotFound) },
            Some(p) => (p.is_closed, p.end_block),
        };
        if is_closed {
            return Err(Error::ProposalClosed);
        }
        if now > end_block {
            return Err(Error::VotingPeriodEnded);
        }
        if self.votes.contains(proposal_id, who) {
            return Err(Error::AlreadyVoted);
        }
        self.votes.insert(proposal_id, who, vote);
        self.tallies.increment(proposal_id, vote);
        self.events.push(Event::Voted { proposal_id, voter: who, vote });
        proof {
            lemma_vote_preserves_wf(old(self)@, who, proposal_id, vote, now);
            assert(events_view(self.events@) =~= old(self)@.events.push(
                EventView::Voted { proposal_id, voter: who, vote },
            ));
            assert(self@ =~= spec_vote(old(self)@, who, proposal_id, vote, now).0);
        }
        Ok(())
    }

    /// Close `proposal_id` at block height `now`. The caller is
    /// authenticated but otherwise unconstrained: anyone may close an
    /// eligible proposal.
    ///
    /// The checks run in order: the proposal must exist
    /// (`ProposalNotFound`), must not already be closed (`ProposalClosed`),
    /// and its end block must be strictly in the past
    /// (`VotingPeriodNotEnded`: closing exactly at the end block is still
    /// rejected). A rejected call leaves the state untouched. On success the
    /// proposal is flagged closed and a `ProposalClosed` notification with
    /// its final counts is emitted.
    pub fn close_proposal(
        &mut self,
        _who: AccountId,
        proposal_id: ProposalId,
        now: BlockNumber,
    ) -> (r: Result<(), Error>)
        requires
            old(self).wf(),
        ensures
            final(self).wf(),
            final(self)@ == spec_close(old(self)@, proposal_id, now).0,
            r == spec_close(old(self)@, proposal_id, now).1,
    {
        let proposal = match self.proposals.get(proposal_id) {
            None => { return Err(Error::ProposalNotFound) },
            Some(p) => p,
        };
        if proposal.is_closed {
            return Err(Error::ProposalClosed);
        }
        if now <= proposal.end_block {
            return Err(Error::VotingPeriodNotEnded);
        }
        let mut updated = proposal.clone();
        updated.is_closed = true;
        proof {
            assert(updated@ =~= old(self)@.proposals[proposal_id as int].closed());
        }
        self.proposals.insert(proposal_id, updated);
        let tally = match self.tallies.get(proposal_id) {
            Some(t) => t,
            None => VoteTally::default(),
        };
        self.events.push(
            Event::ProposalClosed {
                proposal_id,
                for_votes: tally.for_votes,
                against_votes: tally.against_votes,
            },
        );
        proof {
            lemma_close_preserves_wf(old(self)@, proposal_id, now);
            assert(events_view(self.events@) =~= old(self)@.events.push(
                EventView::ProposalClosed {
                    proposal_id,
                    for_votes: tally.for_votes,
                    against_votes: tally.against_votes,
                },
            ));
            assert(self@ =~= spec_close(old(self)@, proposal_id, now).0);
        }
        Ok(())
    }

    /// The per-block auto-expiry sweep, invoked once per block by the
    /// enclosing runtime with the new block height `now`.
    ///
    /// Walks the proposal store in its stable ascending-identifier order and
    /// closes every expired open proposal — emitting the same
    /// `ProposalClosed` notification a manual close would — until the
    /// configured per-block cap is reached; remaining expired proposals wait
    /// for a later sweep or a manual close. Returns the weight charged for
    /// the closures performed, one `W::close_proposal` each (saturating).
    pub fn on_initialize<W: WeightInfo>(&mut self, now: BlockNumber) -> (w: Weight)
        requires
            old(self).wf(),
        ensures
            final(self).wf(),
            final(self)@ == spec_sweep(old(self)@, now),
            expired_open_below(
                old(self)@.proposals,
                now,
                old(self)@.proposals.len() as int,
            ) == 0 ==> w == (Weight { ref_time: 0, proof_size: 0 }),
    {
        let mut weight = Weight::zero();
        let mut closed_count: u32 = 0;
        let max_closures = self.config.max_proposals_per_block;
        let n = self.proposals.len();
        let mut j: usize = 0;
        while j < n
            invariant
                old(self).wf(),
                n == old(self)@.proposals.len(),
                max_closures == old(self)@.config.max_proposals_per_block,
                j <= n,
                self.config == old(self).config,
                self.next_proposal_id == old(self).next_proposal_id,
                self.votes@ == old(self).votes@,
                self.tallies@ == old(self).tallies@,
                self.proposals@.len() == n,
                forall|i: int|
                    0 <= i < j ==> self.proposals@[i] == (if sweep_closes(
                        old(self)@.proposals,
                        now,
                        max_closures,
                        i,
                    ) {
                        old(self)@.proposals[i].closed()
                    } else {
                        old(self)@.proposals[i]
                    }),
                forall|i: int| j <= i < n ==> self.proposals@[i] == old(self)@.proposals[i],
                closed_count as nat == (if expired_open_below(old(self)@.proposals, now, j as int)
                    <= max_closures {
                    expired_open_below(old(self)@.proposals, now, j as int)
                } else {
                    max_closures as nat
                }),
                events_view(self.events@) == old(self)@.events + sweep_events(
                    old(self)@.proposals,
                    old(self)@.tallies,
                    now,
                    max_closures,
                    j as int,
                ),
                closed_count == 0 ==> weight == (Weight { ref_time: 0, proof_size: 0 }),
            ensures
                j == n || closed_count >= max_closures,
            decreases n - j,
        {
            if closed_count >= max_closures {
                break;
            }
            let is_closed = self.proposals.at(j).is_closed;
            let end_block = self.proposals.at(j).end_block;
            if !is_closed && now > end_block {
                let proposal_id = j as ProposalId;
                let mut updated = self.proposals.at(j).clone();
                updated.is_closed = true;
                proof {
                    assert(sweep_closes(old(self)@.proposals, now, max_closures, j as int));
                    assert(updated@ =~= old(self)@.proposals[j as int].closed());
                }
                self.proposals.insert(proposal_id, updated);
                let tally = match self.tallies.get(proposal_id) {
                    Some(t) => t,
                    None => VoteTally::default(),
                };
                self.events.push(
                    Event::ProposalClosed {
                        proposal_id,
                        for_votes: tally.for_votes,
                        against_votes: tally.against_votes,
                    },
                );
                closed_count = closed_count.saturating_add(1);
                weight = weight.saturating_add(W::close_proposal());
                proof {
                    let ev = EventView::ProposalClosed {
                        proposal_id: j as ProposalId,
                        for_votes: tally_at(old(self)@.tallies, j as int).for_votes,
                        against_votes: tally_at(old(self)@.tallies, j as int).against_votes,
                    };
                    assert(events_view(self.events@) =~= events_view(self.events@).drop_last()
                        + seq![ev]);
                    assert(events_view(self.events@).drop_last() =~= old(self)@.events
                        + sweep_events(
                        old(self)@.proposals,
                        old(self)@.tallies,
                        now,
                        max_closures,
                        j as int,
                    ));
                    assert(events_view(self.events@) =~= old(self)@.events + sweep_events(
                        old(self)@.proposals,
                        old(self)@.tallies,
                        now,
                        max_closures,
                        j as int + 1,
                    ));
                }
            } else {
                proof {
                    assert(!sweep_closes(old(self)@.proposals, now, max_closures, j as int));
                    assert(sweep_events(
                        old(self)@.proposals,
                        old(self)@.tallies,
                        now,
                        max_closures,
                        j as int + 1,
                    ) =~= sweep_events(
                        old(self)@.proposals,
                        old(self)@.tallies,
                        now,
                        max_closures,
                        j as int,
                    ));
                }
            }
            j = j + 1;
        }
        proof {
            if j < n {
                assert forall|i: int| j <= i < n implies !sweep_closes(
                    old(self)@.proposals,
                    now,
                    max_closures,
                    i,
                ) by {
                    lemma_expired_open_below_monotonic(old(self)@.proposals, now, j as int, i);
                }
                lemma_sweep_events_stable(
                    old(self)@.proposals,
                    old(self)@.tallies,
                    now,
                    max_closures,
                    j as int,
                    n as int,
                );
                lemma_expired_open_below_monotonic(old(self)@.proposals, now, j as int, n as int);
            }
            assert(self.proposals@ =~= sweep_proposals(old(self)@.proposals, now, max_closures));
            assert(self@ =~= spec_sweep(old(self)@, now));
            lemma_sweep_preserves_wf(old(self)@, now);
        }
        weight
    }

    /// The proposal stored under `proposal_id`, if any.
    pub fn proposals(&self, proposal_id: ProposalId) -> (r: Option<ProposalInfo>)
        ensures
            (proposal_id as int) < self@.proposals.len() ==> (r matches Some(p) && p@
                == self@.proposals[proposal_id as int]),
            (proposal_id as int) >= self@.proposals.len() ==> r is None,
    {
        match self.proposals.get(proposal_id) {
            Some(p) => Some(p.clone()),
            None => None,
        }
    }

    /// The recorded vote of `voter` on `proposal_id`, if any.
    pub fn votes(&self, proposal_id: ProposalId, voter: AccountId) -> (r: Option<bool>)
        requires
            self.wf(),
        ensures
            r is Some <==> has_vote(self@.votes, proposal_id, voter),
            forall|k: int|
                0 <= k < self@.votes.len() && (#[trigger] self@.votes[k]).proposal_id
                    == proposal_id && self@.votes[k].voter == voter ==> r == Some(
                    self@.votes[k].approve,
                ),
    {
        self.votes.get(proposal_id, voter)
    }

    /// The next proposal identifier to be issued.
    pub fn next_proposal_id(&self) -> (r: ProposalId)
        ensures
            r == self@.next_proposal_id,
    {
        self.next_proposal_id
    }

    /// The tally of `proposal_id`, if present.
    pub fn vote_tallies(&self, proposal_id: ProposalId) -> (r: Option<VoteTally>)
        ensures
            (proposal_id as int) < self@.tallies.len() ==> r == Some(
                self@.tallies[proposal_id as int],
            ),
            (proposal_id as int) >= self@.tallies.len() ==> r is None,
    {
        self.tallies.get(proposal_id)
    }

    /// Every notification emitted so far, oldest first.
    pub fn events(&self) -> (r: &Vec<Event>)
        ensures
            events_view(r@) == self@.events,
    {
        &self.events
    }
}

/// The genesis configuration: ordered (proposer, description) pairs applied
/// at system initialization, each with the same validation as `propose`, at
/// the genesis block height 0. A description over the bounds is a fatal
/// configuration error, not a recoverable failure, so [`GenesisConfig::build`]
/// requires every entry to be valid.
pub struct GenesisConfig {
    /// Initial proposals to create at genesis.
    pub proposals: Vec<(AccountId, Vec<u8>)>,
}

/// The models of the genesis entries.
pub open spec fn genesis_entries_view(entries: Seq<(AccountId, Vec<u8>)>) -> Seq<
    (AccountId, Seq<u8>),
> {
    entries.map_values(|e: (AccountId, Vec<u8>)| (e.0, e.1@))
}

impl Default for GenesisConfig {
    /// No genesis proposals.
    fn default() -> (r: GenesisConfig)
        ensures
            r.proposals@ == Seq::<(AccountId, Vec<u8>)>::empty(),
    {
        GenesisConfig { proposals: Vec::new() }
    }
}

impl GenesisConfig {
    /// Build a fresh engine under `config` and seed every genesis proposal,
    /// in order, at block height 0.
    pub fn build(&self, config: Config) -> (r: Pallet)
        requires
            self.proposals@.len() <= u32::MAX,
            forall|i: int|
                0 <= i < self.proposals@.len() ==> description_ok(
                    config,
                    (#[trigger] self.proposals@[i]).1@,
                ),
        ensures
            r.wf(),
            r@ == spec_genesis(config, genesis_entries_view(self.proposals@)),
    {
        let mut pallet = Pallet::new(config);
        proof {
            assert(genesis_entries_view(self.proposals@.take(0)) =~= Seq::<
                (AccountId, Seq<u8>),
            >::empty());
        }
        let mut i: usize = 0;
        while i < self.proposals.len()
            invariant
                i <= self.proposals@.len(),
                self.proposals@.len() <= u32::MAX,
                forall|k: int|
                    0 <= k < self.proposals@.len() ==> description_ok(
                        config,
                        (#[trigger] self.proposals@[k]).1@,
                    ),
                pallet.wf(),
                pallet@ == spec_genesis(
                    config,
                    genesis_entries_view(self.proposals@.take(i as int)),
                ),
                pallet@.proposals.len() == i,
                pallet@.config == config,
            decreases self.proposals@.len() - i,
        {
            let who = self.proposals[i].0;
            let description = self.proposals[i].1.clone();
            proof {
                assert(description@ =~= self.proposals@[i as int].1@);
            }
            let _ = pallet.propose(who, description, 0);
            proof {
                let prefix = genesis_entries_view(self.proposals@.take(i as int + 1));
                assert(prefix.drop_last() =~= genesis_entries_view(
                    self.proposals@.take(i as int),
                ));
                assert(prefix.last() == (who, self.proposals@[i as int].1@));
            }
            i = i + 1;
        }
        proof {
            assert(self.proposals@.take(self.proposals@.len() as int) =~= self.proposals@);
        }
        pallet
    }
}

} // verus!
