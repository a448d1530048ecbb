use vstd::prelude::*;

verus! {

/// Running vote tally for a proposal.
///
/// Both counters start at 0 and are incremented by exactly one per accepted
/// vote, with saturating addition.
#[derive(Clone, Copy, Debug, PartialEq, Eq, Structural)]
pub struct VoteTally {
    /// Number of votes in favor.
    pub for_votes: u32,
    /// Number of votes against.
    pub against_votes: u32,
}

impl VoteTally {
    /// The zeroed tally a proposal starts with.
    pub fn new() -> (r: VoteTally)
        ensures
            r == (VoteTally { for_votes: 0, against_votes: 0 }),
    {
        VoteTally { for_votes: 0, against_votes: 0 }
    }

    /// The tally after recording one more vote: the chosen counter grows by
    /// one, saturating at `u32::MAX`.
    pub open spec fn spec_bumped(self, approve: bool) -> VoteTally {
        if approve {
            VoteTally { for_votes: self.for_votes.saturating_add(1), ..self }
        } else {
            VoteTally { against_votes: self.against_votes.saturating_add(1), ..self }
        }
    }

    /// Record one vote, for (`approve == true`) or against.
    pub fn bump(&mut self, approve: bool)
        ensures
            *final(self) == old(self).spec_bumped(approve),
    {
        if approve {
            self.for_votes = self.for_votes.saturating_add(1);
        } else {
            self.against_votes = self.against_votes.saturating_add(1);
        }
    }
}

/// The tally aggregator: a durable mapping from proposal identifier to its
/// running for/against counters, maintained incrementally (never recomputed
/// from the vote ledger).
///
/// Tallies are created atomically with their proposals, whose identifiers are
/// dense, so the aggregator realizes the mapping as a vector indexed by
/// identifier.
pub struct TallyAggregator {
    tallies: Vec<VoteTally>,
}

impl View for TallyAggregator {
    type V = Seq<VoteTally>;

    closed spec fn view(&self) -> Seq<VoteTally> {
        self.tallies@
    }
}

impl TallyAggregator {
    /// An empty aggregator.
    pub fn new() -> (r: TallyAggregator)
        ensures
            r@ == Seq::<VoteTally>::empty(),
    {
        TallyAggregator { tallies: Vec::new() }
    }

    /// The tally of proposal `id`, if present.
    pub fn get(&self, id: u32) -> (r: Option<VoteTally>)
        ensures
            (id as int) < self@.len() ==> r == Some(self@[id as int]),
            (id as int) >= self@.len() ==> r is None,
    {
        let idx = id as usize;
        if idx < self.tallies.len() {
            Some(self.tallies[idx])
        } else {
            None
        }
    }

    /// Create a zeroed tally for proposal `id`, overwriting any existing one:
    /// a tally is written exactly when its proposal record is, so overwriting
    /// here mirrors the proposal store's insert and stays deterministic.
    pub fn init(&mut self, id: u32)
        requires
            id as int <= old(self)@.len(),
        ensures
            final(self)@ == if (id as int) < old(self)@.len() {
                old(self)@.update(id as int, VoteTally { for_votes: 0, against_votes: 0 })
            } else {
                old(self)@.push(VoteTally { for_votes: 0, against_votes: 0 })
            },
    {
        let zero = VoteTally::new();
        let idx = id as usize;
        if idx < self.tallies.len() {
            self.tallies.set(idx, zero);
        } else {
            self.tallies.push(zero);
        }
    }

    /// Add one vote, for or against, to the tally of proposal `id`, with
    /// saturating arithmetic.
    pub fn increment(&mut self, id: u32, approve: bool)
        requires
            (id as int) < old(self)@.len(),
        ensures
            final(self)@ == old(self)@.update(
                id as int,
                old(self)@[id as int].spec_bumped(approve),
            ),
    {
        let idx = id as usize;
        let mut t = self.tallies[idx];
        t.bump(approve);
        self.tallies.set(idx, t);
    }
}

impl Default for VoteTally {
    /// Same zeroed tally as [`VoteTally::new`]; used defensively where a
    /// tally is read that should always be present.
    fn default() -> (r: VoteTally)
        ensures
            r == (VoteTally { for_votes: 0, against_votes: 0 }),
    {
        VoteTally { for_votes: 0, against_votes: 0 }
    }
}

} // verus!
