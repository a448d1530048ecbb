use vstd::prelude::*;

verus! {

/// Reference time charged per database read, in picoseconds.
pub const DB_READ_REF_TIME: u64 = 25_000_000;

/// Reference time charged per database write, in picoseconds.
pub const DB_WRITE_REF_TIME: u64 = 100_000_000;

/// `a * b` clipped at `u64::MAX`.
pub open spec fn saturating_mul_u64(a: u64, b: u64) -> u64 {
    if a * b > u64::MAX {
        u64::MAX
    } else {
        (a * b) as u64
    }
}

/// The abstract resource cost charged to a block for an operation:
/// computational time on reference hardware, in picoseconds, and proof size,
/// in bytes. Both components accumulate with saturating arithmetic.
#[derive(Clone, Copy, Debug, PartialEq, Eq, Structural)]
pub struct Weight {
    pub ref_time: u64,
    pub proof_size: u64,
}

impl Weight {
    /// The zero cost.
    pub fn zero() -> (r: Weight)
        ensures
            r == (Weight { ref_time: 0, proof_size: 0 }),
    {
        Weight { ref_time: 0, proof_size: 0 }
    }

    /// A cost from its two components.
    pub fn from_parts(ref_time: u64, proof_size: u64) -> (r: Weight)
        ensures
            r == (Weight { ref_time, proof_size }),
    {
        Weight { ref_time, proof_size }
    }

    /// Component-wise saturating addition.
    pub fn saturating_add(self, rhs: Weight) -> (r: Weight)
        ensures
            r.ref_time == self.ref_time.saturating_add(rhs.ref_time),
            r.proof_size == self.proof_size.saturating_add(rhs.proof_size),
    {
        Weight {
            ref_time: self.ref_time.saturating_add(rhs.ref_time),
            proof_size: self.proof_size.saturating_add(rhs.proof_size),
        }
    }
}

/// The cost of `n` database reads.
fn db_reads(n: u64) -> (r: Weight)
    ensures
        r == (Weight { ref_time: saturating_mul_u64(DB_READ_REF_TIME, n), proof_size: 0 }),
{
    let ref_time = match DB_READ_REF_TIME.checked_mul(n) {
        Some(t) => t,
        None => u64::MAX,
    };
    Weight { ref_time, proof_size: 0 }
}

/// The cost of `n` database writes.
fn db_writes(n: u64) -> (r: Weight)
    ensures
        r == (Weight { ref_time: saturating_mul_u64(DB_WRITE_REF_TIME, n), proof_size: 0 }),
{
    let ref_time = match DB_WRITE_REF_TIME.checked_mul(n) {
        Some(t) => t,
        None => u64::MAX,
    };
    Weight { ref_time, proof_size: 0 }
}

/// Weight functions for the three state-changing operations. The enclosing
/// runtime charges these costs per dispatched operation; the lifecycle
/// engine itself only accumulates the closing cost during the sweep.
pub trait WeightInfo {
    fn propose() -> Weight;

    fn vote() -> Weight;

    fn close_proposal() -> Weight;
}

/// Weights measured on reference hardware.
pub struct SubstrateWeight;

impl WeightInfo for SubstrateWeight {
    /// One read of the id counter and one of the caller's account; one write
    /// each to the proposal store, the tally aggregator, and the id counter.
    fn propose() -> Weight {
        Weight::from_parts(16_000_000, 3593).saturating_add(db_reads(2)).saturating_add(
            db_writes(3),
        )
    }

    /// Reads of the proposal, the caller's account, the vote ledger, and the
    /// tally; one write each to the vote ledger and the tally.
    fn vote() -> Weight {
        Weight::from_parts(19_000_000, 3777).saturating_add(db_reads(4)).saturating_add(
            db_writes(2),
        )
    }

    /// Reads of the proposal, the caller's account, and the tally; one write
    /// to the proposal store.
    fn close_proposal() -> Weight {
        Weight::from_parts(13_000_000, 3777).saturating_add(db_reads(3)).saturating_add(
            db_writes(1),
        )
    }
}

/// The same weights, for test configurations.
impl WeightInfo for () {
    fn propose() -> Weight {
        Weight::from_parts(16_000_000, 3593).saturating_add(db_reads(2)).saturating_add(
            db_writes(3),
        )
    }

    fn vote() -> Weight {
        Weight::from_parts(19_000_000, 3777).saturating_add(db_reads(4)).saturating_add(
            db_writes(2),
        )
    }

    fn close_proposal() -> Weight {
        Weight::from_parts(13_000_000, 3777).saturating_add(db_reads(3)).saturating_add(
            db_writes(1),
        )
    }
}

} // verus!
