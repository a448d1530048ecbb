use vstd::prelude::*;

verus! {

/// The configuration surface of the lifecycle engine, supplied externally and
/// constant per deployment.
#[derive(Clone, Copy, Debug, PartialEq, Eq, Structural)]
pub struct Config {
    /// Maximum length, in bytes, of a proposal description.
    pub max_description_length: u32,
    /// Default voting period, in blocks.
    pub default_voting_period: u64,
    /// Maximum number of proposals that the per-block sweep auto-closes.
    pub max_proposals_per_block: u32,
}

} // verus!
