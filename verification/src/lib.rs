//! A deterministic proposal/voting state machine.
//!
//! Any account may create a proposal; other accounts vote for or against it
//! during a voting window measured in block heights; once the window has
//! passed, anyone may close the proposal, and a bounded per-block sweep closes
//! expired proposals automatically. All state (the proposal store, the vote
//! ledger, the running tallies, the id counter, and the emitted notifications)
//! is held explicitly in a [`Pallet`] value, so every replica that applies the
//! same operations at the same block heights computes the same state.

pub mod config;
pub mod engine;
pub mod error;
pub mod event;
pub mod laws;
pub mod ledger;
pub mod proposal;
pub mod state;
pub mod store;
pub mod tally;
pub mod weights;

pub use config::Config;
pub use engine::GenesisConfig;
pub use engine::Pallet;
pub use error::Error;
pub use event::Event;
pub use proposal::AccountId;
pub use proposal::BlockNumber;
pub use proposal::ProposalId;
pub use proposal::ProposalInfo;
pub use proposal::MAX_DESCRIPTION_BYTES;
pub use tally::VoteTally;
pub use weights::SubstrateWeight;
pub use weights::Weight;
pub use weights::WeightInfo;
