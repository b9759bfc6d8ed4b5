//! Accounting core of a staking aggregator: every registered beam mints and
//! burns a share of one receipt token, bounded by its allocation, and reports
//! its yield epoch by epoch.

pub mod allocations;
pub mod beam;
pub mod epoch;
pub mod error;
pub mod liquidity_pool;
pub mod marinade;
pub mod math;
pub mod programs;
pub mod pubkey;
pub mod reconcile;
pub mod registry;
pub mod seeds;
pub mod stake_pool;
pub mod state;
pub mod window;

pub use epoch::{BeamEpochDetails, EpochReport};
pub use error::BeamError;
pub use pubkey::Pubkey;
pub use state::{AllocationUpdate, BeamDetails, RegisterStateInput, State, UpdateStateInput};
