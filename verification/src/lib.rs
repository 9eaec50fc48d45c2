//! A ledger-style accounting engine for a staking and reward protocol.
//!
//! Users lock funds for a chosen period, accrue yield weighted by a
//! performance score, and a treasury keeps a reserve of the fees it holds.
//!
//! Every operation is a transition on plain records. The caller hands in the
//! records the operation works on and what it asks for. The operation either
//! applies in full, and then names the one payment that goes with it, or is
//! refused with an [`errors::ErrorCode`] and leaves every record as it was.
//! Performing the payment and storing the records is the caller's part: a
//! caller that stores the records only once the payment went through keeps
//! ledger and vaults in step.
//!
//! An operation that depends on the time comes twice: under its plain name it
//! reads the runtime's clock, and under that name followed by `_at` it takes
//! the time as an argument.
//!
//! - [`address`]: identities, and the derived addresses of records and vaults.
//! - [`state`]: the records.
//! - [`transfer`]: the payment an operation asks for.
//! - [`fpl`]: the registry of users and the global configuration.
//! - [`stake`]: opening and closing stakes.
//! - [`rewards`]: claiming rewards and funding the reward pool.
//! - [`treasury`]: deposits, withdrawals and the treasury's percentages.

pub mod address;
mod clock;
pub mod errors;
pub mod state;
pub mod transfer;
pub mod fpl;
pub mod stake;
pub mod rewards;
pub mod treasury;
