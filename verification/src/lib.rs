//! A binary-options prediction market.
//!
//! A user stakes tokens on whether a reference price will have risen or fallen
//! by a fixed expiry. The market's administrator later records the observed
//! price; a winner may then claim the stake back together with a bonus that is
//! paid, less the protocol's fee, from a shared reserve.
//!
//! Every operation is a function from the accounts it touches to their next
//! values and to the token transfers that the hosting ledger has to carry out in
//! the same atomic step. The library never moves funds itself.

pub mod address;
pub mod custody;
pub mod error;
pub mod laws;
pub mod ledger;
pub mod operations;
pub mod policy;
pub mod prediction;
pub mod vault;

pub use address::Address;
pub use error::ErrorCode;
pub use ledger::BinaryOptionsState;
pub use operations::{
    claim_rewards, create_prediction, initialize, settle_prediction, withdraw_fees,
    ClaimRewardsContext, ClaimTransfers, CreatePredictionContext, InitializeContext,
    SettlePredictionContext, WithdrawFeesContext,
};
pub use policy::{compute_payout, Payout};
pub use prediction::{Direction, Duration, PredictionState, Status};
pub use vault::{Authority, Transfer, Vault};
