use vstd::prelude::*;

verus! {

/// Why an operation was refused. A refused operation changes nothing.
#[derive(Clone, Copy, Debug, PartialEq, Eq, Structural)]
pub enum ErrorCode {
    /// The duration is not one of the allowed durations.
    InvalidDuration,
    /// The direction is neither long nor short.
    InvalidDirection,
    /// The stake is zero.
    InvalidAmount,
    /// The fee is more than the whole of a reward.
    InvalidFeePercent,
    /// The prediction has been settled before.
    AlreadySettled,
    /// The prediction has not expired yet.
    NotExpired,
    /// The prediction has not been settled yet.
    NotSettled,
    /// The rewards of the prediction have been claimed before.
    AlreadyClaimed,
    /// The prediction lost, so there is nothing to claim.
    NotWinning,
    /// The caller is not the party that may perform the operation.
    Unauthorized,
    /// The reserve that the market has on record is smaller than the amount.
    InsufficientReserve,
    /// The vault holds less than the amount.
    InsufficientVaultBalance,
    /// An amount or a time does not fit its integer type.
    ArithmeticOverflow,
}

} // verus!
