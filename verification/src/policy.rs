use vstd::prelude::*;
use crate::error::ErrorCode;

verus! {

/// What a winning prediction pays, in tokens.
#[derive(Clone, Copy, Debug, PartialEq, Eq, Structural)]
pub struct Payout {
    /// The stake, handed back from the stake vault.
    pub return_amount: u64,
    /// The reward less the fee, paid from the reserve vault.
    pub bonus_amount: u64,
    /// The part of the reward that the protocol keeps.
    pub fee_amount: u64,
}

/// The reward of a winning stake before the fee: twice the stake.
pub open spec fn gross_reward(stake_amount: int) -> int {
    stake_amount * 2
}

/// The protocol's cut of the reward, rounded down.
pub open spec fn protocol_fee(stake_amount: int, fee_percent: int) -> int {
    gross_reward(stake_amount) * fee_percent / 100
}

/// The reward that reaches the winner.
pub open spec fn net_bonus(stake_amount: int, fee_percent: int) -> int {
    gross_reward(stake_amount) - protocol_fee(stake_amount, fee_percent)
}

/// All that a winner receives: the stake and the bonus.
pub open spec fn total_payout(stake_amount: int, fee_percent: int) -> int {
    stake_amount + net_bonus(stake_amount, fee_percent)
}

/// The reward fits in 64 bits and the fee does not exceed it.
pub open spec fn payout_is_defined(stake_amount: u64, fee_percent: u64) -> bool {
    &&& gross_reward(stake_amount as int) <= u64::MAX
    &&& protocol_fee(stake_amount as int, fee_percent as int) <= gross_reward(stake_amount as int)
}

/// The payout of a winning stake where it is defined.
pub open spec fn payout_of(stake_amount: u64, fee_percent: u64) -> Payout {
    Payout {
        return_amount: stake_amount,
        bonus_amount: net_bonus(stake_amount as int, fee_percent as int) as u64,
        fee_amount: protocol_fee(stake_amount as int, fee_percent as int) as u64,
    }
}

/// What `compute_payout` returns.
pub open spec fn payout_result(stake_amount: u64, fee_percent: u64) -> Result<Payout, ErrorCode> {
    if payout_is_defined(stake_amount, fee_percent) {
        Ok(payout_of(stake_amount, fee_percent))
    } else {
        Err(ErrorCode::ArithmeticOverflow)
    }
}

/// Splits the reward of a winning stake between the winner and the protocol.
///
/// The reward is twice the stake, the fee is `fee_percent` hundredths of the
/// reward, rounded down, and the bonus is what is left of the reward. The
/// function fails, with `ArithmeticOverflow`, exactly when the reward does not
/// fit in 64 bits or the fee would exceed the reward.
pub fn compute_payout(stake_amount: u64, fee_percent: u64) -> (r: Result<Payout, ErrorCode>)
    ensures
        r == payout_result(stake_amount, fee_percent),
{
    let reward: u64 = match stake_amount.checked_mul(2) {
        Some(reward) => reward,
        None => {
            return Err(ErrorCode::ArithmeticOverflow);
        },
    };
    let wide_reward: u128 = reward as u128;
    let wide_percent: u128 = fee_percent as u128;
    assert(wide_reward * wide_percent <= 0xffff_ffff_ffff_ffff * 0xffff_ffff_ffff_ffff)
        by (nonlinear_arith)
        requires
            wide_reward <= 0xffff_ffff_ffff_ffff,
            wide_percent <= 0xffff_ffff_ffff_ffff,
    ;
    let wide_fee: u128 = wide_reward * wide_percent / 100;
    if wide_fee > wide_reward {
        return Err(ErrorCode::ArithmeticOverflow);
    }
    let fee: u64 = wide_fee as u64;
    Ok(Payout { return_amount: stake_amount, bonus_amount: reward - fee, fee_amount: fee })
}

/// With a fee of at most the whole reward, the fee never exceeds the reward:
/// the payout is then defined for every stake whose double fits in 64 bits.
pub proof fn lemma_fee_within_reward(stake_amount: u64, fee_percent: u64)
    requires
        fee_percent <= 100,
    ensures
        0 <= protocol_fee(stake_amount as int, fee_percent as int) <= gross_reward(
            stake_amount as int,
        ),
        payout_is_defined(stake_amount, fee_percent) <==> stake_amount * 2 <= u64::MAX,
{
    let reward = gross_reward(stake_amount as int);
    let percent = fee_percent as int;
    assert(0 <= reward * percent <= reward * 100) by (nonlinear_arith)
        requires
            0 <= reward,
            0 <= percent <= 100,
    ;
}

/// A winner receives the stake and twice the stake less the fee on it.
pub proof fn lemma_payout_formula(stake_amount: u64, fee_percent: u64)
    requires
        payout_is_defined(stake_amount, fee_percent),
    ensures
        payout_result(stake_amount, fee_percent) is Ok,
        payout_of(stake_amount, fee_percent).return_amount == stake_amount,
        payout_of(stake_amount, fee_percent).fee_amount == stake_amount * 2 * fee_percent / 100,
        payout_of(stake_amount, fee_percent).bonus_amount == stake_amount * 2 - stake_amount * 2
            * fee_percent / 100,
        payout_of(stake_amount, fee_percent).return_amount + payout_of(
            stake_amount,
            fee_percent,
        ).bonus_amount == stake_amount + (stake_amount * 2 - stake_amount * 2 * fee_percent
            / 100),
        payout_of(stake_amount, fee_percent).bonus_amount + payout_of(
            stake_amount,
            fee_percent,
        ).fee_amount == stake_amount * 2,
{
    let reward = gross_reward(stake_amount as int);
    let percent = fee_percent as int;
    assert(0 <= reward * percent) by (nonlinear_arith)
        requires
            0 <= reward,
            0 <= percent,
    ;
}

} // verus!
