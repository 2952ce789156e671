//! What holds of the market whatever its users do: the laws that the
//! operations' contracts add up to, each proved from those contracts.

use vstd::prelude::*;
use crate::address::Address;
use crate::custody::{balance_of, carried_out, in_step, is_carried_out};
use crate::error::ErrorCode;
use crate::operations::{
    ClaimRewardsContext, CreatePredictionContext, InitializeContext, SettlePredictionContext,
    WithdrawFeesContext,
};
use crate::policy::{lemma_fee_within_reward, lemma_payout_formula};
use crate::prediction::{Direction, Duration, Status};
use crate::vault::Authority;

verus! {

/// A claim that succeeds pays the winner the stake and twice the stake less
/// the fee on it, the fee rounded down; both payments go to the record's
/// owner on the word of the escrow authority, neither is more than its vault
/// holds, and the recorded reserve goes down by exactly the bonus.
pub proof fn lemma_claim_pays_stake_and_bonus(ctx: ClaimRewardsContext)
    requires
        ctx.result() is Ok,
    ensures
        ctx.orders().stake_return.amount == ctx.prediction_state.stake_amount,
        ctx.orders().bonus.amount == ctx.prediction_state.stake_amount * 2
            - ctx.prediction_state.stake_amount * 2 * ctx.state.fee_percent / 100,
        ctx.orders().stake_return.amount + ctx.orders().bonus.amount
            == ctx.prediction_state.stake_amount + (ctx.prediction_state.stake_amount * 2
            - ctx.prediction_state.stake_amount * 2 * ctx.state.fee_percent / 100),
        ctx.orders().stake_return.to == ctx.prediction_state.owner,
        ctx.orders().bonus.to == ctx.prediction_state.owner,
        ctx.orders().stake_return.authority == Authority::Escrow,
        ctx.orders().bonus.authority == Authority::Escrow,
        ctx.orders().stake_return.amount <= ctx.stake_vault.balance,
        ctx.orders().bonus.amount <= ctx.reserve_vault.balance,
        ctx.after().stake_vault.balance == ctx.stake_vault.balance
            - ctx.orders().stake_return.amount,
        ctx.after().reserve_vault.balance == ctx.reserve_vault.balance - ctx.orders().bonus.amount,
        ctx.after().state.total_reserve_balance == ctx.state.total_reserve_balance
            - ctx.orders().bonus.amount,
{
    lemma_payout_formula(ctx.prediction_state.stake_amount, ctx.state.fee_percent);
}

/// Before its expiry an open prediction cannot be settled, whoever calls and
/// whatever price is reported: the attempt is refused with `NotExpired` and
/// changes nothing.
pub proof fn lemma_settle_before_expiry_is_refused(
    ctx: SettlePredictionContext,
    new_price: u64,
    now: i64,
)
    requires
        ctx.prediction_state.status == Status::Open,
        now < ctx.prediction_state.expires_at,
    ensures
        ctx.result(now) == Err::<(), ErrorCode>(ErrorCode::NotExpired),
        ctx.after(new_price, now) == ctx,
{
}

/// A prediction is settled once. After a settlement that succeeded, a second
/// one on the same record, at any time, at any price and by any caller, is
/// refused with `AlreadySettled`, so that the outcome and the observed price
/// of the first settlement stand.
pub proof fn lemma_second_settlement_is_refused(
    first: SettlePredictionContext,
    first_price: u64,
    first_now: i64,
    second: SettlePredictionContext,
    second_price: u64,
    second_now: i64,
)
    requires
        first.result(first_now) is Ok,
        second.prediction_state == first.after(first_price, first_now).prediction_state,
    ensures
        second.result(second_now) == Err::<(), ErrorCode>(ErrorCode::AlreadySettled),
        second.after(second_price, second_now) == second,
        second.after(second_price, second_now).prediction_state.end_price == Some(first_price),
        second.after(second_price, second_now).prediction_state.outcome
            == first.prediction_state.direction.wins(
            first.prediction_state.start_price,
            first_price,
        ),
{
}

/// A settlement that succeeds writes the observed price, the outcome and the
/// new status, and nothing else: the books and the rest of the record stay.
pub proof fn lemma_settlement_records_the_outcome(
    ctx: SettlePredictionContext,
    new_price: u64,
    now: i64,
)
    requires
        ctx.result(now) is Ok,
    ensures
        ctx.user == ctx.state.admin,
        now >= ctx.prediction_state.expires_at,
        ctx.prediction_state.status == Status::Open,
        ctx.after(new_price, now).state == ctx.state,
        ctx.after(new_price, now).prediction_state.status == Status::Settled,
        ctx.after(new_price, now).prediction_state.end_price == Some(new_price),
        ctx.after(new_price, now).prediction_state.outcome == match ctx.prediction_state.direction {
            Direction::Long => new_price > ctx.prediction_state.start_price,
            Direction::Short => new_price < ctx.prediction_state.start_price,
        },
        ctx.after(new_price, now).prediction_state.owner == ctx.prediction_state.owner,
        ctx.after(new_price, now).prediction_state.stake_amount
            == ctx.prediction_state.stake_amount,
        ctx.after(new_price, now).prediction_state.staked_mint == ctx.prediction_state.staked_mint,
        ctx.after(new_price, now).prediction_state.direction == ctx.prediction_state.direction,
        ctx.after(new_price, now).prediction_state.opened_at == ctx.prediction_state.opened_at,
        ctx.after(new_price, now).prediction_state.expires_at == ctx.prediction_state.expires_at,
        ctx.after(new_price, now).prediction_state.start_price == ctx.prediction_state.start_price,
{
}

/// The owner of a settled stake that lost is told `NotWinning`, and nothing
/// changes.
pub proof fn lemma_losing_claim_is_refused(ctx: ClaimRewardsContext)
    requires
        ctx.prediction_state.status != Status::Open,
        !ctx.prediction_state.outcome,
        ctx.user == ctx.prediction_state.owner,
    ensures
        ctx.result() == Err::<crate::operations::ClaimTransfers, ErrorCode>(ErrorCode::NotWinning),
        ctx.after() == ctx,
{
}

/// A stake that did not win is never paid: whoever claims it, in whatever
/// state, and whatever the vaults hold, the claim is refused and no funds
/// move.
pub proof fn lemma_only_winners_are_paid(ctx: ClaimRewardsContext)
    requires
        !ctx.prediction_state.outcome,
    ensures
        ctx.result() is Err,
        ctx.after() == ctx,
{
}

/// A prediction is paid once. After a claim that succeeded, a second claim
/// on the same record by the same caller is refused with `AlreadyClaimed`,
/// whatever the books and the vaults hold by then, and changes nothing.
pub proof fn lemma_second_claim_is_refused(first: ClaimRewardsContext, second: ClaimRewardsContext)
    requires
        first.result() is Ok,
        second.prediction_state == first.after().prediction_state,
        second.user == first.user,
    ensures
        second.result() == Err::<crate::operations::ClaimTransfers, ErrorCode>(
            ErrorCode::AlreadyClaimed,
        ),
        second.after() == second,
{
}

/// A claimed record is at its end: no caller can claim it again and no
/// caller can settle it again, at any time.
pub proof fn lemma_claimed_is_final(
    claim: ClaimRewardsContext,
    settle: SettlePredictionContext,
    new_price: u64,
    now: i64,
)
    requires
        claim.prediction_state.status == Status::Claimed,
        settle.prediction_state.status == Status::Claimed,
    ensures
        claim.result() is Err,
        claim.after() == claim,
        settle.result(now) == Err::<(), ErrorCode>(ErrorCode::AlreadySettled),
        settle.after(new_price, now) == settle,
{
}

/// The administrator cannot withdraw more than the recorded reserve: the
/// attempt is refused with `InsufficientReserve`, and the reserve vault and
/// the books stay as they are.
pub proof fn lemma_withdrawal_over_reserve_is_refused(ctx: WithdrawFeesContext, amount: u64)
    requires
        amount > ctx.state.total_reserve_balance,
        ctx.user == ctx.state.admin,
    ensures
        ctx.result(amount) == Err::<crate::vault::Transfer, ErrorCode>(
            ErrorCode::InsufficientReserve,
        ),
        ctx.after(amount) == ctx,
{
}

/// Nobody withdraws more than the recorded reserve, and nobody but the
/// administrator withdraws at all: such an attempt is refused and no funds
/// move.
pub proof fn lemma_withdrawal_is_guarded(ctx: WithdrawFeesContext, amount: u64)
    requires
        amount > ctx.state.total_reserve_balance || ctx.user != ctx.state.admin,
    ensures
        ctx.result(amount) is Err,
        ctx.after(amount) == ctx,
{
}

/// A withdrawal that succeeds pays the administrator `amount` from the
/// reserve vault on the word of the escrow authority, and takes as much off
/// the vault's balance and off the recorded reserve.
pub proof fn lemma_withdrawal_pays_the_admin(ctx: WithdrawFeesContext, amount: u64)
    requires
        ctx.result(amount) is Ok,
    ensures
        ctx.user == ctx.state.admin,
        ctx.order(amount).amount == amount,
        ctx.order(amount).to == ctx.state.admin,
        ctx.order(amount).from == ctx.reserve_vault.address,
        ctx.order(amount).authority == Authority::Escrow,
        amount <= ctx.reserve_vault.balance,
        ctx.after(amount).reserve_vault.balance == ctx.reserve_vault.balance - amount,
        ctx.after(amount).state.total_reserve_balance == ctx.state.total_reserve_balance - amount,
{
}

/// A market that has been opened has well-formed books, backed by the
/// reserve vault, with the caller as administrator and the seed as recorded
/// reserve.
pub proof fn lemma_initialize_opens_a_sound_market(
    ctx: InitializeContext,
    initial_reserve_amount: u64,
    fee_percent: u64,
)
    requires
        ctx.result(initial_reserve_amount, fee_percent) is Ok,
    ensures
        ctx.after(initial_reserve_amount, fee_percent).state.well_formed(),
        ctx.after(initial_reserve_amount, fee_percent).state.backed_by(
            ctx.after(initial_reserve_amount, fee_percent).reserve_vault,
        ),
        ctx.after(initial_reserve_amount, fee_percent).state.admin == ctx.user,
        ctx.after(initial_reserve_amount, fee_percent).state.total_reserve_balance
            == initial_reserve_amount,
        ctx.after(initial_reserve_amount, fee_percent).state.fee_percent == fee_percent,
        ctx.after(initial_reserve_amount, fee_percent).reserve_vault.balance
            == ctx.reserve_vault.balance + initial_reserve_amount,
        ctx.order(initial_reserve_amount).amount == initial_reserve_amount,
        ctx.order(initial_reserve_amount).from == ctx.user,
        ctx.order(initial_reserve_amount).to == ctx.reserve_vault.address,
        ctx.order(initial_reserve_amount).authority == Authority::User(ctx.user),
{
}

/// A prediction that has been created is a well-formed open record of the
/// caller's stake, and the stake is ordered from the caller into the stake
/// vault.
pub proof fn lemma_create_opens_a_sound_record(
    ctx: CreatePredictionContext,
    stake_amount: u64,
    direction: Seq<char>,
    duration: u64,
    start_price: u64,
    opened_at: i64,
)
    requires
        ctx.result(stake_amount, direction, duration, opened_at) is Ok,
    ensures
        ({
            let record = ctx.after(
                stake_amount,
                direction,
                duration,
                start_price,
                opened_at,
            ).prediction_state;
            &&& record.well_formed()
            &&& record.status == Status::Open
            &&& record.owner == ctx.user
            &&& record.stake_amount == stake_amount
            &&& stake_amount > 0
            &&& record.staked_mint == ctx.stake_vault.mint
            &&& Direction::from_label(direction) == Some(record.direction)
            &&& record.opened_at == opened_at
            &&& record.expires_at == opened_at + duration
            &&& duration == 30 || duration == 60 || duration == 300
            &&& record.start_price == start_price
        }),
        ctx.after(stake_amount, direction, duration, start_price, opened_at).stake_vault.balance
            == ctx.stake_vault.balance + stake_amount,
        ctx.order(stake_amount).amount == stake_amount,
        ctx.order(stake_amount).from == ctx.user,
        ctx.order(stake_amount).to == ctx.stake_vault.address,
        ctx.order(stake_amount).authority == Authority::User(ctx.user),
{
    let chosen = Duration::of_seconds(duration as int)->Some_0;
    assert(chosen.seconds() == duration);
}

/// Settling keeps a well-formed record well-formed, whether it succeeds or
/// is refused.
pub proof fn lemma_settle_keeps_records_sound(
    ctx: SettlePredictionContext,
    new_price: u64,
    now: i64,
)
    requires
        ctx.prediction_state.well_formed(),
    ensures
        ctx.after(new_price, now).prediction_state.well_formed(),
        ctx.after(new_price, now).state == ctx.state,
{
}

/// Claiming keeps a well-formed record well-formed and keeps the books
/// backed by the reserve vault, whether it succeeds or is refused.
pub proof fn lemma_claim_keeps_the_market_sound(ctx: ClaimRewardsContext)
    requires
        ctx.prediction_state.well_formed(),
        ctx.state.well_formed(),
        ctx.state.backed_by(ctx.reserve_vault),
    ensures
        ctx.after().prediction_state.well_formed(),
        ctx.after().state.well_formed(),
        ctx.after().state.backed_by(ctx.after().reserve_vault),
{
}

/// Withdrawing keeps the books well-formed and backed by the reserve vault,
/// whether it succeeds or is refused.
pub proof fn lemma_withdraw_keeps_the_market_sound(ctx: WithdrawFeesContext, amount: u64)
    requires
        ctx.state.well_formed(),
        ctx.state.backed_by(ctx.reserve_vault),
    ensures
        ctx.after(amount).state.well_formed(),
        ctx.after(amount).state.backed_by(ctx.after(amount).reserve_vault),
{
}

/// In a well-formed market the winner of a settled prediction is paid
/// whenever the amounts fit: the claim of the owner is refused only for want
/// of funds, or because twice the stake does not fit in 64 bits.
pub proof fn lemma_winner_is_paid_when_funds_suffice(ctx: ClaimRewardsContext)
    requires
        ctx.state.well_formed(),
        ctx.user == ctx.prediction_state.owner,
        ctx.prediction_state.status == Status::Settled,
        ctx.prediction_state.outcome,
        ctx.prediction_state.stake_amount * 2 <= u64::MAX,
        ctx.prediction_state.stake_amount <= ctx.stake_vault.balance,
        ctx.prediction_state.stake_amount * 2 <= ctx.reserve_vault.balance,
        ctx.prediction_state.stake_amount * 2 <= ctx.state.total_reserve_balance,
    ensures
        ctx.result() is Ok,
{
    lemma_fee_within_reward(ctx.prediction_state.stake_amount, ctx.state.fee_percent);
    lemma_payout_formula(ctx.prediction_state.stake_amount, ctx.state.fee_percent);
}

/// On a ledger that agrees with the market's vaults, the two payments of a
/// claim are carried out one after the other, the vaults' balances are again
/// the ones that the ledger holds, and the winner has the stake more of the
/// staked token and the bonus more of the reserve token.
pub proof fn lemma_claim_is_covered(
    ctx: ClaimRewardsContext,
    balances: Map<(Address, Address), nat>,
    vaults: Set<Address>,
)
    requires
        ctx.result() is Ok,
        in_step(ctx.stake_vault, balances),
        in_step(ctx.reserve_vault, balances),
        vaults.contains(ctx.stake_vault.address),
        vaults.contains(ctx.reserve_vault.address),
        ctx.stake_vault.address != ctx.reserve_vault.address,
        !vaults.contains(ctx.prediction_state.owner),
    ensures
        is_carried_out(balances, vaults, ctx.orders().stake_return),
        is_carried_out(
            carried_out(balances, ctx.orders().stake_return),
            vaults,
            ctx.orders().bonus,
        ),
        ({
            let settled = carried_out(
                carried_out(balances, ctx.orders().stake_return),
                ctx.orders().bonus,
            );
            let owner = ctx.prediction_state.owner;
            let stake_mint = ctx.stake_vault.mint;
            let reserve_mint = ctx.reserve_vault.mint;
            &&& in_step(ctx.after().stake_vault, settled)
            &&& in_step(ctx.after().reserve_vault, settled)
            &&& stake_mint != reserve_mint ==> {
                &&& balance_of(settled, stake_mint, owner) == balance_of(
                    balances,
                    stake_mint,
                    owner,
                ) + ctx.prediction_state.stake_amount
                &&& balance_of(settled, reserve_mint, owner) == balance_of(
                    balances,
                    reserve_mint,
                    owner,
                ) + ctx.orders().bonus.amount
            }
            &&& stake_mint == reserve_mint ==> balance_of(settled, stake_mint, owner)
                == balance_of(balances, stake_mint, owner) + ctx.prediction_state.stake_amount
                + ctx.orders().bonus.amount
        }),
{
    lemma_payout_formula(ctx.prediction_state.stake_amount, ctx.state.fee_percent);
}

/// On a ledger that agrees with the reserve vault, the payment of a
/// withdrawal is carried out, the administrator has the amount more, and the
/// vault's balance is again the one that the ledger holds.
pub proof fn lemma_withdrawal_is_covered(
    ctx: WithdrawFeesContext,
    amount: u64,
    balances: Map<(Address, Address), nat>,
    vaults: Set<Address>,
)
    requires
        ctx.result(amount) is Ok,
        in_step(ctx.reserve_vault, balances),
        vaults.contains(ctx.reserve_vault.address),
        !vaults.contains(ctx.state.admin),
    ensures
        is_carried_out(balances, vaults, ctx.order(amount)),
        in_step(ctx.after(amount).reserve_vault, carried_out(balances, ctx.order(amount))),
        balance_of(
            carried_out(balances, ctx.order(amount)),
            ctx.reserve_vault.mint,
            ctx.state.admin,
        ) == balance_of(balances, ctx.reserve_vault.mint, ctx.state.admin) + amount,
{
}

/// A prediction moves through its life in one direction: settling takes an
/// open record to settled, claiming takes a settled winner to claimed, and
/// neither does anything else to the status.
pub proof fn lemma_lifecycle_only_advances(
    settle: SettlePredictionContext,
    new_price: u64,
    now: i64,
    claim: ClaimRewardsContext,
)
    ensures
        settle.result(now) is Ok ==> settle.prediction_state.status == Status::Open
            && settle.after(new_price, now).prediction_state.status == Status::Settled,
        settle.result(now) is Err ==> settle.after(new_price, now).prediction_state.status
            == settle.prediction_state.status,
        claim.result() is Ok ==> claim.prediction_state.status == Status::Settled
            && claim.prediction_state.outcome && claim.after().prediction_state.status
            == Status::Claimed,
        claim.result() is Err ==> claim.after().prediction_state.status
            == claim.prediction_state.status,
{
}

} // verus!
