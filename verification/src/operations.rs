use vstd::prelude::*;
use crate::address::Address;
use crate::error::ErrorCode;
use crate::ledger::BinaryOptionsState;
use crate::policy::{compute_payout, payout_is_defined, payout_of};
use crate::prediction::{Direction, Duration, PredictionState, Status};
use crate::vault::{Transfer, Vault};

verus! {

/// The accounts of `initialize`.
#[derive(Clone, Copy, Debug, PartialEq, Eq)]
pub struct InitializeContext {
    /// Where the market's books are written.
    pub state: BinaryOptionsState,
    /// The vault that will hold the reserve.
    pub reserve_vault: Vault,
    /// The caller, who becomes the administrator and funds the reserve.
    pub user: Address,
}

/// The accounts of `create_prediction`.
#[derive(Clone, Copy, Debug, PartialEq, Eq)]
pub struct CreatePredictionContext {
    /// Where the new record is written.
    pub prediction_state: PredictionState,
    /// The vault that takes the stake; its token is the staked token.
    pub stake_vault: Vault,
    /// The caller, who stakes.
    pub user: Address,
}

/// The accounts of `settle_prediction`.
#[derive(Clone, Copy, Debug, PartialEq, Eq)]
pub struct SettlePredictionContext {
    /// The market's books, which name the administrator.
    pub state: BinaryOptionsState,
    /// The record to settle.
    pub prediction_state: PredictionState,
    /// The caller.
    pub user: Address,
}

/// The accounts of `claim_rewards`.
#[derive(Clone, Copy, Debug, PartialEq, Eq)]
pub struct ClaimRewardsContext {
    /// The market's books, which hold the fee and the recorded reserve.
    pub state: BinaryOptionsState,
    /// The record to pay.
    pub prediction_state: PredictionState,
    /// The vault that holds the stake.
    pub stake_vault: Vault,
    /// The vault that holds the reserve.
    pub reserve_vault: Vault,
    /// The caller.
    pub user: Address,
}

/// The accounts of `withdraw_fees`.
#[derive(Clone, Copy, Debug, PartialEq, Eq)]
pub struct WithdrawFeesContext {
    /// The market's books, which name the administrator and hold the
    /// recorded reserve.
    pub state: BinaryOptionsState,
    /// The vault that holds the reserve.
    pub reserve_vault: Vault,
    /// The caller.
    pub user: Address,
}

/// The two payments that a claim orders.
#[derive(Clone, Copy, Debug, PartialEq, Eq)]
pub struct ClaimTransfers {
    /// The stake, from the stake vault back to its owner.
    pub stake_return: Transfer,
    /// The bonus, from the reserve vault to the owner.
    pub bonus: Transfer,
}

impl InitializeContext {
    /// The accounts for opening a market: `user` calls, `reserve_vault` will
    /// hold the reserve, and the books are still vacant.
    pub fn new(user: Address, reserve_vault: Vault) -> (ctx: InitializeContext)
        ensures
            ctx.state == BinaryOptionsState::vacant(),
            ctx.reserve_vault == reserve_vault,
            ctx.user == user,
    {
        InitializeContext { state: BinaryOptionsState::default(), reserve_vault, user }
    }

    /// Why `initialize` refuses, if it does.
    pub open spec fn refusal(self, initial_reserve_amount: u64, fee_percent: u64) -> Option<
        ErrorCode,
    > {
        if fee_percent > 100 {
            Some(ErrorCode::InvalidFeePercent)
        } else if self.reserve_vault.balance + initial_reserve_amount > u64::MAX {
            Some(ErrorCode::ArithmeticOverflow)
        } else {
            None
        }
    }

    /// The accounts after `initialize`.
    pub open spec fn committed(
        self,
        initial_reserve_amount: u64,
        fee_percent: u64,
    ) -> InitializeContext {
        InitializeContext {
            state: BinaryOptionsState {
                admin: self.user,
                reserve_mint: self.reserve_vault.mint,
                vault_address: self.reserve_vault.address,
                total_reserve_balance: initial_reserve_amount,
                fee_percent,
            },
            reserve_vault: self.reserve_vault.with_balance(
                self.reserve_vault.balance + initial_reserve_amount,
            ),
            user: self.user,
        }
    }

    /// The payment that `initialize` orders: the seed, from the caller into
    /// the reserve vault.
    pub open spec fn order(self, initial_reserve_amount: u64) -> Transfer {
        self.reserve_vault.deposit_order(initial_reserve_amount, self.user)
    }

    /// What `initialize` returns.
    pub open spec fn result(self, initial_reserve_amount: u64, fee_percent: u64) -> Result<
        Transfer,
        ErrorCode,
    > {
        match self.refusal(initial_reserve_amount, fee_percent) {
            Some(e) => Err(e),
            None => Ok(self.order(initial_reserve_amount)),
        }
    }

    /// The accounts as `initialize` leaves them: untouched by a refusal.
    pub open spec fn after(self, initial_reserve_amount: u64, fee_percent: u64) -> InitializeContext {
        if self.refusal(initial_reserve_amount, fee_percent) is None {
            self.committed(initial_reserve_amount, fee_percent)
        } else {
            self
        }
    }
}

impl CreatePredictionContext {
    /// The accounts for opening a prediction: `user` calls, `stake_vault`
    /// takes the stake, and the record's place is still vacant.
    pub fn new(user: Address, stake_vault: Vault) -> (ctx: CreatePredictionContext)
        ensures
            ctx.prediction_state == PredictionState::vacant(),
            ctx.stake_vault == stake_vault,
            ctx.user == user,
    {
        CreatePredictionContext { prediction_state: PredictionState::default(), stake_vault, user }
    }

    /// Why `create_prediction` refuses, if it does.
    pub open spec fn refusal(
        self,
        stake_amount: u64,
        direction: Seq<char>,
        duration: u64,
        opened_at: i64,
    ) -> Option<ErrorCode> {
        if Duration::of_seconds(duration as int) is None {
            Some(ErrorCode::InvalidDuration)
        } else if Direction::from_label(direction) is None {
            Some(ErrorCode::InvalidDirection)
        } else if stake_amount == 0 {
            Some(ErrorCode::InvalidAmount)
        } else if opened_at + duration > i64::MAX {
            Some(ErrorCode::ArithmeticOverflow)
        } else if self.stake_vault.balance + stake_amount > u64::MAX {
            Some(ErrorCode::ArithmeticOverflow)
        } else {
            None
        }
    }

    /// The accounts after `create_prediction`.
    pub open spec fn committed(
        self,
        stake_amount: u64,
        direction: Seq<char>,
        duration: u64,
        start_price: u64,
        opened_at: i64,
    ) -> CreatePredictionContext {
        CreatePredictionContext {
            prediction_state: PredictionState::opened(
                self.user,
                stake_amount,
                self.stake_vault.mint,
                Direction::from_label(direction)->Some_0,
                Duration::of_seconds(duration as int)->Some_0,
                start_price,
                opened_at,
            ),
            stake_vault: self.stake_vault.with_balance(self.stake_vault.balance + stake_amount),
            user: self.user,
        }
    }

    /// The payment that `create_prediction` orders: the stake, from the
    /// caller into the stake vault.
    pub open spec fn order(self, stake_amount: u64) -> Transfer {
        self.stake_vault.deposit_order(stake_amount, self.user)
    }

    /// What `create_prediction` returns.
    pub open spec fn result(
        self,
        stake_amount: u64,
        direction: Seq<char>,
        duration: u64,
        opened_at: i64,
    ) -> Result<Transfer, ErrorCode> {
        match self.refusal(stake_amount, direction, duration, opened_at) {
            Some(e) => Err(e),
            None => Ok(self.order(stake_amount)),
        }
    }

    /// The accounts as `create_prediction` leaves them: untouched by a
    /// refusal.
    pub open spec fn after(
        self,
        stake_amount: u64,
        direction: Seq<char>,
        duration: u64,
        start_price: u64,
        opened_at: i64,
    ) -> CreatePredictionContext {
        if self.refusal(stake_amount, direction, duration, opened_at) is None {
            self.committed(stake_amount, direction, duration, start_price, opened_at)
        } else {
            self
        }
    }
}

impl SettlePredictionContext {
    /// Why `settle_prediction` refuses, if it does.
    pub open spec fn refusal(self, now: i64) -> Option<ErrorCode> {
        if self.prediction_state.status != Status::Open {
            Some(ErrorCode::AlreadySettled)
        } else if now < self.prediction_state.expires_at {
            Some(ErrorCode::NotExpired)
        } else if self.user != self.state.admin {
            Some(ErrorCode::Unauthorized)
        } else {
            None
        }
    }

    /// The accounts after `settle_prediction`.
    pub open spec fn committed(self, new_price: u64) -> SettlePredictionContext {
        SettlePredictionContext {
            prediction_state: self.prediction_state.settled(new_price),
            ..self
        }
    }

    /// What `settle_prediction` returns.
    pub open spec fn result(self, now: i64) -> Result<(), ErrorCode> {
        match self.refusal(now) {
            Some(e) => Err(e),
            None => Ok(()),
        }
    }

    /// The accounts as `settle_prediction` leaves them: untouched by a
    /// refusal.
    pub open spec fn after(self, new_price: u64, now: i64) -> SettlePredictionContext {
        if self.refusal(now) is None {
            self.committed(new_price)
        } else {
            self
        }
    }
}

impl ClaimRewardsContext {
    /// What the claim pays, where the payout is defined.
    pub open spec fn payout(self) -> crate::policy::Payout {
        payout_of(self.prediction_state.stake_amount, self.state.fee_percent)
    }

    /// Why `claim_rewards` refuses, if it does.
    pub open spec fn refusal(self) -> Option<ErrorCode> {
        if self.user != self.prediction_state.owner {
            Some(ErrorCode::Unauthorized)
        } else if self.prediction_state.status == Status::Open {
            Some(ErrorCode::NotSettled)
        } else if !self.prediction_state.outcome {
            Some(ErrorCode::NotWinning)
        } else if self.prediction_state.status == Status::Claimed {
            Some(ErrorCode::AlreadyClaimed)
        } else if !payout_is_defined(self.prediction_state.stake_amount, self.state.fee_percent) {
            Some(ErrorCode::ArithmeticOverflow)
        } else if self.payout().return_amount > self.stake_vault.balance {
            Some(ErrorCode::InsufficientVaultBalance)
        } else if self.payout().bonus_amount > self.reserve_vault.balance {
            Some(ErrorCode::InsufficientVaultBalance)
        } else if self.payout().bonus_amount > self.state.total_reserve_balance {
            Some(ErrorCode::InsufficientReserve)
        } else {
            None
        }
    }

    /// The accounts after `claim_rewards`.
    pub open spec fn committed(self) -> ClaimRewardsContext {
        ClaimRewardsContext {
            state: self.state.with_reserve(
                self.state.total_reserve_balance - self.payout().bonus_amount,
            ),
            prediction_state: self.prediction_state.claimed(),
            stake_vault: self.stake_vault.with_balance(
                self.stake_vault.balance - self.payout().return_amount,
            ),
            reserve_vault: self.reserve_vault.with_balance(
                self.reserve_vault.balance - self.payout().bonus_amount,
            ),
            user: self.user,
        }
    }

    /// The payments that `claim_rewards` orders, both to the record's owner
    /// and both on the word of the escrow authority.
    pub open spec fn orders(self) -> ClaimTransfers {
        ClaimTransfers {
            stake_return: self.stake_vault.disburse_order(
                self.payout().return_amount,
                self.prediction_state.owner,
            ),
            bonus: self.reserve_vault.disburse_order(
                self.payout().bonus_amount,
                self.prediction_state.owner,
            ),
        }
    }

    /// What `claim_rewards` returns.
    pub open spec fn result(self) -> Result<ClaimTransfers, ErrorCode> {
        match self.refusal() {
            Some(e) => Err(e),
            None => Ok(self.orders()),
        }
    }

    /// The accounts as `claim_rewards` leaves them: untouched by a refusal.
    pub open spec fn after(self) -> ClaimRewardsContext {
        if self.refusal() is None {
            self.committed()
        } else {
            self
        }
    }
}

impl WithdrawFeesContext {
    /// Why `withdraw_fees` refuses, if it does.
    pub open spec fn refusal(self, amount: u64) -> Option<ErrorCode> {
        if self.user != self.state.admin {
            Some(ErrorCode::Unauthorized)
        } else if amount > self.state.total_reserve_balance {
            Some(ErrorCode::InsufficientReserve)
        } else if amount > self.reserve_vault.balance {
            Some(ErrorCode::InsufficientVaultBalance)
        } else {
            None
        }
    }

    /// The accounts after `withdraw_fees`.
    pub open spec fn committed(self, amount: u64) -> WithdrawFeesContext {
        WithdrawFeesContext {
            state: self.state.with_reserve(self.state.total_reserve_balance - amount),
            reserve_vault: self.reserve_vault.with_balance(self.reserve_vault.balance - amount),
            user: self.user,
        }
    }

    /// The payment that `withdraw_fees` orders: `amount`, from the reserve
    /// vault to the administrator, on the word of the escrow authority.
    pub open spec fn order(self, amount: u64) -> Transfer {
        self.reserve_vault.disburse_order(amount, self.state.admin)
    }

    /// What `withdraw_fees` returns.
    pub open spec fn result(self, amount: u64) -> Result<Transfer, ErrorCode> {
        match self.refusal(amount) {
            Some(e) => Err(e),
            None => Ok(self.order(amount)),
        }
    }

    /// The accounts as `withdraw_fees` leaves them: untouched by a refusal.
    pub open spec fn after(self, amount: u64) -> WithdrawFeesContext {
        if self.refusal(amount) is None {
            self.committed(amount)
        } else {
            self
        }
    }
}

/// Opens the market.
///
/// The caller becomes the administrator, `initial_reserve_amount` is ordered
/// from the caller into the reserve vault, and the books start with that
/// amount as the recorded reserve and with `fee_percent` as the fee.
///
/// Refused with `InvalidFeePercent` when `fee_percent` is over 100, else with
/// `ArithmeticOverflow` when the vault could not hold the seed. A refusal
/// changes nothing.
pub fn initialize(ctx: &mut InitializeContext, initial_reserve_amount: u64, fee_percent: u64) -> (r:
    Result<Transfer, ErrorCode>)
    ensures
        r == old(ctx).result(initial_reserve_amount, fee_percent),
        *final(ctx) == old(ctx).after(initial_reserve_amount, fee_percent),
        r is Ok ==> final(ctx).state.well_formed() && final(ctx).state.backed_by(
            final(ctx).reserve_vault,
        ),
{
    if fee_percent > 100 {
        return Err(ErrorCode::InvalidFeePercent);
    }
    let mut reserve_vault = ctx.reserve_vault;
    let order = reserve_vault.deposit(initial_reserve_amount, ctx.user)?;
    ctx.state = BinaryOptionsState {
        admin: ctx.user,
        reserve_mint: reserve_vault.mint,
        vault_address: reserve_vault.address,
        total_reserve_balance: initial_reserve_amount,
        fee_percent,
    };
    ctx.reserve_vault = reserve_vault;
    Ok(order)
}

/// Opens a prediction for the caller as of the time `opened_at`.
///
/// `direction` is `long` or `short`, `duration` is 30, 60 or 300 seconds, and
/// `stake_amount` is more than nothing. The stake is ordered from the caller
/// into the stake vault and the record is written: open, owned by the caller,
/// in the vault's token, expiring `duration` seconds after `opened_at`.
///
/// Refused, in this order, with `InvalidDuration`, `InvalidDirection`,
/// `InvalidAmount`, and with `ArithmeticOverflow` when the expiry is not a
/// time or the vault could not hold the stake. A refusal changes nothing.
pub fn create_prediction(
    ctx: &mut CreatePredictionContext,
    stake_amount: u64,
    direction: &str,
    duration: u64,
    start_price: u64,
    opened_at: i64,
) -> (r: Result<Transfer, ErrorCode>)
    ensures
        r == old(ctx).result(stake_amount, direction@, duration, opened_at),
        *final(ctx) == old(ctx).after(stake_amount, direction@, duration, start_price, opened_at),
        r is Ok ==> final(ctx).prediction_state.well_formed(),
{
    let duration = Duration::from_secs(duration)?;
    let direction = Direction::parse(direction)?;
    if stake_amount == 0 {
        return Err(ErrorCode::InvalidAmount);
    }
    let expires_at: i64 = match opened_at.checked_add(duration.as_secs()) {
        Some(expires_at) => expires_at,
        None => {
            return Err(ErrorCode::ArithmeticOverflow);
        },
    };
    let mut stake_vault = ctx.stake_vault;
    let order = stake_vault.deposit(stake_amount, ctx.user)?;
    ctx.prediction_state = PredictionState {
        owner: ctx.user,
        stake_amount,
        staked_mint: stake_vault.mint,
        direction,
        opened_at,
        expires_at,
        start_price,
        end_price: None,
        status: Status::Open,
        outcome: false,
    };
    ctx.stake_vault = stake_vault;
    Ok(order)
}

/// Records the price observed at expiry and with it the outcome.
///
/// A long stake wins when `new_price` is above the start price, a short one
/// when it is below. No funds move.
///
/// Refused, in this order, with `AlreadySettled` when the prediction is not
/// open, with `NotExpired` when `now` is before its expiry, and with
/// `Unauthorized` when the caller is not the administrator. A refusal changes
/// nothing.
pub fn settle_prediction(ctx: &mut SettlePredictionContext, new_price: u64, now: i64) -> (r:
    Result<(), ErrorCode>)
    ensures
        r == old(ctx).result(now),
        *final(ctx) == old(ctx).after(new_price, now),
        old(ctx).prediction_state.well_formed() ==> final(ctx).prediction_state.well_formed(),
{
    match ctx.prediction_state.status {
        Status::Open => {},
        _ => {
            return Err(ErrorCode::AlreadySettled);
        },
    }
    if now < ctx.prediction_state.expires_at {
        return Err(ErrorCode::NotExpired);
    }
    if !ctx.state.is_admin(&ctx.user) {
        return Err(ErrorCode::Unauthorized);
    }
    let outcome = ctx.prediction_state.direction.is_winning(
        ctx.prediction_state.start_price,
        new_price,
    );
    ctx.prediction_state.end_price = Some(new_price);
    ctx.prediction_state.outcome = outcome;
    ctx.prediction_state.status = Status::Settled;
    Ok(())
}

/// Pays a winner.
///
/// The stake is ordered from the stake vault and the bonus from the reserve
/// vault, both to the record's owner and both on the word of the escrow
/// authority; the recorded reserve goes down by the bonus and the record
/// becomes claimed.
///
/// Refused, in this order, with `Unauthorized` when the caller is not the
/// owner, `NotSettled` when the prediction is open, `NotWinning` when it
/// lost, `AlreadyClaimed` when it was claimed, `ArithmeticOverflow` when the
/// payout is not defined, `InsufficientVaultBalance` when a vault holds less
/// than it has to pay, and `InsufficientReserve` when the recorded reserve is
/// less than the bonus. A refusal changes nothing.
pub fn claim_rewards(ctx: &mut ClaimRewardsContext) -> (r: Result<ClaimTransfers, ErrorCode>)
    ensures
        r == old(ctx).result(),
        *final(ctx) == old(ctx).after(),
        old(ctx).prediction_state.well_formed() ==> final(ctx).prediction_state.well_formed(),
        old(ctx).state.backed_by(old(ctx).reserve_vault) ==> final(ctx).state.backed_by(
            final(ctx).reserve_vault,
        ),
{
    let owner = ctx.prediction_state.owner;
    if !(ctx.user == owner) {
        return Err(ErrorCode::Unauthorized);
    }
    match ctx.prediction_state.status {
        Status::Open => {
            return Err(ErrorCode::NotSettled);
        },
        _ => {},
    }
    if !ctx.prediction_state.outcome {
        return Err(ErrorCode::NotWinning);
    }
    match ctx.prediction_state.status {
        Status::Claimed => {
            return Err(ErrorCode::AlreadyClaimed);
        },
        _ => {},
    }
    let payout = compute_payout(ctx.prediction_state.stake_amount, ctx.state.fee_percent)?;
    let mut stake_vault = ctx.stake_vault;
    let mut reserve_vault = ctx.reserve_vault;
    let mut state = ctx.state;
    let stake_return = stake_vault.disburse(payout.return_amount, owner)?;
    let bonus = reserve_vault.disburse(payout.bonus_amount, owner)?;
    state.debit_reserve(payout.bonus_amount)?;
    ctx.state = state;
    ctx.stake_vault = stake_vault;
    ctx.reserve_vault = reserve_vault;
    ctx.prediction_state.status = Status::Claimed;
    Ok(ClaimTransfers { stake_return, bonus })
}

/// Pays `amount` of the reserve to the administrator.
///
/// The payment is ordered from the reserve vault on the word of the escrow
/// authority, and the recorded reserve goes down by `amount`.
///
/// Refused, in this order, with `Unauthorized` when the caller is not the
/// administrator, `InsufficientReserve` when `amount` is more than the
/// recorded reserve, and `InsufficientVaultBalance` when it is more than the
/// vault holds. A refusal changes nothing.
pub fn withdraw_fees(ctx: &mut WithdrawFeesContext, amount: u64) -> (r: Result<
    Transfer,
    ErrorCode,
>)
    ensures
        r == old(ctx).result(amount),
        *final(ctx) == old(ctx).after(amount),
        old(ctx).state.backed_by(old(ctx).reserve_vault) ==> final(ctx).state.backed_by(
            final(ctx).reserve_vault,
        ),
{
    if !ctx.state.is_admin(&ctx.user) {
        return Err(ErrorCode::Unauthorized);
    }
    let mut state = ctx.state;
    let mut reserve_vault = ctx.reserve_vault;
    state.debit_reserve(amount)?;
    let order = reserve_vault.disburse(amount, state.admin)?;
    ctx.state = state;
    ctx.reserve_vault = reserve_vault;
    Ok(order)
}

} // verus!
