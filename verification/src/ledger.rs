use vstd::prelude::*;
use crate::address::Address;
use crate::error::ErrorCode;
use crate::vault::Vault;

verus! {

/// The market's configuration and its books: one per market.
#[derive(Clone, Copy, Debug, PartialEq, Eq)]
pub struct BinaryOptionsState {
    /// The protocol's authority, which also reports the observed prices.
    pub admin: Address,
    /// The token in which bonuses are paid.
    pub reserve_mint: Address,
    /// The custodial account that holds the reserve.
    pub vault_address: Address,
    /// The reserve that has not been paid out yet, as the market has it on
    /// record. It never exceeds what the reserve vault holds.
    pub total_reserve_balance: u64,
    /// The hundredths of a reward that the protocol keeps, 0 to 100.
    pub fee_percent: u64,
}

impl BinaryOptionsState {
    /// The books before a market is opened: nobody's, and empty.
    pub open spec fn vacant() -> BinaryOptionsState {
        BinaryOptionsState {
            admin: Address::zero(),
            reserve_mint: Address::zero(),
            vault_address: Address::zero(),
            total_reserve_balance: 0,
            fee_percent: 0,
        }
    }

    /// The fee is a share of the reward, not more.
    pub open spec fn well_formed(self) -> bool {
        self.fee_percent <= 100
    }

    /// The books speak of `vault`, and `vault` holds at least what they record.
    pub open spec fn backed_by(self, vault: Vault) -> bool {
        &&& vault.address == self.vault_address
        &&& vault.mint == self.reserve_mint
        &&& self.total_reserve_balance <= vault.balance
    }

    /// The books with `balance` as the recorded reserve.
    pub open spec fn with_reserve(self, balance: int) -> BinaryOptionsState {
        BinaryOptionsState { total_reserve_balance: balance as u64, ..self }
    }

    /// Is `caller` the market's administrator?
    pub fn is_admin(&self, caller: &Address) -> (r: bool)
        ensures
            r == (*caller == self.admin),
    {
        *caller == self.admin
    }

    /// Takes `amount` off the recorded reserve, in one tested step.
    ///
    /// Refused, with `InsufficientReserve`, exactly when `amount` is more than
    /// the recorded reserve; the books are then unchanged.
    pub fn debit_reserve(&mut self, amount: u64) -> (r: Result<(), ErrorCode>)
        ensures
            match r {
                Ok(()) => {
                    &&& amount <= old(self).total_reserve_balance
                    &&& *final(self) == old(self).with_reserve(
                        old(self).total_reserve_balance - amount,
                    )
                },
                Err(e) => {
                    &&& amount > old(self).total_reserve_balance
                    &&& e == ErrorCode::InsufficientReserve
                    &&& *final(self) == *old(self)
                },
            },
    {
        match self.total_reserve_balance.checked_sub(amount) {
            Some(balance) => {
                self.total_reserve_balance = balance;
                Ok(())
            },
            None => Err(ErrorCode::InsufficientReserve),
        }
    }
}

impl Default for BinaryOptionsState {
    fn default() -> (state: BinaryOptionsState)
        ensures
            state == BinaryOptionsState::vacant(),
    {
        BinaryOptionsState {
            admin: Address::default(),
            reserve_mint: Address::default(),
            vault_address: Address::default(),
            total_reserve_balance: 0,
            fee_percent: 0,
        }
    }
}

} // verus!
