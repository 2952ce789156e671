use vstd::prelude::*;
use crate::address::Address;
use crate::error::ErrorCode;

verus! {

/// On whose word tokens leave an account.
#[derive(Clone, Copy, Debug, PartialEq, Eq)]
pub enum Authority {
    /// The party that holds the account signs for it.
    User(Address),
    /// The market's own escrow authority, which no user can sign for.
    Escrow,
}

/// An order to the hosting ledger: move `amount` units of the token `mint` from
/// the account of `from` to the account of `to`, on the word of `authority`.
#[derive(Clone, Copy, Debug, PartialEq, Eq)]
pub struct Transfer {
    /// The token that moves.
    pub mint: Address,
    /// Who pays: a user, or a vault by its address.
    pub from: Address,
    /// Who receives: a user, or a vault by its address.
    pub to: Address,
    /// Who signs for the paying account.
    pub authority: Authority,
    /// How much moves.
    pub amount: u64,
}

/// A custodial account of the market together with the balance it holds when
/// an operation starts.
#[derive(Clone, Copy, Debug, PartialEq, Eq)]
pub struct Vault {
    /// The custodial account.
    pub address: Address,
    /// The token that it holds.
    pub mint: Address,
    /// How much it holds.
    pub balance: u64,
}

impl Vault {
    /// The custodial account `address` of the token `mint`, holding `balance`.
    pub fn new(address: Address, mint: Address, balance: u64) -> (vault: Vault)
        ensures
            vault.address == address,
            vault.mint == mint,
            vault.balance == balance,
    {
        Vault { address, mint, balance }
    }

    /// The order that pays `amount` into the vault from `from`.
    pub open spec fn deposit_order(self, amount: u64, from: Address) -> Transfer {
        Transfer {
            mint: self.mint,
            from,
            to: self.address,
            authority: Authority::User(from),
            amount,
        }
    }

    /// The order that pays `amount` out of the vault to `to`.
    pub open spec fn disburse_order(self, amount: u64, to: Address) -> Transfer {
        Transfer { mint: self.mint, from: self.address, to, authority: Authority::Escrow, amount }
    }

    /// The vault with `balance` in place of its own.
    pub open spec fn with_balance(self, balance: int) -> Vault {
        Vault { balance: balance as u64, ..self }
    }

    /// Takes `amount` tokens from `from` into custody.
    ///
    /// The order is signed by `from` itself. The deposit is refused, with
    /// `ArithmeticOverflow`, exactly when the new balance would not fit in 64
    /// bits; the vault is then unchanged.
    pub fn deposit(&mut self, amount: u64, from: Address) -> (r: Result<Transfer, ErrorCode>)
        ensures
            match r {
                Ok(order) => {
                    &&& old(self).balance + amount <= u64::MAX
                    &&& *final(self) == old(self).with_balance(old(self).balance + amount)
                    &&& order == old(self).deposit_order(amount, from)
                },
                Err(e) => {
                    &&& old(self).balance + amount > u64::MAX
                    &&& e == ErrorCode::ArithmeticOverflow
                    &&& *final(self) == *old(self)
                },
            },
    {
        match self.balance.checked_add(amount) {
            Some(balance) => {
                let order = Transfer {
                    mint: self.mint,
                    from,
                    to: self.address,
                    authority: Authority::User(from),
                    amount,
                };
                self.balance = balance;
                Ok(order)
            },
            None => Err(ErrorCode::ArithmeticOverflow),
        }
    }

    /// Pays `amount` tokens out of custody to `to`.
    ///
    /// The order is signed by the escrow authority, never by a user. The
    /// payment is refused, with `InsufficientVaultBalance`, exactly when the
    /// vault holds less than `amount`; the vault is then unchanged.
    pub fn disburse(&mut self, amount: u64, to: Address) -> (r: Result<Transfer, ErrorCode>)
        ensures
            match r {
                Ok(order) => {
                    &&& amount <= old(self).balance
                    &&& *final(self) == old(self).with_balance(old(self).balance - amount)
                    &&& order == old(self).disburse_order(amount, to)
                },
                Err(e) => {
                    &&& amount > old(self).balance
                    &&& e == ErrorCode::InsufficientVaultBalance
                    &&& *final(self) == *old(self)
                },
            },
    {
        if amount > self.balance {
            return Err(ErrorCode::InsufficientVaultBalance);
        }
        let order = Transfer {
            mint: self.mint,
            from: self.address,
            to,
            authority: Authority::Escrow,
            amount,
        };
        self.balance = self.balance - amount;
        Ok(order)
    }
}

} // verus!
