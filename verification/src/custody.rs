//! The transfer interface that the market relies on, as a model: what the
//! hosting ledger holds and how it answers an order. The laws say that the
//! market's bookkeeping and the ledger agree.

use vstd::prelude::*;
use crate::address::Address;
use crate::vault::{Authority, Transfer, Vault};

verus! {

/// What `account` holds of the token `mint` on the ledger `balances`: nothing
/// if the ledger does not know it. The ledger is keyed by token and account.
pub open spec fn balance_of(
    balances: Map<(Address, Address), nat>,
    mint: Address,
    account: Address,
) -> nat {
    if balances.dom().contains((mint, account)) {
        balances[(mint, account)]
    } else {
        0
    }
}

/// May the authority of `order` move funds out of the account it names? Out
/// of one of the market's `vaults` only the escrow authority may, and out of
/// any other account only the party that holds it.
pub open spec fn is_permitted(vaults: Set<Address>, order: Transfer) -> bool {
    if vaults.contains(order.from) {
        order.authority == Authority::Escrow
    } else {
        order.authority == Authority::User(order.from)
    }
}

/// Does the ledger carry `order` out? It does unless the authority is not
/// permitted or the paying account holds less than the amount.
pub open spec fn is_carried_out(
    balances: Map<(Address, Address), nat>,
    vaults: Set<Address>,
    order: Transfer,
) -> bool {
    is_permitted(vaults, order) && order.amount <= balance_of(balances, order.mint, order.from)
}

/// The ledger after `order` has been carried out: the amount has left the
/// paying account and reached the receiving one, and nothing else has moved.
pub open spec fn carried_out(balances: Map<(Address, Address), nat>, order: Transfer) -> Map<
    (Address, Address),
    nat,
> {
    let debited = balances.insert(
        (order.mint, order.from),
        (balance_of(balances, order.mint, order.from) - order.amount) as nat,
    );
    debited.insert(
        (order.mint, order.to),
        (balance_of(debited, order.mint, order.to) + order.amount) as nat,
    )
}

/// The balance that the market has for `vault` is the one that the ledger holds.
pub open spec fn in_step(vault: Vault, balances: Map<(Address, Address), nat>) -> bool {
    balance_of(balances, vault.mint, vault.address) == vault.balance
}

/// A payment that a vault has agreed to is covered: the ledger carries it out,
/// the receiver has the amount more, and the vault's balance is again the one
/// that the ledger holds.
pub proof fn lemma_disbursement_is_covered(
    vault: Vault,
    amount: u64,
    to: Address,
    balances: Map<(Address, Address), nat>,
    vaults: Set<Address>,
)
    requires
        in_step(vault, balances),
        vaults.contains(vault.address),
        to != vault.address,
        amount <= vault.balance,
    ensures
        is_carried_out(balances, vaults, vault.disburse_order(amount, to)),
        in_step(
            vault.with_balance(vault.balance - amount),
            carried_out(balances, vault.disburse_order(amount, to)),
        ),
        balance_of(carried_out(balances, vault.disburse_order(amount, to)), vault.mint, to)
            == balance_of(balances, vault.mint, to) + amount,
{
}

/// A deposit that a vault has agreed to keeps the books true. The ledger
/// carries it out exactly when the depositor holds the amount, and then the
/// vault's balance is again the one that the ledger holds.
pub proof fn lemma_deposit_keeps_in_step(
    vault: Vault,
    amount: u64,
    from: Address,
    balances: Map<(Address, Address), nat>,
    vaults: Set<Address>,
)
    requires
        in_step(vault, balances),
        !vaults.contains(from),
        from != vault.address,
        vault.balance + amount <= u64::MAX,
    ensures
        is_carried_out(balances, vaults, vault.deposit_order(amount, from)) <==> amount
            <= balance_of(balances, vault.mint, from),
        is_carried_out(balances, vaults, vault.deposit_order(amount, from)) ==> in_step(
            vault.with_balance(vault.balance + amount),
            carried_out(balances, vault.deposit_order(amount, from)),
        ),
{
}

/// No user's signature moves funds out of a vault: the ledger refuses every
/// order on a vault that the escrow authority has not signed.
pub proof fn lemma_users_cannot_take_from_vaults(
    balances: Map<(Address, Address), nat>,
    vaults: Set<Address>,
    order: Transfer,
)
    requires
        vaults.contains(order.from),
        order.authority != Authority::Escrow,
    ensures
        !is_carried_out(balances, vaults, order),
{
}

/// An order moves funds and makes none: what the two accounts hold together
/// is the same before and after, and no other balance changes.
pub proof fn lemma_transfer_conserves_funds(
    balances: Map<(Address, Address), nat>,
    order: Transfer,
)
    requires
        order.amount <= balance_of(balances, order.mint, order.from),
        order.from != order.to,
    ensures
        balance_of(carried_out(balances, order), order.mint, order.from) + balance_of(
            carried_out(balances, order),
            order.mint,
            order.to,
        ) == balance_of(balances, order.mint, order.from) + balance_of(
            balances,
            order.mint,
            order.to,
        ),
        forall|mint: Address, account: Address|
            (mint, account) != (order.mint, order.from) && (mint, account) != (
                order.mint,
                order.to,
            ) ==> #[trigger] balance_of(carried_out(balances, order), mint, account) == balance_of(
                balances,
                mint,
                account,
            ),
{
}

} // verus!
