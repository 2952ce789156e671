use binary_options::{Address, Authority, BinaryOptionsState, ErrorCode, Transfer, Vault};

fn id(byte: u8) -> Address {
    Address::new([byte; 32])
}

#[test]
fn deposit_adds_to_the_balance_and_orders_the_payment() {
    let mut vault = Vault::new(id(1), id(2), 40);
    let order = vault.deposit(60, id(3)).unwrap();
    assert_eq!(vault, Vault { address: id(1), mint: id(2), balance: 100 });
    assert_eq!(
        order,
        Transfer { mint: id(2), from: id(3), to: id(1), authority: Authority::User(id(3)), amount: 60 }
    );
}

#[test]
fn deposit_that_overflows_is_refused() {
    let mut vault = Vault::new(id(1), id(2), u64::MAX - 5);
    assert_eq!(vault.deposit(6, id(3)), Err(ErrorCode::ArithmeticOverflow));
    assert_eq!(vault.balance, u64::MAX - 5);
    assert!(vault.deposit(5, id(3)).is_ok());
    assert_eq!(vault.balance, u64::MAX);
}

#[test]
fn disburse_takes_from_the_balance_on_the_escrow_authority() {
    let mut vault = Vault::new(id(1), id(2), 100);
    let order = vault.disburse(30, id(4)).unwrap();
    assert_eq!(vault.balance, 70);
    assert_eq!(
        order,
        Transfer { mint: id(2), from: id(1), to: id(4), authority: Authority::Escrow, amount: 30 }
    );
}

#[test]
fn disburse_can_empty_the_vault_and_no_more() {
    let mut vault = Vault::new(id(1), id(2), 100);
    assert_eq!(vault.disburse(101, id(4)), Err(ErrorCode::InsufficientVaultBalance));
    assert_eq!(vault.balance, 100);
    assert!(vault.disburse(100, id(4)).is_ok());
    assert_eq!(vault.balance, 0);
    assert_eq!(vault.disburse(1, id(4)), Err(ErrorCode::InsufficientVaultBalance));
    assert!(vault.disburse(0, id(4)).is_ok());
}

#[test]
fn only_the_admin_is_admin() {
    let state = BinaryOptionsState {
        admin: id(7),
        reserve_mint: id(2),
        vault_address: id(1),
        total_reserve_balance: 10,
        fee_percent: 5,
    };
    assert!(state.is_admin(&id(7)));
    assert!(!state.is_admin(&id(8)));
    let mut almost = [7u8; 32];
    almost[31] = 6;
    assert!(!state.is_admin(&Address::new(almost)));
}

#[test]
fn debit_reserve_is_one_tested_step() {
    let mut state = BinaryOptionsState {
        admin: id(7),
        reserve_mint: id(2),
        vault_address: id(1),
        total_reserve_balance: 10,
        fee_percent: 5,
    };
    assert_eq!(state.debit_reserve(11), Err(ErrorCode::InsufficientReserve));
    assert_eq!(state.total_reserve_balance, 10);
    assert_eq!(state.debit_reserve(4), Ok(()));
    assert_eq!(state.total_reserve_balance, 6);
    assert_eq!(state.debit_reserve(6), Ok(()));
    assert_eq!(state.total_reserve_balance, 0);
    assert_eq!(state.debit_reserve(1), Err(ErrorCode::InsufficientReserve));
}

#[test]
fn addresses_compare_byte_for_byte() {
    let a = Address::new([9u8; 32]);
    let b = Address::new([9u8; 32]);
    assert_eq!(a, b);
    assert_eq!(a.to_bytes(), [9u8; 32]);
    for i in 0..32 {
        let mut bytes = [9u8; 32];
        bytes[i] = 8;
        assert_ne!(a, Address::new(bytes));
    }
    assert_eq!(Address::default(), Address::new([0u8; 32]));
}
