use rethnet_evm::primitives::{Address, B256, U256};
use rethnet_evm::state::{AccountInfo, StateError, StateStore};

fn u(n: u128) -> U256 {
    U256::from_u128(n)
}

fn addr(low: u128) -> Address {
    Address { high: 0, low }
}

fn account(balance: u128, nonce: u64) -> AccountInfo {
    AccountInfo { balance: u(balance), nonce, code_hash: B256 { high: 0, low: 0 } }
}

#[test]
fn unknown_account_is_absent() {
    let store = StateStore::new();
    assert_eq!(store.basic(addr(1)), None);
    assert_eq!(store.balance(addr(1)), u(0));
}

#[test]
fn last_write_wins() {
    let mut store = StateStore::new();
    store.apply(&vec![(addr(1), account(10, 0)), (addr(2), account(20, 1)), (addr(1), account(30, 2))]);
    assert_eq!(store.basic(addr(1)), Some(account(30, 2)));
    assert_eq!(store.basic(addr(2)), Some(account(20, 1)));
}

#[test]
fn revert_goes_back_to_checkpoint() {
    let mut store = StateStore::new();
    store.insert_account(addr(1), account(10, 0));
    store.checkpoint();
    store.apply(&vec![(addr(1), account(99, 1)), (addr(3), account(5, 0))]);
    assert_eq!(store.revert(), Ok(()));
    assert_eq!(store.basic(addr(1)), Some(account(10, 0)));
    assert_eq!(store.basic(addr(3)), None);
    assert_eq!(store.checkpoint_count(), 0);
}

#[test]
fn revert_without_checkpoint_fails() {
    let mut store = StateStore::new();
    store.insert_account(addr(1), account(10, 0));
    assert_eq!(store.revert(), Err(StateError::NoCheckpoint));
    assert_eq!(store.balance(addr(1)), u(10));
}

#[test]
fn modify_account_adds_to_balance_and_keeps_nonce() {
    let mut store = StateStore::new();
    store.insert_account(addr(1), account(10, 4));
    assert_eq!(store.modify_account(addr(1), u(5)), Ok(()));
    assert_eq!(store.basic(addr(1)), Some(account(15, 4)));
    assert_eq!(store.modify_account(addr(2), u(7)), Ok(()));
    assert_eq!(store.basic(addr(2)), Some(account(7, 0)));
}

#[test]
fn modify_account_refuses_overflow() {
    let mut store = StateStore::new();
    let near = U256 { high: u128::MAX, low: u128::MAX - 1 };
    store.insert_account(addr(1), AccountInfo { balance: near, nonce: 0, code_hash: B256 { high: 0, low: 0 } });
    assert_eq!(store.modify_account(addr(1), u(2)), Err(StateError::BalanceOverflow));
    assert_eq!(store.balance(addr(1)), near);
    assert_eq!(store.modify_account(addr(1), u(1)), Ok(()));
    assert_eq!(store.balance(addr(1)), U256 { high: u128::MAX, low: u128::MAX });
}

#[test]
fn balances_carry_past_128_bits() {
    let mut store = StateStore::new();
    store.insert_account(addr(1), account(u128::MAX, 0));
    assert_eq!(store.modify_account(addr(1), u(1)), Ok(()));
    assert_eq!(store.balance(addr(1)), U256 { high: 1, low: 0 });
    assert_eq!(store.modify_account(addr(1), U256 { high: 2, low: 5 }), Ok(()));
    assert_eq!(store.balance(addr(1)), U256 { high: 3, low: 5 });
}

#[test]
fn u256_checked_add() {
    assert_eq!(u(2).checked_add(u(3)), Some(u(5)));
    let max = U256 { high: u128::MAX, low: u128::MAX };
    assert_eq!(max.checked_add(u(0)), Some(max));
    assert_eq!(max.checked_add(u(1)), None);
    assert_eq!(U256 { high: u128::MAX, low: 0 }.checked_add(U256 { high: 1, low: 0 }), None);
    assert_eq!(U256 { high: 7, low: u128::MAX }.checked_add(U256 { high: 1, low: u128::MAX }), Some(U256 { high: 9, low: u128::MAX - 1 }));
}
