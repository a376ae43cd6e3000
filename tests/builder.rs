use rethnet_evm::builder::{BlockBuilder, BlockTransactionError, Header, HeaderData};
use rethnet_evm::primitives::{Address, CfgEnv, ExecutionResult, ExitStatus, SpecId, TxEnv, B256, U256};
use rethnet_evm::runtime::ExecutionOutcome;
use rethnet_evm::state::{AccountInfo, StateError, StateStore};
use rethnet_evm::trace::Trace;

fn u(n: u128) -> U256 {
    U256::from_u128(n)
}

fn addr(low: u128) -> Address {
    Address { high: 0, low }
}

fn zero() -> B256 {
    B256 { high: 0, low: 0 }
}

fn parent() -> Header {
    Header {
        parent_hash: B256 { high: 5, low: 6 },
        beneficiary: addr(8),
        number: 41,
        gas_limit: 100_000,
        gas_used: 77,
        timestamp: 1234,
        difficulty: u(9),
        base_fee: Some(u(3)),
        mix_hash: B256 { high: 1, low: 1 },
    }
}

fn no_overrides() -> HeaderData {
    HeaderData { parent_hash: None, number: None, gas_limit: None }
}

fn cfg(spec_id: SpecId) -> CfgEnv {
    CfgEnv { chain_id: 1, spec_id, disable_balance_check: false }
}

fn tx(gas_limit: u64) -> TxEnv {
    TxEnv {
        caller: addr(1),
        gas_limit,
        gas_price: u(1),
        transact_to: Some(addr(2)),
        value: u(0),
        data: vec![1],
        nonce: None,
    }
}

fn account(balance: u128) -> AccountInfo {
    AccountInfo { balance: u(balance), nonce: 0, code_hash: zero() }
}

fn outcome(gas_used: u64, changes: Vec<(Address, AccountInfo)>) -> ExecutionOutcome {
    ExecutionOutcome {
        result: ExecutionResult { status: ExitStatus::Return, gas_used, gas_refunded: 0, logs: 0 },
        changes,
        trace: Trace::new(),
    }
}

fn seeded_store() -> StateStore {
    let mut store = StateStore::new();
    store.insert_account(addr(1), account(1000));
    store
}

#[test]
fn header_defaults_from_parent() {
    let builder = BlockBuilder::new(StateStore::new(), cfg(SpecId::London), &parent(), no_overrides());
    let h = builder.header();
    assert_eq!(h.parent_hash, B256 { high: 5, low: 6 });
    assert_eq!(h.number, 42);
    assert_eq!(h.gas_limit, 100_000);
    assert_eq!(h.gas_used, 0);
    assert_eq!(h.timestamp, 0);
    assert_eq!(h.beneficiary, addr(0));
    assert_eq!(h.base_fee, None);
    assert_eq!(builder.state().checkpoint_count(), 1);
}

#[test]
fn header_overrides_win() {
    let data = HeaderData { parent_hash: Some(B256 { high: 0, low: 3 }), number: Some(7), gas_limit: Some(500) };
    let builder = BlockBuilder::new(StateStore::new(), cfg(SpecId::London), &parent(), data);
    let h = builder.header();
    assert_eq!(h.parent_hash, B256 { high: 0, low: 3 });
    assert_eq!(h.number, 7);
    assert_eq!(h.gas_limit, 500);
}

#[test]
fn gas_used_grows_by_each_transaction() {
    let mut builder = BlockBuilder::new(StateStore::new(), cfg(SpecId::London), &parent(), no_overrides());
    let req = builder.add_transaction(tx(50_000)).unwrap();
    assert_eq!(req.block.number, 42);
    assert_eq!(req.block.gas_limit, 100_000);
    assert_eq!(req.block.prevrandao, None);
    builder.complete_transaction(outcome(30_000, vec![]));
    assert_eq!(builder.gas_used(), 30_000);
    assert_eq!(builder.gas_remaining(), 70_000);
    builder.add_transaction(tx(70_000)).unwrap();
    builder.complete_transaction(outcome(70_000, vec![]));
    assert_eq!(builder.gas_used(), 100_000);
    assert_eq!(builder.gas_remaining(), 0);
    assert_eq!(builder.transactions().len(), 2);
}

#[test]
fn transaction_over_remaining_gas_is_refused() {
    let mut builder = BlockBuilder::new(seeded_store(), cfg(SpecId::London), &parent(), no_overrides());
    builder.add_transaction(tx(60_000)).unwrap();
    builder.complete_transaction(outcome(60_000, vec![(addr(2), account(5))]));
    let err = builder.add_transaction(tx(40_001)).unwrap_err();
    assert_eq!(err, BlockTransactionError::ExceedsBlockGasLimit);
    assert_eq!(builder.gas_used(), 60_000);
    assert_eq!(builder.transactions().len(), 1);
    assert_eq!(builder.state().balance(addr(2)), u(5));
    assert!(builder.add_transaction(tx(40_000)).is_ok());
}

#[test]
fn post_merge_block_carries_prevrandao() {
    let mut builder = BlockBuilder::new(StateStore::new(), cfg(SpecId::Merge), &parent(), no_overrides());
    let req = builder.add_transaction(tx(21_000)).unwrap();
    assert_eq!(req.block.prevrandao, Some(zero()));
    assert_eq!(req.cfg.spec_id, SpecId::Merge);
    assert_eq!(req.transaction.data, vec![1]);
    assert!(req.tracer.trace().events.is_empty());
}

#[test]
fn transactions_keep_their_order() {
    let mut builder = BlockBuilder::new(StateStore::new(), cfg(SpecId::London), &parent(), no_overrides());
    builder.add_transaction(tx(1000)).unwrap();
    builder.complete_transaction(outcome(10, vec![]));
    builder.add_transaction(tx(2000)).unwrap();
    builder.complete_transaction(outcome(20, vec![]));
    let limits: Vec<u64> = builder.transactions().iter().map(|t| t.gas_limit).collect();
    assert_eq!(limits, vec![1000, 2000]);
}

#[test]
fn abort_restores_store() {
    let mut builder = BlockBuilder::new(seeded_store(), cfg(SpecId::London), &parent(), no_overrides());
    builder.add_transaction(tx(10_000)).unwrap();
    builder.complete_transaction(outcome(5_000, vec![(addr(1), account(1)), (addr(3), account(3))]));
    builder.add_transaction(tx(10_000)).unwrap();
    builder.complete_transaction(outcome(5_000, vec![(addr(4), account(4))]));
    assert_eq!(builder.state().balance(addr(1)), u(1));
    let store = builder.abort();
    assert_eq!(store.basic(addr(1)), Some(account(1000)));
    assert_eq!(store.basic(addr(3)), None);
    assert_eq!(store.basic(addr(4)), None);
    assert_eq!(store.checkpoint_count(), 0);
}

#[test]
fn finalize_adds_rewards_for_same_address() {
    let builder = BlockBuilder::new(seeded_store(), cfg(SpecId::London), &parent(), no_overrides());
    let (store, result) = builder.finalize(vec![(addr(1), u(5)), (addr(1), u(3))]);
    assert_eq!(result, Ok(()));
    assert_eq!(store.balance(addr(1)), u(1008));
}

#[test]
fn finalize_rewards_new_accounts_in_order() {
    let builder = BlockBuilder::new(StateStore::new(), cfg(SpecId::London), &parent(), no_overrides());
    let (store, result) = builder.finalize(vec![(addr(9), u(2)), (addr(8), u(4)), (addr(9), u(1))]);
    assert_eq!(result, Ok(()));
    assert_eq!(store.balance(addr(9)), u(3));
    assert_eq!(store.balance(addr(8)), u(4));
}

#[test]
fn finalize_stops_at_overflow() {
    let mut store = StateStore::new();
    let top = U256 { high: u128::MAX, low: u128::MAX };
    store.insert_account(addr(1), AccountInfo { balance: top, nonce: 0, code_hash: zero() });
    let builder = BlockBuilder::new(store, cfg(SpecId::London), &parent(), no_overrides());
    let (store, result) = builder.finalize(vec![(addr(2), u(5)), (addr(1), u(1)), (addr(3), u(7))]);
    assert_eq!(result, Err(StateError::BalanceOverflow));
    assert_eq!(store.balance(addr(2)), u(5));
    assert_eq!(store.balance(addr(1)), top);
    assert_eq!(store.balance(addr(3)), u(0));
}
