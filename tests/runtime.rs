use rethnet_evm::primitives::{
    Address, BlockEnv, CfgEnv, ExecutionResult, ExitStatus, SpecId, TxEnv, B256, U256,
};
use rethnet_evm::runtime::{EvmError, ExecutionOutcome, Rethnet, TransactionError};
use rethnet_evm::state::{AccountInfo, StateStore};
use rethnet_evm::trace::{Trace, TraceEvent};

fn u(n: u128) -> U256 {
    U256::from_u128(n)
}

fn addr(low: u128) -> Address {
    Address { high: 0, low }
}

fn cfg(spec_id: SpecId) -> CfgEnv {
    CfgEnv { chain_id: 1, spec_id, disable_balance_check: false }
}

fn tx() -> TxEnv {
    TxEnv {
        caller: addr(1),
        gas_limit: 21000,
        gas_price: u(1),
        transact_to: Some(addr(2)),
        value: u(3),
        data: vec![0xab, 0xcd],
        nonce: Some(0),
    }
}

fn block(prevrandao: Option<B256>) -> BlockEnv {
    BlockEnv {
        number: 10,
        coinbase: addr(7),
        timestamp: 100,
        difficulty: u(0),
        basefee: u(1),
        gas_limit: 30_000_000,
        prevrandao,
    }
}

fn account(balance: u128) -> AccountInfo {
    AccountInfo { balance: u(balance), nonce: 1, code_hash: B256 { high: 0, low: 0 } }
}

fn outcome() -> ExecutionOutcome {
    let mut trace = Trace::new();
    trace.events.push(TraceEvent::SelfDestruct { contract: addr(2), target: addr(1), value: u(0) });
    ExecutionOutcome {
        result: ExecutionResult { status: ExitStatus::Stop, gas_used: 21000, gas_refunded: 0, logs: 0 },
        changes: vec![(addr(2), account(3))],
        trace,
    }
}

#[test]
fn post_merge_without_prevrandao_is_refused() {
    let rethnet = Rethnet::new(StateStore::new(), cfg(SpecId::Shanghai));
    assert_eq!(rethnet.dry_run(tx(), block(None)).unwrap_err(), TransactionError::MissingPrevrandao);
    assert_eq!(rethnet.run(tx(), block(None)).unwrap_err(), TransactionError::MissingPrevrandao);
    assert_eq!(
        rethnet.guaranteed_dry_run(tx(), block(None)).unwrap_err(),
        TransactionError::MissingPrevrandao
    );
}

#[test]
fn merge_itself_asks_for_prevrandao() {
    let rethnet = Rethnet::new(StateStore::new(), cfg(SpecId::Merge));
    assert_eq!(rethnet.dry_run(tx(), block(None)).unwrap_err(), TransactionError::MissingPrevrandao);
    assert!(rethnet.dry_run(tx(), block(Some(B256 { high: 1, low: 2 }))).is_ok());
}

#[test]
fn pre_merge_runs_without_prevrandao() {
    let rethnet = Rethnet::new(StateStore::new(), cfg(SpecId::London));
    let req = rethnet.dry_run(tx(), block(None)).unwrap();
    assert_eq!(req.cfg, cfg(SpecId::London));
    assert_eq!(req.block, block(None));
    assert_eq!(req.transaction.data, vec![0xab, 0xcd]);
    assert!(req.tracer.trace().events.is_empty());
}

#[test]
fn guaranteed_dry_run_disables_balance_check() {
    let rethnet = Rethnet::new(StateStore::new(), cfg(SpecId::London));
    let req = rethnet.guaranteed_dry_run(tx(), block(None)).unwrap();
    assert!(req.cfg.disable_balance_check);
    assert_eq!(req.cfg.spec_id, SpecId::London);
}

#[test]
fn run_and_dry_run_agree_and_only_run_commits() {
    let mut rethnet = Rethnet::new(StateStore::new(), cfg(SpecId::Cancun));
    let b = block(Some(B256 { high: 0, low: 9 }));
    let dry_req = rethnet.dry_run(tx(), b).unwrap();
    let run_req = rethnet.run(tx(), b).unwrap();
    assert_eq!(dry_req.cfg, run_req.cfg);
    assert_eq!(dry_req.block, run_req.block);
    let (dry_result, changes, dry_trace) = rethnet.finish_dry_run(Ok(outcome())).unwrap();
    assert_eq!(changes, vec![(addr(2), account(3))]);
    assert_eq!(rethnet.state().basic(addr(2)), None);
    let (result, trace) = rethnet.finish_run(Ok(outcome())).unwrap();
    assert_eq!(result, dry_result);
    assert_eq!(trace.events, dry_trace.events);
    assert_eq!(rethnet.state().basic(addr(2)), Some(account(3)));
}

#[test]
fn interpreter_error_is_wrapped() {
    let mut rethnet = Rethnet::new(StateStore::new(), cfg(SpecId::London));
    assert_eq!(
        rethnet.finish_run(Err(EvmError::Database)).unwrap_err(),
        TransactionError::Evm(EvmError::Database)
    );
    assert_eq!(
        rethnet.finish_dry_run(Err(EvmError::Transaction)).unwrap_err(),
        TransactionError::Evm(EvmError::Transaction)
    );
    assert_eq!(rethnet.into_state().checkpoint_count(), 0);
}
