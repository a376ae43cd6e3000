use rethnet_evm::legacy::{LegacySignedTransaction, Signature, TransactionKind};
use rethnet_evm::primitives::{Address, B256, U256};

fn transaction(v: u64) -> LegacySignedTransaction {
    LegacySignedTransaction {
        nonce: 12,
        gas_price: U256::from_u128(20),
        gas_limit: 21000,
        kind: TransactionKind::Call(Address { high: 0, low: 3 }),
        value: U256::from_u128(1),
        input: vec![],
        signature: Signature { r: B256 { high: 0, low: 1 }, s: B256 { high: 0, low: 2 }, v },
    }
}

#[test]
fn nonce_is_read() {
    assert_eq!(*transaction(27).nonce(), 12);
}

#[test]
fn chain_id_from_replay_protected_v() {
    assert_eq!(transaction(37).chain_id(), Some(1));
    assert_eq!(transaction(38).chain_id(), Some(1));
    assert_eq!(transaction(2 * 1337 + 36).chain_id(), Some(1337));
}

#[test]
fn no_chain_id_before_replay_protection() {
    assert_eq!(transaction(27).chain_id(), None);
    assert_eq!(transaction(28).chain_id(), None);
    assert_eq!(transaction(36).chain_id(), None);
}
