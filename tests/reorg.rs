use rethnet_evm::reorg::{
    is_safe_block_number, largest_possible_reorg, largest_safe_block_number, IsSafeBlockNumberArgs,
    LargestSafeBlockNumberArgs,
};

#[test]
fn reorg_depth_by_chain() {
    assert_eq!(largest_possible_reorg(3), 100);
    assert_eq!(largest_possible_reorg(100), 38);
    assert_eq!(largest_possible_reorg(1), 32);
    assert_eq!(largest_possible_reorg(5), 32);
}

#[test]
fn largest_safe_block_number_subtracts_depth() {
    let args = LargestSafeBlockNumberArgs { chain_id: 1, latest_block_number: 1000 };
    assert_eq!(largest_safe_block_number(args), 968);
    let args = LargestSafeBlockNumberArgs { chain_id: 3, latest_block_number: 1000 };
    assert_eq!(largest_safe_block_number(args), 900);
}

#[test]
fn largest_safe_block_number_stops_at_zero() {
    let args = LargestSafeBlockNumberArgs { chain_id: 100, latest_block_number: 10 };
    assert_eq!(largest_safe_block_number(args), 0);
}

#[test]
fn safe_block_number_boundary() {
    let at = IsSafeBlockNumberArgs { chain_id: 1, latest_block_number: 1000, block_number: 968 };
    assert!(is_safe_block_number(at));
    let past = IsSafeBlockNumberArgs { chain_id: 1, latest_block_number: 1000, block_number: 969 };
    assert!(!is_safe_block_number(past));
}

#[test]
fn largest_safe_args_from_is_safe_args() {
    let args = IsSafeBlockNumberArgs { chain_id: 7, latest_block_number: 70, block_number: 1 };
    let narrowed = LargestSafeBlockNumberArgs::from(args);
    assert_eq!(narrowed.chain_id, 7);
    assert_eq!(narrowed.latest_block_number, 70);
}
