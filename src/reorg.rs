//! Reorg-safety thresholds for block numbers.

use vstd::prelude::*;

verus! {

/// Chain id of Ropsten.
pub const ROPSTEN_CHAIN_ID: u64 = 3;

/// Chain id of xDai.
pub const XDAI_CHAIN_ID: u64 = 100;

/// The largest reorg that a chain can see, by chain id: one epoch of
/// Ethereum mainnet unless the chain is known to reorg deeper or shallower.
pub open spec fn reorg_depth(chain_id: u64) -> u64 {
    if chain_id == ROPSTEN_CHAIN_ID {
        100
    } else if chain_id == XDAI_CHAIN_ID {
        38
    } else {
        32
    }
}

/// The largest block number that is safe from reorgs: the latest block
/// number less the reorg depth, stopping at zero.
pub open spec fn safe_block_number(chain_id: u64, latest_block_number: u64) -> u64 {
    if latest_block_number >= reorg_depth(chain_id) {
        (latest_block_number - reorg_depth(chain_id)) as u64
    } else {
        0
    }
}

/// Arguments of [`is_safe_block_number`], named so that the block numbers
/// cannot be mixed up.
#[derive(Clone, Copy, Debug)]
pub struct IsSafeBlockNumberArgs {
    /// The chain id
    pub chain_id: u64,
    /// The latest known block number
    pub latest_block_number: u64,
    /// The block number to test
    pub block_number: u64,
}

/// Arguments of [`largest_safe_block_number`], named so that the block
/// numbers cannot be mixed up.
#[derive(Clone, Copy, Debug)]
pub struct LargestSafeBlockNumberArgs {
    /// The chain id
    pub chain_id: u64,
    /// The latest known block number
    pub latest_block_number: u64,
}

impl From<IsSafeBlockNumberArgs> for LargestSafeBlockNumberArgs {
    fn from(value: IsSafeBlockNumberArgs) -> (r: LargestSafeBlockNumberArgs)
        ensures
            r.chain_id == value.chain_id,
            r.latest_block_number == value.latest_block_number,
    {
        LargestSafeBlockNumberArgs {
            chain_id: value.chain_id,
            latest_block_number: value.latest_block_number,
        }
    }
}

impl vstd::std_specs::convert::FromSpecImpl<IsSafeBlockNumberArgs> for LargestSafeBlockNumberArgs {
    open spec fn obeys_from_spec() -> bool {
        true
    }

    open spec fn from_spec(value: IsSafeBlockNumberArgs) -> LargestSafeBlockNumberArgs {
        LargestSafeBlockNumberArgs {
            chain_id: value.chain_id,
            latest_block_number: value.latest_block_number,
        }
    }
}

/// Tests whether a block number is safe from a reorg on a chain, given the
/// latest block number.
pub fn is_safe_block_number(args: IsSafeBlockNumberArgs) -> (r: bool)
    ensures
        r == (args.block_number <= safe_block_number(args.chain_id, args.latest_block_number)),
{
    let safe_block_number = largest_safe_block_number(LargestSafeBlockNumberArgs::from(args));
    args.block_number <= safe_block_number
}

/// The largest block number that is safe from a reorg on a chain, given the
/// latest block number.
pub fn largest_safe_block_number(args: LargestSafeBlockNumberArgs) -> (r: u64)
    ensures
        r == safe_block_number(args.chain_id, args.latest_block_number),
{
    args.latest_block_number.saturating_sub(largest_possible_reorg(args.chain_id))
}

/// The largest possible size of a reorg on a chain.
pub fn largest_possible_reorg(chain_id: u64) -> (r: u64)
    ensures
        r == reorg_depth(chain_id),
{
    match chain_id {
        ROPSTEN_CHAIN_ID => 100,
        XDAI_CHAIN_ID => 38,
        _ => 32,
    }
}

} // verus!
