//! The block builder: gathers transactions into a pending block under the
//! block's gas limit, then finalizes it with rewards or aborts it.

use vstd::prelude::*;

use crate::primitives::{lemma_u256_of_value, post_merge, u256_max, u256_of, U256, Address, BlockEnv, CfgEnv, ExecutionResult, TxEnv, TxModel, B256};
use crate::runtime::{ExecutionOutcome, ExecutionRequest};
use crate::state::{AccountInfo, StateError, StateStore, StoreModel};
use crate::trace::{Trace, TraceCollector, TraceEvent};

verus! {

/// The fields of a block header that the builder reads and fills.
#[derive(Clone, Copy, Debug, PartialEq, Eq, Structural)]
pub struct Header {
    pub parent_hash: B256,
    pub beneficiary: Address,
    pub number: u64,
    pub gas_limit: u64,
    pub gas_used: u64,
    pub timestamp: u64,
    pub difficulty: U256,
    pub base_fee: Option<U256>,
    pub mix_hash: B256,
}

/// Header fields chosen by the caller, in place of those taken from the parent.
#[derive(Clone, Copy, Debug, PartialEq, Eq, Structural)]
pub struct HeaderData {
    pub parent_hash: Option<B256>,
    pub number: Option<u64>,
    pub gas_limit: Option<u64>,
}

/// Why a transaction was not added to the block.
#[derive(Clone, Copy, Debug, PartialEq, Eq, Structural)]
pub enum BlockTransactionError {
    /// The transaction's gas limit is above the gas left in the block.
    ExceedsBlockGasLimit,
}

/// The header of a new block over a parent. Where the caller gives none:
/// the parent hash is the parent header's `parent_hash` field, the number is
/// one past the parent's, and the gas limit is the parent's. Every other
/// field is zero or empty.
pub open spec fn new_header(parent: Header, data: HeaderData) -> Header {
    Header {
        parent_hash: match data.parent_hash {
            Some(h) => h,
            None => parent.parent_hash,
        },
        number: match data.number {
            Some(n) => n,
            None => (parent.number + 1) as u64,
        },
        gas_limit: match data.gas_limit {
            Some(g) => g,
            None => parent.gas_limit,
        },
        beneficiary: Address { high: 0, low: 0 },
        gas_used: 0,
        timestamp: 0,
        difficulty: U256 { high: 0, low: 0 },
        base_fee: None,
        mix_hash: B256 { high: 0, low: 0 },
    }
}

/// The block environment in which the block's transactions run; it carries
/// a random-beacon value only after the merge.
pub open spec fn block_env(header: Header, cfg: CfgEnv) -> BlockEnv {
    BlockEnv {
        number: header.number,
        coinbase: header.beneficiary,
        timestamp: header.timestamp,
        difficulty: header.difficulty,
        basefee: match header.base_fee {
            Some(f) => f,
            None => U256 { high: 0, low: 0 },
        },
        gas_limit: header.gas_limit,
        prevrandao: if post_merge(cfg.spec_id) {
            Some(header.mix_hash)
        } else {
            None
        },
    }
}

/// The account of an address with an amount added to its balance.
pub open spec fn credited(m: StoreModel, address: Address, amount: U256) -> AccountInfo {
    AccountInfo { balance: u256_of(m.account(address).balance.value() + amount.value()), ..m.account(address) }
}

/// The store after rewards are paid in order, and whether all of them were:
/// payment stops at the first reward that would overflow a balance.
pub open spec fn rewarded(m: StoreModel, rewards: Seq<(Address, U256)>) -> (StoreModel, Result<
    (),
    StateError,
>)
    decreases rewards.len(),
{
    if rewards.len() == 0 {
        (m, Ok(()))
    } else {
        let (address, amount) = rewards[0];
        if m.account(address).balance.value() + amount.value() > u256_max() {
            (m, Err(StateError::BalanceOverflow))
        } else {
            rewarded(m.applied(seq![(address, credited(m, address, amount))]), rewards.drop_first())
        }
    }
}

/// Builds one block. Terminal operations, `finalize` and `abort`, consume the
/// builder and hand the store back.
pub struct BlockBuilder {
    state: StateStore,
    header: Header,
    transactions: Vec<TxEnv>,
    cfg: CfgEnv,
    /// Gas limit of the transaction that the interpreter is running, if any.
    in_flight: Option<u64>,
    /// The store as it was right after construction.
    origin: Ghost<StoreModel>,
}

impl BlockBuilder {
    pub closed spec fn store(&self) -> StoreModel {
        self.state@
    }

    pub closed spec fn pending_header(&self) -> Header {
        self.header
    }

    pub closed spec fn config(&self) -> CfgEnv {
        self.cfg
    }

    /// The transactions added so far, in order.
    pub closed spec fn pending(&self) -> Seq<TxModel> {
        self.transactions@.map_values(|t: TxEnv| t@)
    }

    /// Gas limit of the transaction awaiting its outcome, if any.
    pub closed spec fn awaiting(&self) -> Option<u64> {
        self.in_flight
    }

    /// The store right after construction, with the builder's checkpoint open.
    pub closed spec fn initial_store(&self) -> StoreModel {
        self.origin@
    }

    pub closed spec fn wf(&self) -> bool {
        &&& self.state.wf()
        &&& self.header.gas_used <= self.header.gas_limit
        &&& (self.in_flight matches Some(g) ==> self.header.gas_used + g <= self.header.gas_limit)
        &&& self.origin@.checkpoints.len() >= 1
        &&& self.origin@.checkpoints.last() == self.origin@.journal.len()
        &&& self.state@.checkpoints == self.origin@.checkpoints
        &&& self.origin@.journal.len() <= self.state@.journal.len()
        &&& self.state@.journal.subrange(0, self.origin@.journal.len() as int) == self.origin@.journal
    }

    /// A builder for a block over `parent`, which opens a checkpoint in the store.
    pub fn new(state: StateStore, cfg: CfgEnv, parent: &Header, header: HeaderData) -> (r: BlockBuilder)
        requires
            state.wf(),
            header.number is Some || parent.number < u64::MAX,
        ensures
            r.wf(),
            r.pending_header() == new_header(*parent, header),
            r.config() == cfg,
            r.pending() == Seq::<TxModel>::empty(),
            r.awaiting() is None,
            r.pending_header().gas_used <= r.pending_header().gas_limit,
            r.store() == state@.checkpointed(),
            r.initial_store() == state@.checkpointed(),
    {
        let mut state = state;
        state.checkpoint();
        let header = Header {
            parent_hash: match header.parent_hash {
                Some(h) => h,
                None => parent.parent_hash,
            },
            number: match header.number {
                Some(n) => n,
                None => parent.number + 1,
            },
            gas_limit: match header.gas_limit {
                Some(g) => g,
                None => parent.gas_limit,
            },
            beneficiary: Address::zero(),
            gas_used: 0,
            timestamp: 0,
            difficulty: U256::zero(),
            base_fee: None,
            mix_hash: B256::zero(),
        };
        let ghost origin = state@;
        let r = BlockBuilder {
            state,
            header,
            transactions: Vec::new(),
            cfg,
            in_flight: None,
            origin: Ghost(origin),
        };
        proof {
            assert(r.transactions@.map_values(|t: TxEnv| t@) =~= Seq::<TxModel>::empty());
            assert(r.state@.journal.subrange(0, origin.journal.len() as int) =~= origin.journal);
        }
        r
    }

    /// The store.
    pub fn state(&self) -> (r: &StateStore)
        ensures
            r@ == self.store(),
    {
        &self.state
    }

    /// The header of the pending block.
    pub fn header(&self) -> (r: Header)
        ensures
            r == self.pending_header(),
    {
        self.header
    }

    /// The transactions added so far, in order.
    pub fn transactions(&self) -> (r: &Vec<TxEnv>)
        ensures
            r@.map_values(|t: TxEnv| t@) == self.pending(),
    {
        &self.transactions
    }

    /// Whether the transaction last added still awaits its outcome.
    pub fn awaiting_outcome(&self) -> (r: bool)
        ensures
            r == self.awaiting() is Some,
    {
        self.in_flight.is_some()
    }

    /// Gas used in the block so far.
    pub fn gas_used(&self) -> (r: u64)
        requires
            self.wf(),
        ensures
            r == self.pending_header().gas_used,
            r <= self.pending_header().gas_limit,
    {
        self.header.gas_used
    }

    /// Gas left in the block.
    pub fn gas_remaining(&self) -> (r: u64)
        requires
            self.wf(),
        ensures
            r == self.pending_header().gas_limit - self.pending_header().gas_used,
    {
        self.header.gas_limit - self.header.gas_used
    }
    /// Adds a transaction to the block and plans its run in the block's
    /// environment, or refuses it, changing nothing, where its gas limit is
    /// above the gas left in the block. The outcome of the run goes to
    /// [`BlockBuilder::complete_transaction`] before the next transaction.
    pub fn add_transaction(&mut self, transaction: TxEnv) -> (r: Result<
        ExecutionRequest,
        BlockTransactionError,
    >)
        requires
            old(self).wf(),
            old(self).awaiting() is None,
        ensures
            final(self).wf(),
            r is Err <==> transaction.gas_limit > old(self).pending_header().gas_limit
                - old(self).pending_header().gas_used,
            r is Err ==> r == Err::<ExecutionRequest, BlockTransactionError>(
                BlockTransactionError::ExceedsBlockGasLimit,
            ) && *final(self) == *old(self),
            r is Err ==> final(self).pending() == old(self).pending() && final(self).pending_header()
                == old(self).pending_header() && final(self).store() == old(self).store(),
            final(self).pending_header().gas_used <= final(self).pending_header().gas_limit,
            r matches Ok(req) ==> {
                &&& req.cfg == old(self).config()
                &&& req.transaction@ == transaction@
                &&& req.tracer@ == Seq::<TraceEvent>::empty()
                &&& req.block == block_env(old(self).pending_header(), old(self).config())
                &&& final(self).pending() == old(self).pending().push(transaction@)
                &&& final(self).awaiting() == Some(transaction.gas_limit)
                &&& final(self).pending_header() == old(self).pending_header()
                &&& final(self).config() == old(self).config()
                &&& final(self).store() == old(self).store()
                &&& final(self).initial_store() == old(self).initial_store()
            },
    {
        if transaction.gas_limit > self.gas_remaining() {
            return Err(BlockTransactionError::ExceedsBlockGasLimit);
        }
        let pending = transaction.duplicate();
        self.transactions.push(pending);
        self.in_flight = Some(transaction.gas_limit);
        let block = BlockEnv {
            number: self.header.number,
            coinbase: self.header.beneficiary,
            timestamp: self.header.timestamp,
            difficulty: self.header.difficulty,
            basefee: match self.header.base_fee {
                Some(f) => f,
                None => U256::zero(),
            },
            gas_limit: self.header.gas_limit,
            prevrandao: if self.cfg.spec_id.is_post_merge() {
                Some(self.header.mix_hash)
            } else {
                None
            },
        };
        proof {
            assert(self.transactions@.map_values(|t: TxEnv| t@) =~= old(self).transactions@.map_values(
                |t: TxEnv| t@,
            ).push(transaction@));
        }
        Ok(ExecutionRequest { cfg: self.cfg, transaction, block, tracer: TraceCollector::new() })
    }

    /// Takes the outcome of the transaction last added: its changeset goes
    /// into the store, its gas into the block's gas used, and its result and
    /// trace are returned. The interpreter never uses more gas than the
    /// transaction's limit.
    pub fn complete_transaction(&mut self, outcome: ExecutionOutcome) -> (r: (ExecutionResult, Trace))
        requires
            old(self).wf(),
            old(self).awaiting() matches Some(g) && outcome.result.gas_used <= g,
        ensures
            final(self).wf(),
            r == (outcome.result, outcome.trace),
            final(self).pending_header() == (Header {
                gas_used: (old(self).pending_header().gas_used + outcome.result.gas_used) as u64,
                ..old(self).pending_header()
            }),
            final(self).pending_header().gas_used <= final(self).pending_header().gas_limit,
            final(self).store() == old(self).store().applied(outcome.changes@),
            final(self).awaiting() is None,
            final(self).pending() == old(self).pending(),
            final(self).config() == old(self).config(),
            final(self).initial_store() == old(self).initial_store(),
    {
        self.state.apply(&outcome.changes);
        self.header.gas_used = self.header.gas_used + outcome.result.gas_used;
        self.in_flight = None;
        proof {
            let n = self.origin@.journal.len() as int;
            assert(self.state@.journal.subrange(0, n) =~= old(self).state@.journal.subrange(0, n));
        }
        (outcome.result, outcome.trace)
    }

    /// Pays each reward in order by adding it to the balance of its address,
    /// and ends the block. Payment stops at a reward that would overflow a
    /// balance. The store is handed back, with whether all rewards were paid.
    pub fn finalize(self, rewards: Vec<(Address, U256)>) -> (r: (StateStore, Result<(), StateError>))
        requires
            self.wf(),
        ensures
            r.0.wf(),
            (r.0@, r.1) == rewarded(self.store(), rewards@),
    {
        let mut state = self.state;
        let mut i: usize = 0;
        proof {
            assert(rewards@.subrange(0, rewards@.len() as int) =~= rewards@);
        }
        while i < rewards.len()
            invariant
                i <= rewards@.len(),
                state.wf(),
                rewarded(state@, rewards@.subrange(i as int, rewards@.len() as int)) == rewarded(
                    self.store(),
                    rewards@,
                ),
            decreases rewards@.len() - i,
        {
            let (address, amount) = rewards[i];
            proof {
                assert(rewards@.subrange(i as int, rewards@.len() as int).drop_first()
                    =~= rewards@.subrange(i + 1, rewards@.len() as int));
            }
            match state.modify_account(address, amount) {
                Ok(()) => {},
                Err(e) => {
                    return (state, Err(e));
                },
            }
            i = i + 1;
        }
        proof {
            assert(rewards@.subrange(i as int, rewards@.len() as int) =~= Seq::<(Address, U256)>::empty());
        }
        (state, Ok(()))
    }

    /// Ends the block and reverts the store to the checkpoint opened at
    /// construction, undoing every transaction added.
    pub fn abort(self) -> (r: StateStore)
        requires
            self.wf(),
        ensures
            r.wf(),
            r@ == self.initial_store().reverted(),
            r@.accounts() == self.initial_store().accounts(),
    {
        let mut state = self.state;
        let _ = state.revert();
        proof {
            let o = self.origin@;
            assert(o.journal.subrange(0, o.journal.len() as int) =~= o.journal);
            assert(state@.journal =~= o.journal);
        }
        state
    }
}

/// An account after one write to it is what was written.
proof fn lemma_written(m: StoreModel, address: Address, info: AccountInfo)
    ensures
        m.applied(seq![(address, info)]).account(address) == info,
        forall|b: Address| b != address ==> #[trigger] m.applied(seq![(address, info)]).account(b) == m.account(b),
{
    assert((m.journal + seq![(address, info)]).drop_last() =~= m.journal);
}

/// Two rewards to one address add up: its balance grows by their sum, and
/// every other account stays as it was.
pub proof fn lemma_rewards_add_up(
    m: StoreModel,
    address: Address,
    first: U256,
    second: U256,
    rewards: Seq<(Address, U256)>,
)
    requires
        rewards == seq![(address, first), (address, second)],
        m.account(address).balance.value() + first.value() + second.value() <= u256_max(),
    ensures
        rewarded(m, rewards).1 == Ok::<(), StateError>(()),
        rewarded(m, rewards).0.account(address).balance.value() == m.account(address).balance.value()
            + first.value() + second.value(),
        forall|b: Address| b != address ==> #[trigger] rewarded(m, rewards).0.account(b) == m.account(b),
{
    lemma_u256_of_value(m.account(address).balance.value() + first.value());
    let m1 = m.applied(seq![(address, credited(m, address, first))]);
    lemma_written(m, address, credited(m, address, first));
    lemma_u256_of_value(m1.account(address).balance.value() + second.value());
    let m2 = m1.applied(seq![(address, credited(m1, address, second))]);
    lemma_written(m1, address, credited(m1, address, second));
    assert(rewards.drop_first() =~= seq![(address, second)]);
    assert(rewards.drop_first().drop_first() =~= Seq::<(Address, U256)>::empty());
    assert(rewarded(m1, seq![(address, second)]) == rewarded(m2, Seq::<(Address, U256)>::empty()));
}

} // verus!
