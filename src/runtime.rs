//! The transaction executor. Running the interpreter is outside work: an
//! entry point checks the transaction's preconditions and hands back an
//! [`ExecutionRequest`]; whoever runs the interpreter on it hands the outcome
//! to a `finish_` method, which returns it and, for a committing run, applies
//! its changeset to the store.

use vstd::prelude::*;

use crate::primitives::{post_merge, BlockEnv, CfgEnv, ExecutionResult, TxEnv};
use crate::state::{Changeset, StateStore, StoreModel};
use crate::trace::{Trace, TraceCollector, TraceEvent};

verus! {

/// Why the interpreter could not run a transaction.
#[derive(Clone, Copy, Debug, PartialEq, Eq, Structural)]
pub enum EvmError {
    /// The transaction is invalid in its block.
    Transaction,
    /// The block environment is invalid.
    Header,
    /// The state store failed while the interpreter read it.
    Database,
}

/// Why a transaction was not executed.
#[derive(Clone, Copy, Debug, PartialEq, Eq, Structural)]
pub enum TransactionError {
    /// The rules ask for a random-beacon value and the block has none.
    MissingPrevrandao,
    /// The interpreter failed.
    Evm(EvmError),
}

/// One run of the interpreter: the configuration, the transaction, the
/// block that it runs in, and the fresh trace collector to attach to it.
#[derive(Debug)]
pub struct ExecutionRequest {
    pub cfg: CfgEnv,
    pub transaction: TxEnv,
    pub block: BlockEnv,
    pub tracer: TraceCollector,
}

/// A request to run `transaction` in `block` under `cfg`, with an empty
/// trace collector.
pub open spec fn is_request(req: ExecutionRequest, cfg: CfgEnv, transaction: TxEnv, block: BlockEnv) -> bool {
    &&& req.cfg == cfg
    &&& req.transaction == transaction
    &&& req.block == block
    &&& req.tracer@ == Seq::<TraceEvent>::empty()
}

/// What one run of the interpreter gave: its result, the account writes it
/// made, and its trace.
#[derive(Debug)]
pub struct ExecutionOutcome {
    pub result: ExecutionResult,
    pub changes: Changeset,
    pub trace: Trace,
}

/// Whether the rules and the block let a transaction run: after the merge a
/// block must carry a random-beacon value.
pub open spec fn block_admitted(cfg: CfgEnv, block: BlockEnv) -> bool {
    !(post_merge(cfg.spec_id) && block.prevrandao is None)
}

/// The configuration of an exploratory run: no balance check.
pub open spec fn guaranteed_cfg(cfg: CfgEnv) -> CfgEnv {
    CfgEnv { disable_balance_check: true, ..cfg }
}

/// What a dry run returns for what the interpreter gave.
pub open spec fn dry_run_report(outcome: Result<ExecutionOutcome, EvmError>) -> Result<
    (ExecutionResult, Changeset, Trace),
    TransactionError,
> {
    match outcome {
        Ok(o) => Ok((o.result, o.changes, o.trace)),
        Err(e) => Err(TransactionError::Evm(e)),
    }
}

/// What a committing run returns for what the interpreter gave.
pub open spec fn run_report(outcome: Result<ExecutionOutcome, EvmError>) -> Result<
    (ExecutionResult, Trace),
    TransactionError,
> {
    match outcome {
        Ok(o) => Ok((o.result, o.trace)),
        Err(e) => Err(TransactionError::Evm(e)),
    }
}

/// The store after a committing run: the changeset applied, where there is one.
pub open spec fn store_after_run(store: StoreModel, outcome: Result<ExecutionOutcome, EvmError>) -> StoreModel {
    match outcome {
        Ok(o) => store.applied(o.changes@),
        Err(_) => store,
    }
}

/// Runs transactions against a state store.
#[derive(Debug)]
pub struct Rethnet {
    state: StateStore,
    cfg: CfgEnv,
}

impl Rethnet {
    pub closed spec fn store(&self) -> StateStore {
        self.state
    }

    pub closed spec fn config(&self) -> CfgEnv {
        self.cfg
    }

    pub open spec fn wf(&self) -> bool {
        self.store().wf()
    }

    /// An executor over a store, with the interpreter's configuration.
    pub fn new(state: StateStore, cfg: CfgEnv) -> (r: Rethnet)
        ensures
            r.store() == state,
            r.config() == cfg,
    {
        Rethnet { state, cfg }
    }

    /// The store.
    pub fn state(&self) -> (r: &StateStore)
        ensures
            *r == self.store(),
    {
        &self.state
    }

    /// The interpreter's configuration.
    pub fn cfg(&self) -> (r: CfgEnv)
        ensures
            r == self.config(),
    {
        self.cfg
    }

    /// Gives up the executor for its store.
    pub fn into_state(self) -> (r: StateStore)
        ensures
            r == self.store(),
    {
        self.state
    }

    fn request(cfg: CfgEnv, transaction: TxEnv, block: BlockEnv) -> (r: Result<
        ExecutionRequest,
        TransactionError,
    >)
        ensures
            !block_admitted(cfg, block) ==> r == Err::<ExecutionRequest, TransactionError>(
                TransactionError::MissingPrevrandao,
            ),
            block_admitted(cfg, block) ==> (r matches Ok(req) && is_request(req, cfg, transaction, block)),
    {
        if cfg.spec_id.is_post_merge() && block.prevrandao.is_none() {
            return Err(TransactionError::MissingPrevrandao);
        }
        Ok(ExecutionRequest { cfg, transaction, block, tracer: TraceCollector::new() })
    }

    /// Plans a run that leaves the store as it is.
    pub fn dry_run(&self, transaction: TxEnv, block: BlockEnv) -> (r: Result<
        ExecutionRequest,
        TransactionError,
    >)
        ensures
            !block_admitted(self.config(), block) ==> r == Err::<ExecutionRequest, TransactionError>(
                TransactionError::MissingPrevrandao,
            ),
            block_admitted(self.config(), block) ==> (r matches Ok(req) && is_request(req, self.config(), transaction, block)),
    {
        Rethnet::request(self.cfg, transaction, block)
    }

    /// Plans a run that leaves the store as it is, with no balance check and
    /// the accounts that the transaction names taken as existing.
    pub fn guaranteed_dry_run(&self, transaction: TxEnv, block: BlockEnv) -> (r: Result<
        ExecutionRequest,
        TransactionError,
    >)
        ensures
            !block_admitted(self.config(), block) ==> r == Err::<ExecutionRequest, TransactionError>(
                TransactionError::MissingPrevrandao,
            ),
            block_admitted(self.config(), block) ==> (r matches Ok(req) && is_request(req, guaranteed_cfg(self.config()), transaction, block)),
    {
        let cfg = CfgEnv { disable_balance_check: true, ..self.cfg };
        Rethnet::request(cfg, transaction, block)
    }

    /// Plans a run whose changeset goes into the store.
    pub fn run(&self, transaction: TxEnv, block: BlockEnv) -> (r: Result<
        ExecutionRequest,
        TransactionError,
    >)
        ensures
            !block_admitted(self.config(), block) ==> r == Err::<ExecutionRequest, TransactionError>(
                TransactionError::MissingPrevrandao,
            ),
            block_admitted(self.config(), block) ==> (r matches Ok(req) && is_request(req, self.config(), transaction, block)),
    {
        Rethnet::request(self.cfg, transaction, block)
    }

    /// Ends a dry run with what the interpreter gave; the store is not touched.
    pub fn finish_dry_run(&self, outcome: Result<ExecutionOutcome, EvmError>) -> (r: Result<
        (ExecutionResult, Changeset, Trace),
        TransactionError,
    >)
        ensures
            r == dry_run_report(outcome),
    {
        match outcome {
            Ok(o) => Ok((o.result, o.changes, o.trace)),
            Err(e) => Err(TransactionError::Evm(e)),
        }
    }

    /// Ends a committing run with what the interpreter gave: its changeset
    /// goes into the store, and the result and trace are returned.
    pub fn finish_run(&mut self, outcome: Result<ExecutionOutcome, EvmError>) -> (r: Result<
        (ExecutionResult, Trace),
        TransactionError,
    >)
        requires
            old(self).wf(),
        ensures
            final(self).wf(),
            final(self).config() == old(self).config(),
            final(self).store()@ == store_after_run(old(self).store()@, outcome),
            r == run_report(outcome),
    {
        match outcome {
            Ok(o) => {
                self.state.apply(&o.changes);
                Ok((o.result, o.trace))
            },
            Err(e) => Err(TransactionError::Evm(e)),
        }
    }
}

/// A committing run and a dry run of the same request return the same result
/// and trace, or the same error; only the committing run changes the store,
/// by the changeset that the dry run returns.
pub proof fn lemma_run_matches_dry_run(store: StoreModel, outcome: Result<ExecutionOutcome, EvmError>)
    ensures
        match (run_report(outcome), dry_run_report(outcome)) {
            (Ok((result, trace)), Ok((dry_result, changes, dry_trace))) => {
                &&& result == dry_result
                &&& trace == dry_trace
                &&& store_after_run(store, outcome) == store.applied(changes@)
            },
            (Err(e), Err(dry_e)) => e == dry_e && store_after_run(store, outcome) == store,
            _ => false,
        },
{
}

} // verus!
