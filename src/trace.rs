//! Execution traces and the collector that records them.

use vstd::prelude::*;

use crate::primitives::{Address, B256, U256};

verus! {

/// The interpreter's state as the hooks see it at one instruction.
#[derive(Clone, Copy, Debug, PartialEq, Eq, Structural)]
pub struct Interpreter {
    pub pc: u64,
    pub opcode: u8,
    pub gas_remaining: u64,
    pub stack_top: Option<B256>,
}

/// The execution context as the hooks see it.
#[derive(Clone, Copy, Debug, PartialEq, Eq, Structural)]
pub struct EvmContext {
    /// Depth of the current call frame.
    pub depth: u64,
    /// Address of the contract whose code runs.
    pub address: Address,
}

/// The inputs of a message call.
#[derive(Clone, Copy, Debug, PartialEq, Eq, Structural)]
pub struct CallInputs {
    pub caller: Address,
    pub target: Address,
    pub value: U256,
    pub gas_limit: u64,
    pub is_static: bool,
}

/// The inputs of a contract creation.
#[derive(Clone, Copy, Debug, PartialEq, Eq, Structural)]
pub struct CreateInputs {
    pub caller: Address,
    pub value: U256,
    pub gas_limit: u64,
}

/// How a frame of the interpreter ended.
#[derive(Clone, Copy, Debug, PartialEq, Eq, Structural)]
pub enum InstructionResult {
    Continue,
    Stop,
    Return,
    SelfDestruct,
    Revert,
    OutOfGas,
    Halt,
}

/// What a call or creation frame returned.
#[derive(Clone, Copy, Debug, PartialEq, Eq, Structural)]
pub struct InterpreterResult {
    pub result: InstructionResult,
    pub gas_used: u64,
    pub output_len: u64,
}

/// A result that replaces a message call, with the memory range that receives
/// its output.
#[derive(Clone, Copy, Debug, PartialEq, Eq, Structural)]
pub struct CallOverride {
    pub result: InterpreterResult,
    pub memory_start: u64,
    pub memory_end: u64,
}

/// A result that replaces a contract creation, with the created address.
#[derive(Clone, Copy, Debug, PartialEq, Eq, Structural)]
pub struct CreateOverride {
    pub result: InterpreterResult,
    pub address: Option<Address>,
}

/// One event of an execution.
#[derive(Clone, Copy, Debug, PartialEq, Eq, Structural)]
pub enum TraceEvent {
    Initialize { depth: u64, gas_remaining: u64 },
    Step { depth: u64, pc: u64, opcode: u8, gas_remaining: u64, stack_top: Option<B256> },
    StepEnd { depth: u64, pc: u64, gas_remaining: u64 },
    Log { depth: u64, address: Address, topics: u64, data_len: u64 },
    Call { depth: u64, inputs: CallInputs },
    CallEnd { depth: u64, result: InterpreterResult },
    Create { depth: u64, inputs: CreateInputs },
    CreateEnd { depth: u64, result: InterpreterResult, address: Option<Address> },
    SelfDestruct { contract: Address, target: Address, value: U256 },
}

/// The events of one execution, in the order in which they happened.
#[derive(Clone, Debug)]
pub struct Trace {
    pub events: Vec<TraceEvent>,
}

impl View for Trace {
    type V = Seq<TraceEvent>;

    open spec fn view(&self) -> Seq<TraceEvent> {
        self.events@
    }
}

impl Trace {
    /// An empty trace.
    pub fn new() -> (r: Trace)
        ensures
            r@ == Seq::<TraceEvent>::empty(),
    {
        Trace { events: Vec::new() }
    }

    /// Number of events.
    pub fn len(&self) -> (r: usize)
        ensures
            r == self@.len(),
    {
        self.events.len()
    }
}

/// Records every callback of an execution as a [`TraceEvent`]. Its hooks
/// read the interpreter and the context but never change them.
#[derive(Debug)]
pub struct TraceCollector {
    trace: Trace,
}

impl View for TraceCollector {
    type V = Seq<TraceEvent>;

    closed spec fn view(&self) -> Seq<TraceEvent> {
        self.trace@
    }
}

/// The event that records the start of a frame.
pub open spec fn initialize_event(interp: Interpreter, ctx: EvmContext) -> TraceEvent {
    TraceEvent::Initialize { depth: ctx.depth, gas_remaining: interp.gas_remaining }
}

/// The event that records an instruction about to run.
pub open spec fn step_event(interp: Interpreter, ctx: EvmContext) -> TraceEvent {
    TraceEvent::Step {
        depth: ctx.depth,
        pc: interp.pc,
        opcode: interp.opcode,
        gas_remaining: interp.gas_remaining,
        stack_top: interp.stack_top,
    }
}

/// The event that records an instruction that has run.
pub open spec fn step_end_event(interp: Interpreter, ctx: EvmContext) -> TraceEvent {
    TraceEvent::StepEnd { depth: ctx.depth, pc: interp.pc, gas_remaining: interp.gas_remaining }
}

impl TraceCollector {
    /// A collector with an empty trace.
    pub fn new() -> (r: TraceCollector)
        ensures
            r@ == Seq::<TraceEvent>::empty(),
    {
        TraceCollector { trace: Trace::new() }
    }

    /// The trace recorded so far.
    pub fn trace(&self) -> (r: &Trace)
        ensures
            r@ == self@,
    {
        &self.trace
    }

    /// Gives up the collector for its trace.
    pub fn into_trace(self) -> (r: Trace)
        ensures
            r@ == self@,
    {
        self.trace
    }

    fn record(&mut self, event: TraceEvent)
        ensures
            final(self)@ == old(self)@.push(event),
    {
        self.trace.events.push(event);
    }

    pub fn initialize_interp(&mut self, interp: &Interpreter, ctx: &EvmContext)
        ensures
            final(self)@ == old(self)@.push(initialize_event(*interp, *ctx)),
    {
        self.record(TraceEvent::Initialize { depth: ctx.depth, gas_remaining: interp.gas_remaining });
    }

    pub fn step(&mut self, interp: &Interpreter, ctx: &EvmContext)
        ensures
            final(self)@ == old(self)@.push(step_event(*interp, *ctx)),
    {
        self.record(
            TraceEvent::Step {
                depth: ctx.depth,
                pc: interp.pc,
                opcode: interp.opcode,
                gas_remaining: interp.gas_remaining,
                stack_top: interp.stack_top,
            },
        );
    }

    pub fn step_end(&mut self, interp: &Interpreter, ctx: &EvmContext)
        ensures
            final(self)@ == old(self)@.push(step_end_event(*interp, *ctx)),
    {
        self.record(
            TraceEvent::StepEnd { depth: ctx.depth, pc: interp.pc, gas_remaining: interp.gas_remaining },
        );
    }

    pub fn log(&mut self, ctx: &EvmContext, address: &Address, topics: &[B256], data: &[u8])
        ensures
            final(self)@ == old(self)@.push(
                TraceEvent::Log {
                    depth: ctx.depth,
                    address: *address,
                    topics: topics@.len() as u64,
                    data_len: data@.len() as u64,
                },
            ),
    {
        self.record(
            TraceEvent::Log {
                depth: ctx.depth,
                address: *address,
                topics: topics.len() as u64,
                data_len: data.len() as u64,
            },
        );
    }

    pub fn call(&mut self, ctx: &EvmContext, inputs: &CallInputs)
        ensures
            final(self)@ == old(self)@.push(TraceEvent::Call { depth: ctx.depth, inputs: *inputs }),
    {
        self.record(TraceEvent::Call { depth: ctx.depth, inputs: *inputs });
    }

    pub fn call_end(&mut self, ctx: &EvmContext, result: InterpreterResult)
        ensures
            final(self)@ == old(self)@.push(TraceEvent::CallEnd { depth: ctx.depth, result }),
    {
        self.record(TraceEvent::CallEnd { depth: ctx.depth, result });
    }

    pub fn create(&mut self, ctx: &EvmContext, inputs: &CreateInputs)
        ensures
            final(self)@ == old(self)@.push(TraceEvent::Create { depth: ctx.depth, inputs: *inputs }),
    {
        self.record(TraceEvent::Create { depth: ctx.depth, inputs: *inputs });
    }

    pub fn create_end(&mut self, ctx: &EvmContext, result: InterpreterResult, address: Option<Address>)
        ensures
            final(self)@ == old(self)@.push(
                TraceEvent::CreateEnd { depth: ctx.depth, result, address },
            ),
    {
        self.record(TraceEvent::CreateEnd { depth: ctx.depth, result, address });
    }

    pub fn selfdestruct(&mut self, contract: Address, target: Address, value: U256)
        ensures
            final(self)@ == old(self)@.push(TraceEvent::SelfDestruct { contract, target, value }),
    {
        self.record(TraceEvent::SelfDestruct { contract, target, value });
    }
}

} // verus!
