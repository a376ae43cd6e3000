//! The inspector compositor: one hook object in front of a trace collector,
//! an outside observer, both, or neither.

use vstd::prelude::*;

use crate::primitives::{Address, B256, U256};
use crate::trace::{
    initialize_event, step_end_event, step_event, CallInputs, CallOverride, CreateInputs,
    CreateOverride, EvmContext, Interpreter, InterpreterResult, Trace, TraceCollector, TraceEvent,
};

verus! {

/// Receives every callback of the interpreter.
///
/// Each hook relates the observer, and what the hook may change, before and
/// after the call through a `*_post` spec function of the observer. The
/// decision hooks (`call`, `call_end`, `create`, `create_end`) may also change
/// how the execution goes on; what they decide is given by the matching
/// `*_decision` spec function of the observer's state and the hook's
/// arguments.
pub trait Observer: Sized {
    spec fn initialize_post(
        &self,
        interp: Interpreter,
        ctx: EvmContext,
        after: Self,
        interp_after: Interpreter,
        ctx_after: EvmContext,
    ) -> bool;

    spec fn step_post(
        &self,
        interp: Interpreter,
        ctx: EvmContext,
        after: Self,
        interp_after: Interpreter,
        ctx_after: EvmContext,
    ) -> bool;

    spec fn step_end_post(
        &self,
        interp: Interpreter,
        ctx: EvmContext,
        after: Self,
        interp_after: Interpreter,
        ctx_after: EvmContext,
    ) -> bool;

    spec fn log_post(
        &self,
        ctx: EvmContext,
        address: Address,
        topics: Seq<B256>,
        data: Seq<u8>,
        after: Self,
        ctx_after: EvmContext,
    ) -> bool;

    spec fn call_post(
        &self,
        ctx: EvmContext,
        inputs: CallInputs,
        after: Self,
        ctx_after: EvmContext,
        inputs_after: CallInputs,
    ) -> bool;

    spec fn call_end_post(
        &self,
        ctx: EvmContext,
        result: InterpreterResult,
        after: Self,
        ctx_after: EvmContext,
    ) -> bool;

    spec fn create_post(
        &self,
        ctx: EvmContext,
        inputs: CreateInputs,
        after: Self,
        ctx_after: EvmContext,
        inputs_after: CreateInputs,
    ) -> bool;

    spec fn create_end_post(
        &self,
        ctx: EvmContext,
        result: InterpreterResult,
        address: Option<Address>,
        after: Self,
        ctx_after: EvmContext,
    ) -> bool;

    spec fn selfdestruct_post(&self, contract: Address, target: Address, value: U256, after: Self) -> bool;

    spec fn call_decision(&self, ctx: EvmContext, inputs: CallInputs) -> Option<CallOverride>;

    spec fn call_end_decision(&self, ctx: EvmContext, result: InterpreterResult) -> InterpreterResult;

    spec fn create_decision(&self, ctx: EvmContext, inputs: CreateInputs) -> Option<CreateOverride>;

    spec fn create_end_decision(
        &self,
        ctx: EvmContext,
        result: InterpreterResult,
        address: Option<Address>,
    ) -> CreateOverride;

    fn initialize_interp(&mut self, interp: &mut Interpreter, ctx: &mut EvmContext)
        ensures
            old(self).initialize_post(*old(interp), *old(ctx), *final(self), *final(interp), *final(ctx)),
    ;

    fn step(&mut self, interp: &mut Interpreter, ctx: &mut EvmContext)
        ensures
            old(self).step_post(*old(interp), *old(ctx), *final(self), *final(interp), *final(ctx)),
    ;

    fn step_end(&mut self, interp: &mut Interpreter, ctx: &mut EvmContext)
        ensures
            old(self).step_end_post(*old(interp), *old(ctx), *final(self), *final(interp), *final(ctx)),
    ;

    fn log(&mut self, ctx: &mut EvmContext, address: &Address, topics: &[B256], data: &[u8])
        ensures
            old(self).log_post(*old(ctx), *address, topics@, data@, *final(self), *final(ctx)),
    ;

    fn call(&mut self, ctx: &mut EvmContext, inputs: &mut CallInputs) -> (r: Option<CallOverride>)
        ensures
            old(self).call_post(*old(ctx), *old(inputs), *final(self), *final(ctx), *final(inputs)),
            r == old(self).call_decision(*old(ctx), *old(inputs)),
    ;

    fn call_end(&mut self, ctx: &mut EvmContext, result: InterpreterResult) -> (r: InterpreterResult)
        ensures
            old(self).call_end_post(*old(ctx), result, *final(self), *final(ctx)),
            r == old(self).call_end_decision(*old(ctx), result),
    ;

    fn create(&mut self, ctx: &mut EvmContext, inputs: &mut CreateInputs) -> (r: Option<
        CreateOverride,
    >)
        ensures
            old(self).create_post(*old(ctx), *old(inputs), *final(self), *final(ctx), *final(inputs)),
            r == old(self).create_decision(*old(ctx), *old(inputs)),
    ;

    fn create_end(
        &mut self,
        ctx: &mut EvmContext,
        result: InterpreterResult,
        address: Option<Address>,
    ) -> (r: CreateOverride)
        ensures
            old(self).create_end_post(*old(ctx), result, address, *final(self), *final(ctx)),
            r == old(self).create_end_decision(*old(ctx), result, address),
    ;

    fn selfdestruct(&mut self, contract: Address, target: Address, value: U256)
        ensures
            old(self).selfdestruct_post(contract, target, value, *final(self)),
    ;
}

/// The event that records a log.
pub open spec fn log_event(ctx: EvmContext, address: Address, topics: Seq<B256>, data: Seq<u8>) -> TraceEvent {
    TraceEvent::Log { depth: ctx.depth, address, topics: topics.len() as u64, data_len: data.len() as u64 }
}

/// A collector on its own records one event per hook and changes nothing
/// else: it overrides no call or creation and hands every result back as it
/// came.
impl Observer for TraceCollector {
    open spec fn initialize_post(
        &self,
        interp: Interpreter,
        ctx: EvmContext,
        after: Self,
        interp_after: Interpreter,
        ctx_after: EvmContext,
    ) -> bool {
        after@ == self@.push(initialize_event(interp, ctx)) && interp_after == interp && ctx_after == ctx
    }

    open spec fn step_post(
        &self,
        interp: Interpreter,
        ctx: EvmContext,
        after: Self,
        interp_after: Interpreter,
        ctx_after: EvmContext,
    ) -> bool {
        after@ == self@.push(step_event(interp, ctx)) && interp_after == interp && ctx_after == ctx
    }

    open spec fn step_end_post(
        &self,
        interp: Interpreter,
        ctx: EvmContext,
        after: Self,
        interp_after: Interpreter,
        ctx_after: EvmContext,
    ) -> bool {
        after@ == self@.push(step_end_event(interp, ctx)) && interp_after == interp && ctx_after == ctx
    }

    open spec fn log_post(
        &self,
        ctx: EvmContext,
        address: Address,
        topics: Seq<B256>,
        data: Seq<u8>,
        after: Self,
        ctx_after: EvmContext,
    ) -> bool {
        after@ == self@.push(log_event(ctx, address, topics, data)) && ctx_after == ctx
    }

    open spec fn call_post(
        &self,
        ctx: EvmContext,
        inputs: CallInputs,
        after: Self,
        ctx_after: EvmContext,
        inputs_after: CallInputs,
    ) -> bool {
        after@ == self@.push(TraceEvent::Call { depth: ctx.depth, inputs }) && ctx_after == ctx
            && inputs_after == inputs
    }

    open spec fn call_end_post(
        &self,
        ctx: EvmContext,
        result: InterpreterResult,
        after: Self,
        ctx_after: EvmContext,
    ) -> bool {
        after@ == self@.push(TraceEvent::CallEnd { depth: ctx.depth, result }) && ctx_after == ctx
    }

    open spec fn create_post(
        &self,
        ctx: EvmContext,
        inputs: CreateInputs,
        after: Self,
        ctx_after: EvmContext,
        inputs_after: CreateInputs,
    ) -> bool {
        after@ == self@.push(TraceEvent::Create { depth: ctx.depth, inputs }) && ctx_after == ctx
            && inputs_after == inputs
    }

    open spec fn create_end_post(
        &self,
        ctx: EvmContext,
        result: InterpreterResult,
        address: Option<Address>,
        after: Self,
        ctx_after: EvmContext,
    ) -> bool {
        after@ == self@.push(TraceEvent::CreateEnd { depth: ctx.depth, result, address }) && ctx_after
            == ctx
    }

    open spec fn selfdestruct_post(&self, contract: Address, target: Address, value: U256, after: Self) -> bool {
        after@ == self@.push(TraceEvent::SelfDestruct { contract, target, value })
    }

    open spec fn call_decision(&self, ctx: EvmContext, inputs: CallInputs) -> Option<CallOverride> {
        None
    }

    open spec fn call_end_decision(&self, ctx: EvmContext, result: InterpreterResult) -> InterpreterResult {
        result
    }

    open spec fn create_decision(&self, ctx: EvmContext, inputs: CreateInputs) -> Option<CreateOverride> {
        None
    }

    open spec fn create_end_decision(
        &self,
        ctx: EvmContext,
        result: InterpreterResult,
        address: Option<Address>,
    ) -> CreateOverride {
        CreateOverride { result, address }
    }

    fn initialize_interp(&mut self, interp: &mut Interpreter, ctx: &mut EvmContext) {
        TraceCollector::initialize_interp(self, &*interp, &*ctx);
    }

    fn step(&mut self, interp: &mut Interpreter, ctx: &mut EvmContext) {
        TraceCollector::step(self, &*interp, &*ctx);
    }

    fn step_end(&mut self, interp: &mut Interpreter, ctx: &mut EvmContext) {
        TraceCollector::step_end(self, &*interp, &*ctx);
    }

    fn log(&mut self, ctx: &mut EvmContext, address: &Address, topics: &[B256], data: &[u8]) {
        TraceCollector::log(self, &*ctx, address, topics, data);
    }

    fn call(&mut self, ctx: &mut EvmContext, inputs: &mut CallInputs) -> (r: Option<CallOverride>) {
        TraceCollector::call(self, &*ctx, &*inputs);
        None
    }

    fn call_end(&mut self, ctx: &mut EvmContext, result: InterpreterResult) -> (r: InterpreterResult) {
        TraceCollector::call_end(self, &*ctx, result);
        result
    }

    fn create(&mut self, ctx: &mut EvmContext, inputs: &mut CreateInputs) -> (r: Option<
        CreateOverride,
    >) {
        TraceCollector::create(self, &*ctx, &*inputs);
        None
    }

    fn create_end(
        &mut self,
        ctx: &mut EvmContext,
        result: InterpreterResult,
        address: Option<Address>,
    ) -> (r: CreateOverride) {
        TraceCollector::create_end(self, &*ctx, result, address);
        CreateOverride { result, address }
    }

    fn selfdestruct(&mut self, contract: Address, target: Address, value: U256) {
        TraceCollector::selfdestruct(self, contract, target, value);
    }
}

/// A trace collector and an observer side by side. For every callback the
/// collector runs first, through read-only access, so it records the
/// interpreter, the context and the payload before the observer can change
/// them; the observer then runs once, on those same values, and what a hook
/// returns is the observer's decision.
pub struct DualInspector<O: Observer> {
    immutable: TraceCollector,
    mutable: O,
}

impl<O: Observer> DualInspector<O> {
    /// Events recorded by the collector.
    pub closed spec fn collected(&self) -> Seq<TraceEvent> {
        self.immutable@
    }

    /// The observer.
    pub closed spec fn observer(&self) -> O {
        self.mutable
    }

    /// Puts a collector and an observer side by side.
    pub fn new(immutable: TraceCollector, mutable: O) -> (r: Self)
        ensures
            r.collected() == immutable@,
            r.observer() == mutable,
    {
        DualInspector { immutable, mutable }
    }

    /// The collector and the observer.
    pub fn into_parts(self) -> (r: (TraceCollector, O))
        ensures
            r.0@ == self.collected(),
            r.1 == self.observer(),
    {
        (self.immutable, self.mutable)
    }

    /// Swaps the collector for an empty one and returns what it recorded.
    pub fn take_trace(&mut self) -> (r: Trace)
        ensures
            r@ == old(self).collected(),
            final(self).collected() == Seq::<TraceEvent>::empty(),
            final(self).observer() == old(self).observer(),
    {
        let mut collector = TraceCollector::new();
        std::mem::swap(&mut self.immutable, &mut collector);
        collector.into_trace()
    }
}

/// Each hook: the collector records the event of the values handed in, and
/// the observer's own relation holds between its state before and after, on
/// those same values.
impl<O: Observer> Observer for DualInspector<O> {
    open spec fn initialize_post(
        &self,
        interp: Interpreter,
        ctx: EvmContext,
        after: Self,
        interp_after: Interpreter,
        ctx_after: EvmContext,
    ) -> bool {
        &&& after.collected() == self.collected().push(initialize_event(interp, ctx))
        &&& self.observer().initialize_post(interp, ctx, after.observer(), interp_after, ctx_after)
    }

    open spec fn step_post(
        &self,
        interp: Interpreter,
        ctx: EvmContext,
        after: Self,
        interp_after: Interpreter,
        ctx_after: EvmContext,
    ) -> bool {
        &&& after.collected() == self.collected().push(step_event(interp, ctx))
        &&& self.observer().step_post(interp, ctx, after.observer(), interp_after, ctx_after)
    }

    open spec fn step_end_post(
        &self,
        interp: Interpreter,
        ctx: EvmContext,
        after: Self,
        interp_after: Interpreter,
        ctx_after: EvmContext,
    ) -> bool {
        &&& after.collected() == self.collected().push(step_end_event(interp, ctx))
        &&& self.observer().step_end_post(interp, ctx, after.observer(), interp_after, ctx_after)
    }

    open spec fn log_post(
        &self,
        ctx: EvmContext,
        address: Address,
        topics: Seq<B256>,
        data: Seq<u8>,
        after: Self,
        ctx_after: EvmContext,
    ) -> bool {
        &&& after.collected() == self.collected().push(log_event(ctx, address, topics, data))
        &&& self.observer().log_post(ctx, address, topics, data, after.observer(), ctx_after)
    }

    open spec fn call_post(
        &self,
        ctx: EvmContext,
        inputs: CallInputs,
        after: Self,
        ctx_after: EvmContext,
        inputs_after: CallInputs,
    ) -> bool {
        &&& after.collected() == self.collected().push(TraceEvent::Call { depth: ctx.depth, inputs })
        &&& self.observer().call_post(ctx, inputs, after.observer(), ctx_after, inputs_after)
    }

    open spec fn call_end_post(
        &self,
        ctx: EvmContext,
        result: InterpreterResult,
        after: Self,
        ctx_after: EvmContext,
    ) -> bool {
        &&& after.collected() == self.collected().push(TraceEvent::CallEnd { depth: ctx.depth, result })
        &&& self.observer().call_end_post(ctx, result, after.observer(), ctx_after)
    }

    open spec fn create_post(
        &self,
        ctx: EvmContext,
        inputs: CreateInputs,
        after: Self,
        ctx_after: EvmContext,
        inputs_after: CreateInputs,
    ) -> bool {
        &&& after.collected() == self.collected().push(TraceEvent::Create { depth: ctx.depth, inputs })
        &&& self.observer().create_post(ctx, inputs, after.observer(), ctx_after, inputs_after)
    }

    open spec fn create_end_post(
        &self,
        ctx: EvmContext,
        result: InterpreterResult,
        address: Option<Address>,
        after: Self,
        ctx_after: EvmContext,
    ) -> bool {
        &&& after.collected() == self.collected().push(
            TraceEvent::CreateEnd { depth: ctx.depth, result, address },
        )
        &&& self.observer().create_end_post(ctx, result, address, after.observer(), ctx_after)
    }

    open spec fn selfdestruct_post(&self, contract: Address, target: Address, value: U256, after: Self) -> bool {
        &&& after.collected() == self.collected().push(TraceEvent::SelfDestruct { contract, target, value })
        &&& self.observer().selfdestruct_post(contract, target, value, after.observer())
    }

    open spec fn call_decision(&self, ctx: EvmContext, inputs: CallInputs) -> Option<CallOverride> {
        self.observer().call_decision(ctx, inputs)
    }

    open spec fn call_end_decision(&self, ctx: EvmContext, result: InterpreterResult) -> InterpreterResult {
        self.observer().call_end_decision(ctx, result)
    }

    open spec fn create_decision(&self, ctx: EvmContext, inputs: CreateInputs) -> Option<CreateOverride> {
        self.observer().create_decision(ctx, inputs)
    }

    open spec fn create_end_decision(
        &self,
        ctx: EvmContext,
        result: InterpreterResult,
        address: Option<Address>,
    ) -> CreateOverride {
        self.observer().create_end_decision(ctx, result, address)
    }

    fn initialize_interp(&mut self, interp: &mut Interpreter, ctx: &mut EvmContext) {
        self.immutable.initialize_interp(&*interp, &*ctx);
        self.mutable.initialize_interp(interp, ctx);
    }

    fn step(&mut self, interp: &mut Interpreter, ctx: &mut EvmContext) {
        self.immutable.step(&*interp, &*ctx);
        self.mutable.step(interp, ctx);
    }

    fn step_end(&mut self, interp: &mut Interpreter, ctx: &mut EvmContext) {
        self.immutable.step_end(&*interp, &*ctx);
        self.mutable.step_end(interp, ctx);
    }

    fn log(&mut self, ctx: &mut EvmContext, address: &Address, topics: &[B256], data: &[u8]) {
        self.immutable.log(&*ctx, address, topics, data);
        self.mutable.log(ctx, address, topics, data);
    }

    fn call(&mut self, ctx: &mut EvmContext, inputs: &mut CallInputs) -> (r: Option<CallOverride>) {
        self.immutable.call(&*ctx, &*inputs);
        self.mutable.call(ctx, inputs)
    }

    fn call_end(&mut self, ctx: &mut EvmContext, result: InterpreterResult) -> (r: InterpreterResult) {
        self.immutable.call_end(&*ctx, result);
        self.mutable.call_end(ctx, result)
    }

    fn create(&mut self, ctx: &mut EvmContext, inputs: &mut CreateInputs) -> (r: Option<
        CreateOverride,
    >) {
        self.immutable.create(&*ctx, &*inputs);
        self.mutable.create(ctx, inputs)
    }

    fn create_end(
        &mut self,
        ctx: &mut EvmContext,
        result: InterpreterResult,
        address: Option<Address>,
    ) -> (r: CreateOverride) {
        self.immutable.create_end(&*ctx, result, address);
        self.mutable.create_end(ctx, result, address)
    }

    fn selfdestruct(&mut self, contract: Address, target: Address, value: U256) {
        self.immutable.selfdestruct(contract, target, value);
        self.mutable.selfdestruct(contract, target, value);
    }
}

/// The hooks attached to one execution: nothing, a trace collector, an
/// outside observer, or both side by side.
pub enum InspectorContainer<O: Observer> {
    /// No collector and no observer.
    Absent,
    /// A trace collector only.
    Collector(TraceCollector),
    /// A trace collector and an observer.
    Dual(DualInspector<O>),
    /// An observer only.
    Inspector(O),
}

/// A trace with one more event, where there is a trace.
pub open spec fn extend_trace(t: Option<Seq<TraceEvent>>, e: TraceEvent) -> Option<Seq<TraceEvent>> {
    match t {
        Some(events) => Some(events.push(e)),
        None => None,
    }
}

impl<O: Observer> InspectorContainer<O> {
    /// The events recorded so far, where a collector is present.
    pub open spec fn recorded(&self) -> Option<Seq<TraceEvent>> {
        match self {
            InspectorContainer::Collector(c) => Some(c@),
            InspectorContainer::Dual(d) => Some(d.collected()),
            _ => None,
        }
    }

    /// The observer, where one is present.
    pub open spec fn attached(&self) -> Option<O> {
        match self {
            InspectorContainer::Dual(d) => Some(d.observer()),
            InspectorContainer::Inspector(o) => Some(*o),
            _ => None,
        }
    }

    /// Both containers are the same variant.
    pub open spec fn same_kind(&self, other: &Self) -> bool {
        &&& (self is Absent <==> other is Absent)
        &&& (self is Collector <==> other is Collector)
        &&& (self is Dual <==> other is Dual)
        &&& (self is Inspector <==> other is Inspector)
    }

    /// Variant for a collector wanted or not, and an observer given or not.
    pub fn new(with_trace: bool, tracer: Option<O>) -> (r: Self)
        ensures
            r is Absent <==> (!with_trace && tracer is None),
            r is Collector <==> (with_trace && tracer is None),
            r is Dual <==> (with_trace && tracer is Some),
            r is Inspector <==> (!with_trace && tracer is Some),
            with_trace ==> r.recorded() == Some(Seq::<TraceEvent>::empty()),
            r.attached() == tracer,
    {
        if with_trace {
            match tracer {
                Some(tracer) => InspectorContainer::Dual(DualInspector::new(TraceCollector::new(), tracer)),
                None => InspectorContainer::Collector(TraceCollector::new()),
            }
        } else {
            match tracer {
                Some(tracer) => InspectorContainer::Inspector(tracer),
                None => InspectorContainer::Absent,
            }
        }
    }

    /// The container as one hook object, or `None` where nothing is attached.
    pub fn as_dyn_inspector(&mut self) -> (r: Option<&mut Self>)
        ensures
            r is None <==> *old(self) is Absent,
            r matches Some(h) ==> *h == *old(self) && *final(h) == *final(self),
            r is None ==> *final(self) == *old(self),
    {
        match self {
            InspectorContainer::Absent => None,
            _ => Some(self),
        }
    }

    /// The collector, where one is present.
    pub fn into_tracer(self) -> (r: Option<TraceCollector>)
        ensures
            r is Some <==> self.recorded() is Some,
            r matches Some(c) ==> self.recorded() == Some(c@),
    {
        match self {
            InspectorContainer::Absent | InspectorContainer::Inspector(_) => None,
            InspectorContainer::Collector(c) => Some(c),
            InspectorContainer::Dual(d) => Some(d.into_parts().0),
        }
    }

    /// Swaps the collector, where one is present, for an empty one and
    /// returns the trace it had recorded.
    pub fn clear_trace(&mut self) -> (r: Option<Trace>)
        ensures
            final(self).same_kind(old(self)),
            final(self).attached() == old(self).attached(),
            r is Some <==> old(self).recorded() is Some,
            r matches Some(t) ==> old(self).recorded() == Some(t@) && final(self).recorded() == Some(
                Seq::<TraceEvent>::empty(),
            ),
            r is None ==> *final(self) == *old(self),
    {
        match self {
            InspectorContainer::Absent | InspectorContainer::Inspector(_) => None,
            InspectorContainer::Collector(collector) => {
                let mut fresh = TraceCollector::new();
                std::mem::swap(collector, &mut fresh);
                Some(fresh.into_trace())
            },
            InspectorContainer::Dual(dual) => Some(dual.take_trace()),
        }
    }
}

/// The container as one hook object. It keeps its variant; a present
/// collector records one event per hook; a present observer is called once
/// per hook and meets its own relation; with no observer the interpreter, the
/// context and the payload stay as they were. The decisions are the
/// observer's where one is attached, and the collector's pass-through
/// otherwise.
impl<O: Observer> Observer for InspectorContainer<O> {
    open spec fn initialize_post(
        &self,
        interp: Interpreter,
        ctx: EvmContext,
        after: Self,
        interp_after: Interpreter,
        ctx_after: EvmContext,
    ) -> bool {
        &&& after.same_kind(self)
        &&& after.recorded() == extend_trace(self.recorded(), initialize_event(interp, ctx))
        &&& match self.attached() {
            Some(o) => after.attached() matches Some(o2) && o.initialize_post(interp, ctx, o2, interp_after, ctx_after),
            None => interp_after == interp && ctx_after == ctx,
        }
    }

    open spec fn step_post(
        &self,
        interp: Interpreter,
        ctx: EvmContext,
        after: Self,
        interp_after: Interpreter,
        ctx_after: EvmContext,
    ) -> bool {
        &&& after.same_kind(self)
        &&& after.recorded() == extend_trace(self.recorded(), step_event(interp, ctx))
        &&& match self.attached() {
            Some(o) => after.attached() matches Some(o2) && o.step_post(interp, ctx, o2, interp_after, ctx_after),
            None => interp_after == interp && ctx_after == ctx,
        }
    }

    open spec fn step_end_post(
        &self,
        interp: Interpreter,
        ctx: EvmContext,
        after: Self,
        interp_after: Interpreter,
        ctx_after: EvmContext,
    ) -> bool {
        &&& after.same_kind(self)
        &&& after.recorded() == extend_trace(self.recorded(), step_end_event(interp, ctx))
        &&& match self.attached() {
            Some(o) => after.attached() matches Some(o2) && o.step_end_post(interp, ctx, o2, interp_after, ctx_after),
            None => interp_after == interp && ctx_after == ctx,
        }
    }

    open spec fn log_post(
        &self,
        ctx: EvmContext,
        address: Address,
        topics: Seq<B256>,
        data: Seq<u8>,
        after: Self,
        ctx_after: EvmContext,
    ) -> bool {
        &&& after.same_kind(self)
        &&& after.recorded() == extend_trace(self.recorded(), log_event(ctx, address, topics, data))
        &&& match self.attached() {
            Some(o) => after.attached() matches Some(o2) && o.log_post(ctx, address, topics, data, o2, ctx_after),
            None => ctx_after == ctx,
        }
    }

    open spec fn call_post(
        &self,
        ctx: EvmContext,
        inputs: CallInputs,
        after: Self,
        ctx_after: EvmContext,
        inputs_after: CallInputs,
    ) -> bool {
        &&& after.same_kind(self)
        &&& after.recorded() == extend_trace(self.recorded(), TraceEvent::Call { depth: ctx.depth, inputs })
        &&& match self.attached() {
            Some(o) => after.attached() matches Some(o2) && o.call_post(ctx, inputs, o2, ctx_after, inputs_after),
            None => ctx_after == ctx && inputs_after == inputs,
        }
    }

    open spec fn call_end_post(
        &self,
        ctx: EvmContext,
        result: InterpreterResult,
        after: Self,
        ctx_after: EvmContext,
    ) -> bool {
        &&& after.same_kind(self)
        &&& after.recorded() == extend_trace(self.recorded(), TraceEvent::CallEnd { depth: ctx.depth, result })
        &&& match self.attached() {
            Some(o) => after.attached() matches Some(o2) && o.call_end_post(ctx, result, o2, ctx_after),
            None => ctx_after == ctx,
        }
    }

    open spec fn create_post(
        &self,
        ctx: EvmContext,
        inputs: CreateInputs,
        after: Self,
        ctx_after: EvmContext,
        inputs_after: CreateInputs,
    ) -> bool {
        &&& after.same_kind(self)
        &&& after.recorded() == extend_trace(self.recorded(), TraceEvent::Create { depth: ctx.depth, inputs })
        &&& match self.attached() {
            Some(o) => after.attached() matches Some(o2) && o.create_post(ctx, inputs, o2, ctx_after, inputs_after),
            None => ctx_after == ctx && inputs_after == inputs,
        }
    }

    open spec fn create_end_post(
        &self,
        ctx: EvmContext,
        result: InterpreterResult,
        address: Option<Address>,
        after: Self,
        ctx_after: EvmContext,
    ) -> bool {
        &&& after.same_kind(self)
        &&& after.recorded() == extend_trace(self.recorded(), TraceEvent::CreateEnd { depth: ctx.depth, result, address })
        &&& match self.attached() {
            Some(o) => after.attached() matches Some(o2) && o.create_end_post(ctx, result, address, o2, ctx_after),
            None => ctx_after == ctx,
        }
    }

    open spec fn selfdestruct_post(
        &self,
        contract: Address,
        target: Address,
        value: U256,
        after: Self,
    ) -> bool {
        &&& after.same_kind(self)
        &&& after.recorded() == extend_trace(self.recorded(), TraceEvent::SelfDestruct { contract, target, value })
        &&& match self.attached() {
            Some(o) => after.attached() matches Some(o2) && o.selfdestruct_post(contract, target, value, o2),
            None => true,
        }
    }

    open spec fn call_decision(&self, ctx: EvmContext, inputs: CallInputs) -> Option<CallOverride> {
        match self.attached() {
            Some(o) => o.call_decision(ctx, inputs),
            None => None,
        }
    }

    open spec fn call_end_decision(&self, ctx: EvmContext, result: InterpreterResult) -> InterpreterResult {
        match self.attached() {
            Some(o) => o.call_end_decision(ctx, result),
            None => result,
        }
    }

    open spec fn create_decision(&self, ctx: EvmContext, inputs: CreateInputs) -> Option<CreateOverride> {
        match self.attached() {
            Some(o) => o.create_decision(ctx, inputs),
            None => None,
        }
    }

    open spec fn create_end_decision(
        &self,
        ctx: EvmContext,
        result: InterpreterResult,
        address: Option<Address>,
    ) -> CreateOverride {
        match self.attached() {
            Some(o) => o.create_end_decision(ctx, result, address),
            None => CreateOverride { result, address },
        }
    }

    fn initialize_interp(&mut self, interp: &mut Interpreter, ctx: &mut EvmContext) {
        match self {
            InspectorContainer::Absent => {},
            InspectorContainer::Collector(c) => c.initialize_interp(&*interp, &*ctx),
            InspectorContainer::Dual(d) => d.initialize_interp(interp, ctx),
            InspectorContainer::Inspector(o) => o.initialize_interp(interp, ctx),
        }
    }

    fn step(&mut self, interp: &mut Interpreter, ctx: &mut EvmContext) {
        match self {
            InspectorContainer::Absent => {},
            InspectorContainer::Collector(c) => c.step(&*interp, &*ctx),
            InspectorContainer::Dual(d) => d.step(interp, ctx),
            InspectorContainer::Inspector(o) => o.step(interp, ctx),
        }
    }

    fn step_end(&mut self, interp: &mut Interpreter, ctx: &mut EvmContext) {
        match self {
            InspectorContainer::Absent => {},
            InspectorContainer::Collector(c) => c.step_end(&*interp, &*ctx),
            InspectorContainer::Dual(d) => d.step_end(interp, ctx),
            InspectorContainer::Inspector(o) => o.step_end(interp, ctx),
        }
    }

    fn log(&mut self, ctx: &mut EvmContext, address: &Address, topics: &[B256], data: &[u8]) {
        match self {
            InspectorContainer::Absent => {},
            InspectorContainer::Collector(c) => c.log(&*ctx, address, topics, data),
            InspectorContainer::Dual(d) => d.log(ctx, address, topics, data),
            InspectorContainer::Inspector(o) => o.log(ctx, address, topics, data),
        }
    }

    fn call(&mut self, ctx: &mut EvmContext, inputs: &mut CallInputs) -> (r: Option<CallOverride>) {
        match self {
            InspectorContainer::Absent => None,
            InspectorContainer::Collector(c) => {
                c.call(&*ctx, &*inputs);
                None
            },
            InspectorContainer::Dual(d) => d.call(ctx, inputs),
            InspectorContainer::Inspector(o) => o.call(ctx, inputs),
        }
    }

    fn call_end(&mut self, ctx: &mut EvmContext, result: InterpreterResult) -> (r: InterpreterResult) {
        match self {
            InspectorContainer::Absent => result,
            InspectorContainer::Collector(c) => {
                c.call_end(&*ctx, result);
                result
            },
            InspectorContainer::Dual(d) => d.call_end(ctx, result),
            InspectorContainer::Inspector(o) => o.call_end(ctx, result),
        }
    }

    fn create(&mut self, ctx: &mut EvmContext, inputs: &mut CreateInputs) -> (r: Option<
        CreateOverride,
    >) {
        match self {
            InspectorContainer::Absent => None,
            InspectorContainer::Collector(c) => {
                c.create(&*ctx, &*inputs);
                None
            },
            InspectorContainer::Dual(d) => d.create(ctx, inputs),
            InspectorContainer::Inspector(o) => o.create(ctx, inputs),
        }
    }

    fn create_end(
        &mut self,
        ctx: &mut EvmContext,
        result: InterpreterResult,
        address: Option<Address>,
    ) -> (r: CreateOverride) {
        match self {
            InspectorContainer::Absent => CreateOverride { result, address },
            InspectorContainer::Collector(c) => {
                c.create_end(&*ctx, result, address);
                CreateOverride { result, address }
            },
            InspectorContainer::Dual(d) => d.create_end(ctx, result, address),
            InspectorContainer::Inspector(o) => o.create_end(ctx, result, address),
        }
    }

    fn selfdestruct(&mut self, contract: Address, target: Address, value: U256) {
        match self {
            InspectorContainer::Absent => {},
            InspectorContainer::Collector(c) => c.selfdestruct(contract, target, value),
            InspectorContainer::Dual(d) => d.selfdestruct(contract, target, value),
            InspectorContainer::Inspector(o) => o.selfdestruct(contract, target, value),
        }
    }
}

/// With a collector and an observer side by side, every decision is the
/// observer's, whatever the collector would have decided on its own.
pub proof fn lemma_dual_observer_decides<O: Observer>(
    c: InspectorContainer<O>,
    ctx: EvmContext,
    call: CallInputs,
    create: CreateInputs,
    result: InterpreterResult,
    address: Option<Address>,
)
    requires
        c is Dual,
    ensures
        c.attached() matches Some(o) && {
            &&& c.call_decision(ctx, call) == o.call_decision(ctx, call)
            &&& c.call_end_decision(ctx, result) == o.call_end_decision(ctx, result)
            &&& c.create_decision(ctx, create) == o.create_decision(ctx, create)
            &&& c.create_end_decision(ctx, result, address) == o.create_end_decision(ctx, result, address)
        },
{
}

} // verus!
