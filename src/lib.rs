//! Transaction-execution core of an EVM runtime: an inspector compositor,
//! a transaction executor, a block builder and the state store they drive.

pub mod builder;
pub mod inspector;
pub mod legacy;
pub mod primitives;
pub mod reorg;
pub mod runtime;
pub mod state;
pub mod trace;
