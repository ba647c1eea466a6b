//! Sandboxed execution host for untrusted compiled guest modules.
//!
//! One call hands the host a [`data::VmCallData`] and receives a
//! [`data::VmResult`]: the guest's captured output streams, an exit code with
//! a human-readable message, and the result bytes the guest deposited, if
//! any. The host enforces a fixed wall-clock deadline on every call and maps
//! every failure — setup, trap, timeout — to a typed status, so that a
//! malformed or hostile guest can neither hang nor crash the caller.

pub mod assemble;
pub mod data;
pub mod laws;
pub mod runtime;
pub mod slot;
pub mod streams;
pub mod supervisor;
