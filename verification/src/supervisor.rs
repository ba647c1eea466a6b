//! The supervisor's decisions: mapping what happened inside one execution
//! unit to a typed outcome, and reconciling the bounded wait for the unit's
//! completion signal.
//!
//! The host runs each call on a dedicated execution unit and waits for a
//! one-shot completion signal, for at most the fixed deadline. Everything the
//! unit and the supervisor observe is an event value here; every decision
//! taken on those events is a verified function of them.

use vstd::prelude::*;
use crate::data::VmResultStatus;

verus! {

/// The fixed wall-clock deadline of every call, in nanoseconds (about 100
/// seconds). It is compiled in, identical for every call, and independent of
/// guest behavior.
pub const EXECUTION_DEADLINE_NANOS: u64 = 100_000_000_000;

/// How the guest's entry function came back: a normal return, or a trap,
/// which may carry a process-exit code.
pub enum InvocationResult {
    Returned,
    Trapped { exit_code: Option<i32> },
}

/// The exit code a finished invocation reports: 0 for a normal return, the
/// carried code for a trap with process-exit semantics, and 0 for any other
/// trap, whose cause surfaces through the recorded result bytes instead.
pub open spec fn spec_exit_code(invocation: InvocationResult) -> i32 {
    match invocation {
        InvocationResult::Returned => 0,
        InvocationResult::Trapped { exit_code } => match exit_code {
            Some(code) => code,
            None => 0,
        },
    }
}

/// Derives the numeric exit code of a finished invocation.
pub fn derive_exit_code(invocation: &InvocationResult) -> (code: i32)
    ensures
        code == spec_exit_code(*invocation),
{
    match invocation {
        InvocationResult::Returned => 0,
        InvocationResult::Trapped { exit_code } => match exit_code {
            Some(code) => *code,
            None => 0,
        },
    }
}

/// What happened inside one execution unit, as a single event: either one of
/// the setup steps failed — in the order the unit performs them — or the
/// entry function was invoked and the unit ran to its end.
pub enum UnitEvent {
    /// Building or initializing the sandbox environment failed.
    EnvironmentInitFailed,
    /// Assembling the combined host import table failed.
    ImportTableFailed,
    /// Instantiating the module failed; carries the diagnostic text.
    InstantiationFailed(String),
    /// The instance exports no linear memory, so the guest cannot run.
    MemoryExportMissing,
    /// The module exports no function under the requested entry-point name;
    /// carries that name.
    EntryFunctionMissing(String),
    /// The entry function was invoked; the unit then read the shared result
    /// buffer exactly once.
    Invoked { invocation: InvocationResult, result_buffer: Vec<u8> },
}

/// The outcome an execution unit returns for each event: a typed failure for
/// each failed setup step, and otherwise the recorded result bytes paired
/// with the invocation's exit code.
pub open spec fn spec_unit_outcome(event: UnitEvent) -> Result<(Vec<u8>, i32), VmResultStatus> {
    match event {
        UnitEvent::EnvironmentInitFailed => Err(VmResultStatus::EnvironmentInitFailure),
        UnitEvent::ImportTableFailed => Err(VmResultStatus::ImportTableFailure),
        UnitEvent::InstantiationFailed(detail) => Err(VmResultStatus::InstantiationFailure(detail)),
        UnitEvent::MemoryExportMissing => Err(VmResultStatus::MissingMemoryExport),
        UnitEvent::EntryFunctionMissing(name) => Err(VmResultStatus::MissingEntryFunction(name)),
        UnitEvent::Invoked { invocation, result_buffer } => Ok(
            (result_buffer, spec_exit_code(invocation)),
        ),
    }
}

/// Turns what happened inside the unit into the unit's outcome.
pub fn unit_outcome(event: UnitEvent) -> (outcome: Result<(Vec<u8>, i32), VmResultStatus>)
    ensures
        outcome == spec_unit_outcome(event),
{
    match event {
        UnitEvent::EnvironmentInitFailed => Err(VmResultStatus::EnvironmentInitFailure),
        UnitEvent::ImportTableFailed => Err(VmResultStatus::ImportTableFailure),
        UnitEvent::InstantiationFailed(detail) => Err(VmResultStatus::InstantiationFailure(detail)),
        UnitEvent::MemoryExportMissing => Err(VmResultStatus::MissingMemoryExport),
        UnitEvent::EntryFunctionMissing(name) => Err(VmResultStatus::MissingEntryFunction(name)),
        UnitEvent::Invoked { invocation, result_buffer } => {
            let code = derive_exit_code(&invocation);
            Ok((result_buffer, code))
        },
    }
}

/// How the supervisor's bounded wait for the one-shot completion signal
/// ended.
pub enum SignalWait {
    /// The unit signalled completion within the deadline; it is then joined.
    Received,
    /// The deadline elapsed with no signal. The unit is abandoned, not
    /// forcibly stopped, and is never joined.
    TimedOut,
    /// The channel disconnected without a signal: the unit terminated
    /// abnormally. It is joined to retrieve what it left behind.
    Disconnected,
}

/// The outcome the supervisor adopts: a timeout when no signal arrived in
/// time; otherwise the joined unit's own outcome, or a join failure when the
/// unit could not be joined (`joined` is `None`).
pub open spec fn spec_reconcile(
    signal: SignalWait,
    joined: Option<Result<(Vec<u8>, i32), VmResultStatus>>,
) -> Result<(Vec<u8>, i32), VmResultStatus> {
    match signal {
        SignalWait::TimedOut => Err(VmResultStatus::ExecutionTimeout),
        SignalWait::Received | SignalWait::Disconnected => match joined {
            Some(outcome) => outcome,
            None => Err(VmResultStatus::UnitJoinFailure),
        },
    }
}

/// Reconciles the bounded wait with the joined unit outcome. On a timeout
/// the unit was not joined and `joined` plays no part: the call settles as a
/// timeout whatever the abandoned unit later does.
pub fn reconcile(
    signal: SignalWait,
    joined: Option<Result<(Vec<u8>, i32), VmResultStatus>>,
) -> (outcome: Result<(Vec<u8>, i32), VmResultStatus>)
    ensures
        outcome == spec_reconcile(signal, joined),
{
    match signal {
        SignalWait::TimedOut => Err(VmResultStatus::ExecutionTimeout),
        SignalWait::Received | SignalWait::Disconnected => match joined {
            Some(outcome) => outcome,
            None => Err(VmResultStatus::UnitJoinFailure),
        },
    }
}

} // verus!
