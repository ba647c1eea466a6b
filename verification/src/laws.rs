//! The laws the host keeps, stated over the spec model that the executable
//! functions' contracts use.

use vstd::prelude::*;
use crate::assemble::envelope_matches;
use crate::assemble::lossy_utf8;
use crate::data::VmResult;
use crate::data::VmResultStatus;
use crate::data::status_exit_code;
use crate::runtime::spec_settled_outcome;
use crate::runtime::spec_settled_stderr;
use crate::streams::spec_drained_chunks;
use crate::supervisor::SignalWait;
use crate::supervisor::UnitEvent;
use crate::supervisor::spec_unit_outcome;

verus! {

/// A call naming a missing entry point yields no result bytes, and an exit
/// message naming the function that was not found.
pub proof fn law_missing_entry_point(
    name: String,
    stdout: Seq<String>,
    stderr: Seq<String>,
    envelope: VmResult,
)
    requires
        envelope_matches(
            spec_unit_outcome(UnitEvent::EntryFunctionMissing(name)),
            stdout,
            stderr,
            envelope,
        ),
    ensures
        envelope.result is None,
        envelope.exit_info.exit_message@ == "Failed to find the entry function: "@ + name@,
{
}

/// A run that terminates normally (exit code 0) reports the fixed exit
/// message "Ok", whatever result bytes it deposited.
pub proof fn law_normal_exit_message(
    bytes: Vec<u8>,
    stdout: Seq<String>,
    stderr: Seq<String>,
    envelope: VmResult,
)
    requires
        envelope_matches(
            Result::<(Vec<u8>, i32), VmResultStatus>::Ok((bytes, 0)),
            stdout,
            stderr,
            envelope,
        ),
    ensures
        envelope.exit_info.exit_message@ == "Ok"@,
        envelope.exit_info.exit_code == 0,
        envelope.result == Some(bytes),
{
}

/// A run trapping with a nonzero exit code reports, as its exit message, the
/// lossy text decoding of whatever result bytes were recorded before the
/// trap — the empty string when none were.
pub proof fn law_trap_exit_message(
    bytes: Vec<u8>,
    code: i32,
    stdout: Seq<String>,
    stderr: Seq<String>,
    envelope: VmResult,
)
    requires
        code != 0,
        envelope_matches(
            Result::<(Vec<u8>, i32), VmResultStatus>::Ok((bytes, code)),
            stdout,
            stderr,
            envelope,
        ),
    ensures
        envelope.exit_info.exit_message@ == lossy_utf8(bytes@),
        envelope.exit_info.exit_code == code,
        envelope.result == Some(bytes),
{
}

/// A unit that never signals within the deadline settles as a timeout: the
/// supervisor adopts the timeout outcome whatever the abandoned unit would
/// have returned, and the envelope reports the timeout exit info with no
/// result bytes.
pub proof fn law_timeout_settles(
    joined: Option<Result<(Vec<u8>, i32), VmResultStatus>>,
    stdout_read: Option<String>,
    stderr_read: Option<String>,
    envelope: VmResult,
)
    requires
        stdout_read is Some,
        stderr_read is Some,
        envelope_matches(
            spec_settled_outcome(SignalWait::TimedOut, joined, stdout_read, stderr_read),
            spec_drained_chunks(stdout_read),
            spec_settled_stderr(stdout_read, stderr_read),
            envelope,
        ),
    ensures
        envelope.result is None,
        envelope.exit_info.exit_code == status_exit_code(VmResultStatus::ExecutionTimeout),
        envelope.exit_info.exit_message@ == "Execution timed out"@,
{
}

/// Settling a call is deterministic: two envelopes settled from the same
/// wait outcome, the same joined unit outcome and the same drained stream
/// texts agree on every observable field.
pub proof fn law_settle_deterministic(
    signal: SignalWait,
    joined: Option<Result<(Vec<u8>, i32), VmResultStatus>>,
    stdout_read: Option<String>,
    stderr_read: Option<String>,
    first: VmResult,
    second: VmResult,
)
    requires
        envelope_matches(
            spec_settled_outcome(signal, joined, stdout_read, stderr_read),
            spec_drained_chunks(stdout_read),
            spec_settled_stderr(stdout_read, stderr_read),
            first,
        ),
        envelope_matches(
            spec_settled_outcome(signal, joined, stdout_read, stderr_read),
            spec_drained_chunks(stdout_read),
            spec_settled_stderr(stdout_read, stderr_read),
            second,
        ),
    ensures
        first.stdout@ == second.stdout@,
        first.stderr@ == second.stderr@,
        first.exit_info.exit_code == second.exit_info.exit_code,
        first.exit_info.exit_message@ == second.exit_info.exit_message@,
        first.result == second.result,
{
}

} // verus!
