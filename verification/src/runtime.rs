//! Settling one sandboxed call: the verified tail of the supervisor, run
//! after the bounded wait for the execution unit has ended and both captured
//! streams have been drained.

use vstd::prelude::*;
use crate::assemble::assemble_result;
use crate::assemble::envelope_matches;
use crate::data::VmResult;
use crate::data::VmResultStatus;
use crate::streams::record_drain;
use crate::streams::spec_drained_chunks;
use crate::supervisor::SignalWait;
use crate::supervisor::reconcile;
use crate::supervisor::spec_reconcile;

verus! {

/// The outcome a call settles on once the streams are drained: a failed
/// stdout or stderr drain overrides the reconciled outcome, since the
/// streams are read last and a call that cannot report its output is a
/// failed call.
pub open spec fn spec_settled_outcome(
    signal: SignalWait,
    joined: Option<Result<(Vec<u8>, i32), VmResultStatus>>,
    stdout_read: Option<String>,
    stderr_read: Option<String>,
) -> Result<(Vec<u8>, i32), VmResultStatus> {
    if stdout_read is None || stderr_read is None {
        Err(VmResultStatus::StreamReadFailure)
    } else {
        spec_reconcile(signal, joined)
    }
}

/// The stderr chunks a settled call reports: none when the stdout drain
/// already failed (the call stops reporting there), and otherwise whatever
/// the stderr drain contributed.
pub open spec fn spec_settled_stderr(
    stdout_read: Option<String>,
    stderr_read: Option<String>,
) -> Seq<String> {
    if stdout_read is None {
        Seq::<String>::empty()
    } else {
        spec_drained_chunks(stderr_read)
    }
}

/// Settles one call. `signal` is how the bounded wait for the unit's
/// completion signal ended; `joined` is the joined unit's outcome, absent on
/// a timeout (the unit is abandoned, never joined) or when the join failed;
/// `stdout_read` and `stderr_read` are the texts drained from the two
/// capture pipes, absent where a drain failed. Returns the one result
/// envelope of the call.
pub fn settle_call(
    signal: SignalWait,
    joined: Option<Result<(Vec<u8>, i32), VmResultStatus>>,
    stdout_read: Option<String>,
    stderr_read: Option<String>,
) -> (envelope: VmResult)
    ensures
        envelope_matches(
            spec_settled_outcome(signal, joined, stdout_read, stderr_read),
            spec_drained_chunks(stdout_read),
            spec_settled_stderr(stdout_read, stderr_read),
            envelope,
        ),
{
    let ghost so_chunks: Seq<String> = spec_drained_chunks(stdout_read);
    let ghost se_chunks: Seq<String> = spec_drained_chunks(stderr_read);
    let outcome = reconcile(signal, joined);
    let mut stdout: Vec<String> = Vec::new();
    let mut stderr: Vec<String> = Vec::new();
    match record_drain(&mut stdout, stdout_read) {
        Err(status) => {
            proof {
                assert(stdout@ =~= so_chunks);
                assert(stderr@ =~= Seq::<String>::empty());
            }
            assemble_result(Err(status), stdout, stderr)
        },
        Ok(()) => {
            proof {
                assert(stdout@ =~= so_chunks);
            }
            match record_drain(&mut stderr, stderr_read) {
                Err(status) => {
                    proof {
                        assert(stderr@ =~= se_chunks);
                    }
                    assemble_result(Err(status), stdout, stderr)
                },
                Ok(()) => {
                    proof {
                        assert(stderr@ =~= se_chunks);
                    }
                    assemble_result(outcome, stdout, stderr)
                },
            }
        },
    }
}

} // verus!
