//! Assembling the externally visible result envelope from a call's outcome
//! and its captured streams.

use vstd::prelude::*;
use crate::data::ExitInfo;
use crate::data::VmResult;
use crate::data::VmResultStatus;
use crate::data::exit_info_of_status;
use crate::data::status_exit_code;
use crate::data::status_message;

verus! {

/// The characters that the lossy text decoding of a byte sequence yields: a
/// function of the bytes alone.
pub uninterp spec fn lossy_utf8(bytes: Seq<u8>) -> Seq<char>;

/// Relies on `String::from_utf8_lossy`: the decoding depends on the bytes
/// alone (invalid sequences become the replacement character), and an empty
/// byte sequence decodes to the empty string.
#[verifier::external_body]
fn lossy_string(bytes: &Vec<u8>) -> (text: String)
    ensures
        text@ == lossy_utf8(bytes@),
        bytes@.len() == 0 ==> text@.len() == 0,
{
    String::from_utf8_lossy(bytes).to_string()
}

/// What the result envelope of a call must hold, given the call's outcome
/// and the captured stream chunks: the streams are included unchanged even
/// on failure; a normal termination (exit code 0) reports the fixed message
/// "Ok" whatever the result bytes hold; a trap reports the lossy text
/// decoding of the result bytes recorded before it; a typed failure reports
/// its fixed exit info and no result bytes at all.
pub open spec fn envelope_matches(
    outcome: Result<(Vec<u8>, i32), VmResultStatus>,
    stdout: Seq<String>,
    stderr: Seq<String>,
    envelope: VmResult,
) -> bool {
    &&& envelope.stdout@ == stdout
    &&& envelope.stderr@ == stderr
    &&& match outcome {
        Ok((bytes, code)) => {
            &&& envelope.result == Some(bytes)
            &&& envelope.exit_info.exit_code == code
            &&& (code == 0 ==> envelope.exit_info.exit_message@ == "Ok"@)
            &&& (code != 0 ==> envelope.exit_info.exit_message@ == lossy_utf8(bytes@))
        },
        Err(status) => {
            &&& envelope.result is None
            &&& envelope.exit_info.exit_code == status_exit_code(status)
            &&& envelope.exit_info.exit_message@ == status_message(status)
        },
    }
}

/// Maps one call's outcome and captured streams to the result envelope. This
/// is the only place an envelope is built, so every call, successful or not,
/// reports through the same deterministic mapping.
pub fn assemble_result(
    outcome: Result<(Vec<u8>, i32), VmResultStatus>,
    stdout: Vec<String>,
    stderr: Vec<String>,
) -> (envelope: VmResult)
    ensures
        envelope_matches(outcome, stdout@, stderr@, envelope),
{
    match outcome {
        Ok((bytes, exit_code)) => {
            let exit_message = if exit_code == 0 {
                "Ok".to_owned()
            } else {
                lossy_string(&bytes)
            };
            VmResult {
                stdout,
                stderr,
                exit_info: ExitInfo { exit_code, exit_message },
                result: Some(bytes),
            }
        },
        Err(status) => VmResult {
            stdout,
            stderr,
            exit_info: exit_info_of_status(&status),
            result: None,
        },
    }
}

} // verus!
