//! The data a call exchanges with the host: the call's input, the failure
//! taxonomy, and the exit info shown for each failure.

use vstd::prelude::*;
use vstd::string::StringExecFns;

verus! {

/// The input of one sandboxed call: the name of the exported entry point to
/// invoke (defaulting to the conventional start symbol when absent), the
/// guest's argument list, and its environment variables. It is consumed by
/// exactly one call and never retained.
pub struct VmCallData {
    pub start_func: Option<String>,
    pub args: Vec<String>,
    pub envs: Vec<(String, String)>,
}

/// The conventional entry point of a guest module, invoked when the call
/// names none.
pub open spec fn default_entry_point() -> Seq<char> {
    "_start"@
}

impl VmCallData {
    /// The entry point this call asks for: the requested name, or the
    /// conventional start symbol when none was requested.
    pub open spec fn entry_point(&self) -> Seq<char> {
        match self.start_func {
            Some(name) => name@,
            None => default_entry_point(),
        }
    }
}

/// The name of the exported guest function to invoke for this call.
pub fn entry_point_name(call_data: &VmCallData) -> (name: String)
    ensures
        name@ == call_data.entry_point(),
{
    match &call_data.start_func {
        Some(name) => name.clone(),
        None => "_start".to_owned(),
    }
}

/// How a sandboxed run terminated: a numeric exit code and a human-readable
/// message.
pub struct ExitInfo {
    pub exit_code: i32,
    pub exit_message: String,
}

/// The externally visible outcome of one call: the stdout and stderr chunks
/// captured while the guest ran, the exit info, and the result bytes the
/// guest deposited (absent whenever the call failed).
pub struct VmResult {
    pub stdout: Vec<String>,
    pub stderr: Vec<String>,
    pub exit_info: ExitInfo,
    pub result: Option<Vec<u8>>,
}

/// Every way a call can fail without producing an ordinary (result bytes,
/// exit code) outcome. One call reports at most one of these, and never
/// retries internally.
#[derive(Debug)]
pub enum VmResultStatus {
    /// The sandbox environment (args, env vars, stream wiring) could not be
    /// built or initialized.
    EnvironmentInitFailure,
    /// The combined host import table could not be assembled.
    ImportTableFailure,
    /// The module could not be instantiated; carries the underlying
    /// diagnostic text.
    InstantiationFailure(String),
    /// The module exports no linear memory, so it can never be executed.
    MissingMemoryExport,
    /// The module exports no function under the requested entry-point name;
    /// carries that name.
    MissingEntryFunction(String),
    /// The execution unit did not signal completion within the fixed
    /// deadline.
    ExecutionTimeout,
    /// The execution unit could not be joined.
    UnitJoinFailure,
    /// A captured output stream could not be drained.
    StreamReadFailure,
}

/// The exit code reported for each failure kind: a distinct nonzero code,
/// so a failed call is never mistaken for a normal termination.
pub open spec fn status_exit_code(status: VmResultStatus) -> i32 {
    match status {
        VmResultStatus::EnvironmentInitFailure => 1,
        VmResultStatus::ImportTableFailure => 2,
        VmResultStatus::InstantiationFailure(_) => 3,
        VmResultStatus::MissingMemoryExport => 4,
        VmResultStatus::MissingEntryFunction(_) => 5,
        VmResultStatus::ExecutionTimeout => 6,
        VmResultStatus::UnitJoinFailure => 7,
        VmResultStatus::StreamReadFailure => 8,
    }
}

/// The exit message reported for each failure kind.
pub open spec fn status_message(status: VmResultStatus) -> Seq<char> {
    match status {
        VmResultStatus::EnvironmentInitFailure => "Failed to initialize the sandbox environment"@,
        VmResultStatus::ImportTableFailure => "Failed to build the host import table"@,
        VmResultStatus::InstantiationFailure(detail) => "Failed to instantiate the module: "@
            + detail@,
        VmResultStatus::MissingMemoryExport => "Failed to get the exported memory of the module"@,
        VmResultStatus::MissingEntryFunction(name) => "Failed to find the entry function: "@
            + name@,
        VmResultStatus::ExecutionTimeout => "Execution timed out"@,
        VmResultStatus::UnitJoinFailure => "Failed to join the execution unit"@,
        VmResultStatus::StreamReadFailure => "Failed to read a captured output stream"@,
    }
}

/// The exit info shown for a failed call: the fixed code and message of its
/// failure kind.
pub fn exit_info_of_status(status: &VmResultStatus) -> (info: ExitInfo)
    ensures
        info.exit_code == status_exit_code(*status),
        info.exit_message@ == status_message(*status),
{
    match status {
        VmResultStatus::EnvironmentInitFailure => ExitInfo {
            exit_code: 1,
            exit_message: "Failed to initialize the sandbox environment".to_owned(),
        },
        VmResultStatus::ImportTableFailure => ExitInfo {
            exit_code: 2,
            exit_message: "Failed to build the host import table".to_owned(),
        },
        VmResultStatus::InstantiationFailure(detail) => {
            let mut message = "Failed to instantiate the module: ".to_owned();
            message.append(detail.as_str());
            ExitInfo { exit_code: 3, exit_message: message }
        },
        VmResultStatus::MissingMemoryExport => ExitInfo {
            exit_code: 4,
            exit_message: "Failed to get the exported memory of the module".to_owned(),
        },
        VmResultStatus::MissingEntryFunction(name) => {
            let mut message = "Failed to find the entry function: ".to_owned();
            message.append(name.as_str());
            ExitInfo { exit_code: 5, exit_message: message }
        },
        VmResultStatus::ExecutionTimeout => ExitInfo {
            exit_code: 6,
            exit_message: "Execution timed out".to_owned(),
        },
        VmResultStatus::UnitJoinFailure => ExitInfo {
            exit_code: 7,
            exit_message: "Failed to join the execution unit".to_owned(),
        },
        VmResultStatus::StreamReadFailure => ExitInfo {
            exit_code: 8,
            exit_message: "Failed to read a captured output stream".to_owned(),
        },
    }
}

} // verus!
