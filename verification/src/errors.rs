//! The supervisor's result taxonomy, and its user-visible message for each
//! outcome. Every failure is recovered at the command boundary and reported;
//! nothing panics.

use vstd::prelude::*;

use crate::decimal::{dec_str_of, decimal_string};
use crate::ids::{id_name, id_str, start_name, start_name_str, ProcessId};
use crate::launch::{backend_dir, backend_dir_str, interp_path_of, interpreter_path};

verus! {

/// Why a command was refused or failed. String payloads carry text reported by
/// the runtime: the OS error of a failed spawn or kill, or the error of a
/// missing environment variable. `InterpreterNotFound` records the user-profile
/// directory under which the interpreter was resolved.
#[derive(Debug)]
pub enum SupervisorError {
    UnknownProcess,
    MissingPort(ProcessId),
    BackendNotFound,
    EnvVarMissing(String),
    InterpreterNotFound(String),
    AlreadyRunning(ProcessId),
    NotRunning(ProcessId),
    SpawnFailed(ProcessId, String),
    ForcedTerminationFailed(ProcessId, u32, String),
}

/// The mathematical shape of a [`SupervisorError`]: each text payload as a
/// sequence of characters.
pub enum ErrorView {
    UnknownProcess,
    MissingPort(ProcessId),
    BackendNotFound,
    EnvVarMissing(Seq<char>),
    InterpreterNotFound(Seq<char>),
    AlreadyRunning(ProcessId),
    NotRunning(ProcessId),
    SpawnFailed(ProcessId, Seq<char>),
    ForcedTerminationFailed(ProcessId, u32, Seq<char>),
}

impl View for SupervisorError {
    type V = ErrorView;

    open spec fn view(&self) -> ErrorView {
        match self {
            SupervisorError::UnknownProcess => ErrorView::UnknownProcess,
            SupervisorError::MissingPort(id) => ErrorView::MissingPort(*id),
            SupervisorError::BackendNotFound => ErrorView::BackendNotFound,
            SupervisorError::EnvVarMissing(e) => ErrorView::EnvVarMissing(e@),
            SupervisorError::InterpreterNotFound(up) => ErrorView::InterpreterNotFound(up@),
            SupervisorError::AlreadyRunning(id) => ErrorView::AlreadyRunning(*id),
            SupervisorError::NotRunning(id) => ErrorView::NotRunning(*id),
            SupervisorError::SpawnFailed(id, e) => ErrorView::SpawnFailed(*id, e@),
            SupervisorError::ForcedTerminationFailed(id, pid, e) => ErrorView::ForcedTerminationFailed(
                *id,
                *pid,
                e@,
            ),
        }
    }
}

/// The descriptive text reported to the caller for each error.
pub open spec fn error_message(e: ErrorView) -> Seq<char> {
    match e {
        ErrorView::UnknownProcess => "Unknown process"@,
        ErrorView::MissingPort(id) => "Port is required for "@ + id_name(id),
        ErrorView::BackendNotFound => "Backend directory not found: "@ + backend_dir(),
        ErrorView::EnvVarMissing(detail) => "Failed to get USERPROFILE: "@ + detail,
        ErrorView::InterpreterNotFound(up) => "Python executable not found at: "@ + interp_path_of(
            up,
        ),
        ErrorView::AlreadyRunning(id) => start_name(id) + " is already running"@,
        ErrorView::NotRunning(id) => id_name(id) + " is not running"@,
        ErrorView::SpawnFailed(id, detail) => "Failed to start "@ + start_name(id) + ": "@
            + detail,
        ErrorView::ForcedTerminationFailed(id, pid, detail) => "Failed to taskkill "@ + id_name(id)
            + " (pid "@ + dec_str_of(pid as nat) + "): "@ + detail,
    }
}

impl SupervisorError {
    /// Render the error as the caller-visible string.
    pub fn message(&self) -> (r: String)
        ensures
            r@ == error_message(self@),
    {
        match self {
            SupervisorError::UnknownProcess => String::from_str("Unknown process"),
            SupervisorError::MissingPort(id) => String::from_str("Port is required for ").concat(
                id_str(*id),
            ),
            SupervisorError::BackendNotFound => String::from_str(
                "Backend directory not found: ",
            ).concat(backend_dir_str()),
            SupervisorError::EnvVarMissing(detail) => String::from_str(
                "Failed to get USERPROFILE: ",
            ).concat(detail.as_str()),
            SupervisorError::InterpreterNotFound(up) => String::from_str(
                "Python executable not found at: ",
            ).concat(interpreter_path(up).as_str()),
            SupervisorError::AlreadyRunning(id) => String::from_str(start_name_str(*id)).concat(
                " is already running",
            ),
            SupervisorError::NotRunning(id) => String::from_str(id_str(*id)).concat(
                " is not running",
            ),
            SupervisorError::SpawnFailed(id, detail) => String::from_str("Failed to start ").concat(
                start_name_str(*id),
            ).concat(": ").concat(detail.as_str()),
            SupervisorError::ForcedTerminationFailed(id, pid, detail) => String::from_str(
                "Failed to taskkill ",
            ).concat(id_str(*id)).concat(" (pid ").concat(
                decimal_string(*pid as u64).as_str(),
            ).concat("): ").concat(detail.as_str()),
        }
    }
}

} // verus!
