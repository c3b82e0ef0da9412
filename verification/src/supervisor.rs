//! The supervisor's command logic: validate a request, serialize on the slot,
//! reap a handle whose process already exited, and decide what the runtime
//! must do next.
//!
//! Spawning, killing and probing are operations of the surrounding runtime.
//! Each command is therefore split at those points: a transition here decides
//! from the registry and the request (plus the outcome of any probe already
//! taken under the slot's guard) what happens, and a second transition records
//! the outside outcome. The runtime must hold the identifier's guard from the
//! first step to the last, so that the steps of two commands on one identifier
//! never interleave; commands on different identifiers are independent.

use vstd::prelude::*;

use crate::errors::{ErrorView, SupervisorError};
use crate::ids::{id_name, id_str, parse_id, parse_process_id, start_name, start_name_str, ProcessId};
use crate::launch::{
    build_llm_launch, build_worker_launch, llm_launch, worker_launch, LaunchSpec, LaunchSpecView,
};
use crate::registry::{live_after_reap, reaped, ProbeOutcome, ProcessHandle, Registry};

verus! {

/// What the runtime found out before a worker launch: whether the backend
/// directory exists, the user-profile directory (or the error of reading its
/// environment variable), and whether the interpreter resolved under that
/// directory exists. The inference server needs none of these.
pub struct EnvReport {
    pub backend_dir_exists: bool,
    pub user_profile: Result<String, String>,
    pub interpreter_exists: bool,
}

pub struct EnvReportView {
    pub backend_dir_exists: bool,
    pub user_profile: Result<Seq<char>, Seq<char>>,
    pub interpreter_exists: bool,
}

impl View for EnvReport {
    type V = EnvReportView;

    open spec fn view(&self) -> EnvReportView {
        EnvReportView {
            backend_dir_exists: self.backend_dir_exists,
            user_profile: match &self.user_profile {
                Ok(up) => Ok(up@),
                Err(e) => Err(e@),
            },
            interpreter_exists: self.interpreter_exists,
        }
    }
}

/// How the runtime's spawn of a planned launch ended: the new process's
/// identifier, or the OS error text.
pub enum SpawnOutcome {
    Spawned(u32),
    SpawnError(String),
}

pub enum SpawnOutcomeView {
    Spawned(u32),
    SpawnError(Seq<char>),
}

impl View for SpawnOutcome {
    type V = SpawnOutcomeView;

    open spec fn view(&self) -> SpawnOutcomeView {
        match self {
            SpawnOutcome::Spawned(pid) => SpawnOutcomeView::Spawned(*pid),
            SpawnOutcome::SpawnError(e) => SpawnOutcomeView::SpawnError(e@),
        }
    }
}

/// How the whole-tree forced termination ended: the termination command ran to
/// completion (its own exit status is not inspected), or it could not be
/// issued, with the OS error text.
pub enum TreeKillOutcome {
    Completed,
    NotIssued(String),
}

pub enum TreeKillOutcomeView {
    Completed,
    NotIssued(Seq<char>),
}

impl View for TreeKillOutcome {
    type V = TreeKillOutcomeView;

    open spec fn view(&self) -> TreeKillOutcomeView {
        match self {
            TreeKillOutcome::Completed => TreeKillOutcomeView::Completed,
            TreeKillOutcome::NotIssued(e) => TreeKillOutcomeView::NotIssued(e@),
        }
    }
}

/// The launch decision for a known identifier whose slot is free: the
/// inference server launches unconditionally; a worker needs a port, the
/// backend directory, the user-profile variable and the interpreter, checked
/// in that order.
pub open spec fn plan_for(
    id: ProcessId,
    port: Option<u16>,
    multimodel: Option<bool>,
    env: EnvReportView,
) -> Result<LaunchSpecView, ErrorView> {
    if id is Llm {
        Ok(llm_launch(multimodel == Some(true)))
    } else if port is None {
        Err(ErrorView::MissingPort(id))
    } else if !env.backend_dir_exists {
        Err(ErrorView::BackendNotFound)
    } else if env.user_profile is Err {
        Err(ErrorView::EnvVarMissing(env.user_profile->Err_0))
    } else if !env.interpreter_exists {
        Err(ErrorView::InterpreterNotFound(env.user_profile->Ok_0))
    } else {
        Ok(worker_launch(id, port->0, env.user_profile->Ok_0))
    }
}

/// What a start request does to the registry, and what it returns: refusal
/// with `UnknownProcess` or (after the reap) `AlreadyRunning`, or the launch
/// plan the runtime must spawn. The slot itself is only written by
/// [`Registry::record_spawn`] once the spawn outcome is known.
pub open spec fn start_transition(
    s: Registry,
    name: Seq<char>,
    port: Option<u16>,
    multimodel: Option<bool>,
    probe: ProbeOutcome,
    env: EnvReportView,
) -> (Registry, Result<LaunchSpecView, ErrorView>) {
    match parse_id(name) {
        None => (s, Err(ErrorView::UnknownProcess)),
        Some(id) => {
            if live_after_reap(s.spec_slot(id), probe) {
                (s, Err(ErrorView::AlreadyRunning(id)))
            } else {
                (s.with_slot(id, None), plan_for(id, port, multimodel, env))
            }
        },
    }
}

/// What recording a spawn outcome does: a new handle is attached on success,
/// the slot stays free on failure.
pub open spec fn spawn_transition(
    s: Registry,
    id: ProcessId,
    outcome: SpawnOutcomeView,
) -> (Registry, Result<Seq<char>, ErrorView>) {
    match outcome {
        SpawnOutcomeView::Spawned(pid) => (
            s.with_slot(id, Some(ProcessHandle { pid })),
            Ok(start_success_message(id)),
        ),
        SpawnOutcomeView::SpawnError(e) => (s, Err(ErrorView::SpawnFailed(id, e))),
    }
}

/// What a stop request does: refusal for an unknown identifier or an empty
/// slot; otherwise the handle is taken and the slot is cleared at once,
/// whatever the termination below achieves.
pub open spec fn stop_transition(
    s: Registry,
    name: Seq<char>,
) -> (Registry, Result<(ProcessId, ProcessHandle), ErrorView>) {
    match parse_id(name) {
        None => (s, Err(ErrorView::UnknownProcess)),
        Some(id) => {
            match s.spec_slot(id) {
                None => (s, Err(ErrorView::NotRunning(id))),
                Some(h) => (s.with_slot(id, None), Ok((id, h))),
            }
        },
    }
}

/// What a status request does: refusal for an unknown identifier; otherwise
/// the shared probe-and-reap, reporting whether a live process remains.
pub open spec fn status_transition(
    s: Registry,
    name: Seq<char>,
    probe: ProbeOutcome,
) -> (Registry, Result<bool, ErrorView>) {
    match parse_id(name) {
        None => (s, Err(ErrorView::UnknownProcess)),
        Some(id) => (
            s.with_slot(id, reaped(s.spec_slot(id), probe)),
            Ok(live_after_reap(s.spec_slot(id), probe)),
        ),
    }
}

pub open spec fn start_success_message(id: ProcessId) -> Seq<char> {
    start_name(id) + " started successfully"@
}

pub open spec fn stop_success_message(id: ProcessId) -> Seq<char> {
    id_name(id) + " shutdown successfully"@
}

/// The launch decision for a known identifier, once its slot is known to be
/// free. Does not touch the registry.
pub fn plan_launch(
    id: ProcessId,
    port: Option<u16>,
    multimodel: Option<bool>,
    env: &EnvReport,
) -> (r: Result<LaunchSpec, SupervisorError>)
    ensures
        match plan_for(id, port, multimodel, env@) {
            Ok(lv) => r matches Ok(l) && l@ == lv,
            Err(ev) => r matches Err(e) && e@ == ev,
        },
{
    if matches!(id, ProcessId::Llm) {
        let multi = match multimodel {
            Some(true) => true,
            _ => false,
        };
        return Ok(build_llm_launch(multi));
    }
    let port = match port {
        None => {
            return Err(SupervisorError::MissingPort(id));
        },
        Some(p) => p,
    };
    if !env.backend_dir_exists {
        return Err(SupervisorError::BackendNotFound);
    }
    let up = match &env.user_profile {
        Err(e) => {
            return Err(SupervisorError::EnvVarMissing(e.clone()));
        },
        Ok(up) => up,
    };
    if !env.interpreter_exists {
        return Err(SupervisorError::InterpreterNotFound(up.clone()));
    }
    Ok(build_worker_launch(id, port, up))
}

impl Registry {
    /// Decide a start request. On `Ok` the runtime must spawn the returned
    /// launch while still holding this identifier's guard, and then record the
    /// outcome with [`Registry::record_spawn`]; the slot is free at that
    /// point. Nothing is spawned for an unknown identifier or a live slot.
    pub fn start_request(
        &mut self,
        process: &String,
        port: Option<u16>,
        multimodel: Option<bool>,
        probe: ProbeOutcome,
        env: &EnvReport,
    ) -> (r: Result<LaunchSpec, SupervisorError>)
        ensures
            ({
                let (s2, rv) = start_transition(
                    *old(self),
                    process@,
                    port,
                    multimodel,
                    probe,
                    env@,
                );
                &&& *final(self) == s2
                &&& match rv {
                    Ok(lv) => r matches Ok(l) && l@ == lv,
                    Err(ev) => r matches Err(e) && e@ == ev,
                }
            }),
    {
        let id = match parse_process_id(process) {
            None => {
                return Err(SupervisorError::UnknownProcess);
            },
            Some(id) => id,
        };
        let running = self.reap(id, probe);
        if running {
            proof {
                crate::registry::lemma_with_slot_same(*old(self), id);
            }
            return Err(SupervisorError::AlreadyRunning(id));
        }
        plan_launch(id, port, multimodel, env)
    }

    /// Record how the spawn of a planned launch ended. The slot must still be
    /// free: the guard has been held since the start request that planned it.
    pub fn record_spawn(&mut self, id: ProcessId, outcome: SpawnOutcome) -> (r: Result<
        String,
        SupervisorError,
    >)
        requires
            old(self).spec_slot(id) is None,
        ensures
            ({
                let (s2, rv) = spawn_transition(*old(self), id, outcome@);
                &&& *final(self) == s2
                &&& match rv {
                    Ok(m) => r matches Ok(msg) && msg@ == m,
                    Err(ev) => r matches Err(e) && e@ == ev,
                }
            }),
    {
        match outcome {
            SpawnOutcome::Spawned(pid) => {
                self.set_slot(id, Some(ProcessHandle { pid }));
                Ok(String::from_str(start_name_str(id)).concat(" started successfully"))
            },
            SpawnOutcome::SpawnError(e) => Err(SupervisorError::SpawnFailed(id, e)),
        }
    }

    /// Decide a stop request. On `Ok` the slot is already cleared and the
    /// runtime must kill the returned handle and force-terminate its tree,
    /// then report through [`finish_stop`]. Clearing first keeps the slot
    /// available even if the termination cannot be confirmed.
    pub fn stop_request(&mut self, process: &String) -> (r: Result<
        (ProcessId, ProcessHandle),
        SupervisorError,
    >)
        ensures
            ({
                let (s2, rv) = stop_transition(*old(self), process@);
                &&& *final(self) == s2
                &&& match rv {
                    Ok(p) => r == Ok::<(ProcessId, ProcessHandle), SupervisorError>(p),
                    Err(ev) => r matches Err(e) && e@ == ev,
                }
            }),
    {
        let id = match parse_process_id(process) {
            None => {
                return Err(SupervisorError::UnknownProcess);
            },
            Some(id) => id,
        };
        match self.slot(id) {
            None => Err(SupervisorError::NotRunning(id)),
            Some(h) => {
                self.set_slot(id, None);
                Ok((id, h))
            },
        }
    }

    /// Decide a status request: reap a handle whose process has exited, and
    /// report whether a live process remains. Never errors for a known
    /// identifier.
    pub fn status_request(&mut self, process: &String, probe: ProbeOutcome) -> (r: Result<
        bool,
        SupervisorError,
    >)
        ensures
            ({
                let (s2, rv) = status_transition(*old(self), process@, probe);
                &&& *final(self) == s2
                &&& match rv {
                    Ok(b) => r == Ok::<bool, SupervisorError>(b),
                    Err(ev) => r matches Err(e) && e@ == ev,
                }
            }),
    {
        let id = match parse_process_id(process) {
            None => {
                return Err(SupervisorError::UnknownProcess);
            },
            Some(id) => id,
        };
        Ok(self.reap(id, probe))
    }
}

/// Report the end of a stop: success once the tree-kill command has run, or
/// `ForcedTerminationFailed` if it could not be issued — the slot stays
/// cleared either way, so the failure is the caller's to remediate.
pub fn finish_stop(id: ProcessId, handle: ProcessHandle, outcome: TreeKillOutcome) -> (r: Result<
    String,
    SupervisorError,
>)
    ensures
        match outcome@ {
            TreeKillOutcomeView::Completed => r matches Ok(m) && m@ == stop_success_message(id),
            TreeKillOutcomeView::NotIssued(reason) => r matches Err(e) && e@
                == ErrorView::ForcedTerminationFailed(id, handle.pid, reason),
        },
{
    match outcome {
        TreeKillOutcome::Completed => Ok(
            String::from_str(id_str(id)).concat(" shutdown successfully"),
        ),
        TreeKillOutcome::NotIssued(reason) => Err(
            SupervisorError::ForcedTerminationFailed(id, handle.pid, reason),
        ),
    }
}

} // verus!
