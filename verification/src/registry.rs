//! The process registry: one guarded optional handle per known identifier.
//!
//! A slot holds a handle iff a spawn succeeded and no later reap has observed
//! exit. The surrounding runtime owns one exclusive guard per slot and holds it
//! for the whole of each command on that identifier; within the guard the
//! command's decisions are the transitions of this module and of
//! [`crate::supervisor`].

use vstd::prelude::*;

use crate::ids::ProcessId;

verus! {

/// A live OS process attached to a slot, recorded by its process identifier.
#[derive(Clone, Copy, PartialEq, Eq, Structural, Debug)]
pub struct ProcessHandle {
    pub pid: u32,
}

/// What a non-blocking liveness probe of an attached process reported.
/// A probe that itself errored is treated as "exited" (fail safe toward
/// "not running"), so the two are distinguished only for the record.
#[derive(Clone, Copy, PartialEq, Eq, Structural, Debug)]
pub enum ProbeOutcome {
    Running,
    Exited,
    ProbeFailed,
}

/// The slot after a probe-and-reap: the handle survives only if a probe saw
/// the process still running.
pub open spec fn reaped(slot: Option<ProcessHandle>, probe: ProbeOutcome) -> Option<ProcessHandle> {
    if slot is Some && probe is Running {
        slot
    } else {
        None
    }
}

/// Whether a slot still counts as live after a probe-and-reap.
pub open spec fn live_after_reap(slot: Option<ProcessHandle>, probe: ProbeOutcome) -> bool {
    slot is Some && probe is Running
}

/// One independently guarded slot per identifier in the closed set.
pub struct Registry {
    pub llm: Option<ProcessHandle>,
    pub chat: Option<ProcessHandle>,
    pub web: Option<ProcessHandle>,
    pub rag: Option<ProcessHandle>,
    pub tts: Option<ProcessHandle>,
    pub stt: Option<ProcessHandle>,
}

impl Registry {
    pub open spec fn spec_slot(self, id: ProcessId) -> Option<ProcessHandle> {
        match id {
            ProcessId::Llm => self.llm,
            ProcessId::Chat => self.chat,
            ProcessId::Web => self.web,
            ProcessId::Rag => self.rag,
            ProcessId::Tts => self.tts,
            ProcessId::Stt => self.stt,
        }
    }

    /// The registry with one slot replaced; every other slot is untouched.
    pub open spec fn with_slot(self, id: ProcessId, v: Option<ProcessHandle>) -> Registry {
        match id {
            ProcessId::Llm => Registry { llm: v, ..self },
            ProcessId::Chat => Registry { chat: v, ..self },
            ProcessId::Web => Registry { web: v, ..self },
            ProcessId::Rag => Registry { rag: v, ..self },
            ProcessId::Tts => Registry { tts: v, ..self },
            ProcessId::Stt => Registry { stt: v, ..self },
        }
    }

    /// A fresh registry: no identifier has a process attached.
    pub fn new() -> (r: Registry)
        ensures
            forall|id: ProcessId| r.spec_slot(id) is None,
    {
        Registry { llm: None, chat: None, web: None, rag: None, tts: None, stt: None }
    }

    pub fn slot(&self, id: ProcessId) -> (r: Option<ProcessHandle>)
        ensures
            r == self.spec_slot(id),
    {
        match id {
            ProcessId::Llm => self.llm,
            ProcessId::Chat => self.chat,
            ProcessId::Web => self.web,
            ProcessId::Rag => self.rag,
            ProcessId::Tts => self.tts,
            ProcessId::Stt => self.stt,
        }
    }

    pub(crate) fn set_slot(&mut self, id: ProcessId, v: Option<ProcessHandle>)
        ensures
            *final(self) == old(self).with_slot(id, v),
    {
        match id {
            ProcessId::Llm => self.llm = v,
            ProcessId::Chat => self.chat = v,
            ProcessId::Web => self.web = v,
            ProcessId::Rag => self.rag = v,
            ProcessId::Tts => self.tts = v,
            ProcessId::Stt => self.stt = v,
        }
    }

    /// The shared probe-and-reap step: if the probe saw the attached process
    /// still running the slot is kept, otherwise it is cleared, and the result
    /// says whether a live process remains. Used by both the status command and
    /// the defensive re-check at the start of a launch.
    pub fn reap(&mut self, id: ProcessId, probe: ProbeOutcome) -> (running: bool)
        ensures
            running == live_after_reap(old(self).spec_slot(id), probe),
            *final(self) == old(self).with_slot(id, reaped(old(self).spec_slot(id), probe)),
    {
        let slot = self.slot(id);
        match slot {
            None => {
                self.set_slot(id, None);
                false
            },
            Some(h) => {
                if matches!(probe, ProbeOutcome::Running) {
                    self.set_slot(id, Some(h));
                    true
                } else {
                    self.set_slot(id, None);
                    false
                }
            },
        }
    }
}

/// Writing a slot back unchanged leaves the whole registry unchanged.
pub proof fn lemma_with_slot_same(s: Registry, id: ProcessId)
    ensures
        s.with_slot(id, s.spec_slot(id)) == s,
{
}

} // verus!
