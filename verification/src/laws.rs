//! The supervisor's governing properties, proved once and for all over the
//! transitions of [`crate::supervisor`].
//!
//! Commands on one identifier are serialized by that slot's guard, so a
//! sequence of concurrent requests acts as a sequence of transitions; the
//! lemmas below quantify over every state the registry can be in.

use vstd::prelude::*;

use crate::errors::ErrorView;
use crate::ids::{parse_id, ProcessId};
use crate::launch::LaunchSpecView;
use crate::registry::{live_after_reap, ProbeOutcome, ProcessHandle, Registry};
use crate::supervisor::{
    plan_for, spawn_transition, start_transition, status_transition, stop_transition,
    EnvReportView, SpawnOutcomeView,
};

verus! {

/// At most one process runs per identifier: once a spawn is recorded in a free
/// slot, exactly that handle is attached, and any further start request for
/// the identifier is refused with `AlreadyRunning` while the process lives,
/// leaving the registry as it was.
pub proof fn law_at_most_one_running(
    s: Registry,
    name: Seq<char>,
    port: Option<u16>,
    multimodel: Option<bool>,
    env: EnvReportView,
    pid: u32,
)
    requires
        parse_id(name) is Some,
        s.spec_slot(parse_id(name)->Some_0) is None,
    ensures
        ({
            let id = parse_id(name)->Some_0;
            let (s1, r1) = spawn_transition(s, id, SpawnOutcomeView::Spawned(pid));
            let (s2, r2) = start_transition(s1, name, port, multimodel, ProbeOutcome::Running, env);
            &&& s1.spec_slot(id) == Some(ProcessHandle { pid })
            &&& r1 is Ok
            &&& r2 == Err::<LaunchSpecView, ErrorView>(ErrorView::AlreadyRunning(id))
            &&& s2 == s1
        }),
{
}

/// One whole serialized start attempt, as the slot's guard orders them: the
/// decision, and, when a launch was planned, the spawn recorded with the pid
/// the OS gave. The second component says whether this attempt succeeded.
pub open spec fn full_start(
    s: Registry,
    name: Seq<char>,
    port: Option<u16>,
    multimodel: Option<bool>,
    probe: ProbeOutcome,
    env: EnvReportView,
    pid: u32,
) -> (Registry, bool) {
    let (s1, r1) = start_transition(s, name, port, multimodel, probe, env);
    match r1 {
        Ok(_) => {
            let (s2, _) = spawn_transition(
                s1,
                parse_id(name)->Some_0,
                SpawnOutcomeView::Spawned(pid),
            );
            (s2, true)
        },
        Err(_) => (s1, false),
    }
}

/// A sequence of start attempts for one identifier, run in guard order, each
/// probing the attached process as still running (none dies in between);
/// `pids[i]` is the pid the `i`-th spawn would yield. Returns the final
/// registry and each attempt's success flag.
pub open spec fn run_starts(
    s: Registry,
    name: Seq<char>,
    port: Option<u16>,
    multimodel: Option<bool>,
    env: EnvReportView,
    pids: Seq<u32>,
) -> (Registry, Seq<bool>)
    decreases pids.len(),
{
    if pids.len() == 0 {
        (s, Seq::empty())
    } else {
        let (s1, ok) = full_start(s, name, port, multimodel, ProbeOutcome::Running, env, pids[0]);
        let (s2, rest) = run_starts(s1, name, port, multimodel, env, pids.drop_first());
        (s2, seq![ok] + rest)
    }
}

/// While a process is attached and alive, every start attempt is refused and
/// the registry stays as it is.
proof fn lemma_all_starts_refused(
    s: Registry,
    name: Seq<char>,
    port: Option<u16>,
    multimodel: Option<bool>,
    env: EnvReportView,
    pids: Seq<u32>,
)
    requires
        parse_id(name) is Some,
        s.spec_slot(parse_id(name)->Some_0) is Some,
    ensures
        ({
            let (sf, flags) = run_starts(s, name, port, multimodel, env, pids);
            &&& sf == s
            &&& flags.len() == pids.len()
            &&& forall|i: int| 0 <= i < flags.len() ==> flags[i] == false
        }),
    decreases pids.len(),
{
    if pids.len() > 0 {
        lemma_all_starts_refused(s, name, port, multimodel, env, pids.drop_first());
    }
}

/// Exactly one of any number of start attempts succeeds: from a free slot,
/// with a startable request, the attempt first at the guard spawns and
/// attaches its process; every later attempt observes `AlreadyRunning`, and
/// exactly the first process is attached afterwards.
pub proof fn law_exactly_one_start_succeeds(
    s: Registry,
    name: Seq<char>,
    port: Option<u16>,
    multimodel: Option<bool>,
    env: EnvReportView,
    pids: Seq<u32>,
)
    requires
        parse_id(name) is Some,
        s.spec_slot(parse_id(name)->Some_0) is None,
        plan_for(parse_id(name)->Some_0, port, multimodel, env) is Ok,
        pids.len() > 0,
    ensures
        ({
            let id = parse_id(name)->Some_0;
            let (sf, flags) = run_starts(s, name, port, multimodel, env, pids);
            &&& flags.len() == pids.len()
            &&& flags[0] == true
            &&& forall|i: int| 1 <= i < flags.len() ==> flags[i] == false
            &&& sf.spec_slot(id) == Some(ProcessHandle { pid: pids[0] })
        }),
{
    let id = parse_id(name)->Some_0;
    let (s1, ok) = full_start(s, name, port, multimodel, ProbeOutcome::Running, env, pids[0]);
    assert(s1.spec_slot(id) == Some(ProcessHandle { pid: pids[0] }));
    lemma_all_starts_refused(s1, name, port, multimodel, env, pids.drop_first());
}

/// Stopping an identifier whose slot is empty always returns `NotRunning` and
/// changes nothing: there is no handle to kill and none is spawned.
pub proof fn law_idempotent_stop(s: Registry, name: Seq<char>)
    requires
        parse_id(name) is Some,
        s.spec_slot(parse_id(name)->Some_0) is None,
    ensures
        ({
            let id = parse_id(name)->Some_0;
            stop_transition(s, name) == (
                s,
                Err::<(ProcessId, ProcessHandle), ErrorView>(ErrorView::NotRunning(id)),
            )
        }),
{
}

/// Reap before acting: once the attached process has exited on its own (or
/// the probe failed), a status request reports `false` and clears the slot,
/// and a start request is never refused with `AlreadyRunning`.
pub proof fn law_reap_before_act(
    s: Registry,
    name: Seq<char>,
    probe: ProbeOutcome,
    port: Option<u16>,
    multimodel: Option<bool>,
    env: EnvReportView,
)
    requires
        parse_id(name) is Some,
        !(probe is Running),
    ensures
        ({
            let id = parse_id(name)->Some_0;
            let (st, rs) = status_transition(s, name, probe);
            let (st2, rv) = start_transition(s, name, port, multimodel, probe, env);
            &&& rs == Ok::<bool, ErrorView>(false)
            &&& st.spec_slot(id) is None
            &&& rv != Err::<LaunchSpecView, ErrorView>(ErrorView::AlreadyRunning(id))
            &&& st2.spec_slot(id) is None
        }),
{
}

/// A stop clears the slot no matter how the tree-kill then ends: the handle is
/// taken and the slot emptied before any termination is attempted, and
/// `finish_stop` does not touch the registry, so a following start request is
/// never refused with `AlreadyRunning`.
pub proof fn law_stop_clears(
    s: Registry,
    name: Seq<char>,
    probe: ProbeOutcome,
    port: Option<u16>,
    multimodel: Option<bool>,
    env: EnvReportView,
)
    requires
        parse_id(name) is Some,
        s.spec_slot(parse_id(name)->Some_0) is Some,
    ensures
        ({
            let id = parse_id(name)->Some_0;
            let (s1, r1) = stop_transition(s, name);
            let (s2, r2) = start_transition(s1, name, port, multimodel, probe, env);
            &&& r1 is Ok
            &&& s1.spec_slot(id) is None
            &&& r2 != Err::<LaunchSpecView, ErrorView>(ErrorView::AlreadyRunning(id))
        }),
{
}

/// Every worker identifier requires a port: when its slot is startable, a
/// start request without one fails with `MissingPort`, before anything else
/// of the environment is consulted.
pub proof fn law_port_required(
    s: Registry,
    name: Seq<char>,
    multimodel: Option<bool>,
    probe: ProbeOutcome,
    env: EnvReportView,
)
    requires
        parse_id(name) is Some,
        !(parse_id(name)->Some_0 is Llm),
        !live_after_reap(s.spec_slot(parse_id(name)->Some_0), probe),
    ensures
        ({
            let id = parse_id(name)->Some_0;
            start_transition(s, name, None, multimodel, probe, env).1
                == Err::<LaunchSpecView, ErrorView>(ErrorView::MissingPort(id))
        }),
{
}

/// The inference server never requires a port: whatever the state, the probe,
/// the port argument and the environment, a start request for `llm` does not
/// fail with `MissingPort`.
pub proof fn law_llm_needs_no_port(
    s: Registry,
    port: Option<u16>,
    multimodel: Option<bool>,
    probe: ProbeOutcome,
    env: EnvReportView,
)
    ensures
        parse_id("llm"@) == Some(ProcessId::Llm),
        forall|id: ProcessId|
            start_transition(s, "llm"@, port, multimodel, probe, env).1
                != Err::<LaunchSpecView, ErrorView>(ErrorView::MissingPort(id)),
{
}

/// An unknown identifier is refused by all three commands with
/// `UnknownProcess`, and no slot is touched.
pub proof fn law_unknown_identifier(
    s: Registry,
    name: Seq<char>,
    port: Option<u16>,
    multimodel: Option<bool>,
    probe: ProbeOutcome,
    env: EnvReportView,
)
    requires
        parse_id(name) is None,
    ensures
        start_transition(s, name, port, multimodel, probe, env) == (
            s,
            Err::<LaunchSpecView, ErrorView>(ErrorView::UnknownProcess),
        ),
        stop_transition(s, name) == (
            s,
            Err::<(ProcessId, ProcessHandle), ErrorView>(ErrorView::UnknownProcess),
        ),
        status_transition(s, name, probe) == (
            s,
            Err::<bool, ErrorView>(ErrorView::UnknownProcess),
        ),
{
}

/// The six known identifiers parse to their slots; every other string is
/// unknown by construction of [`parse_id`].
pub proof fn lemma_parse_known_names()
    ensures
        parse_id("llm"@) == Some(ProcessId::Llm),
        parse_id("chat"@) == Some(ProcessId::Chat),
        parse_id("web"@) == Some(ProcessId::Web),
        parse_id("rag"@) == Some(ProcessId::Rag),
        parse_id("tts"@) == Some(ProcessId::Tts),
        parse_id("stt"@) == Some(ProcessId::Stt),
{
    reveal_strlit("llm");
    reveal_strlit("chat");
    reveal_strlit("web");
    reveal_strlit("rag");
    reveal_strlit("tts");
    reveal_strlit("stt");
    assert("chat"@.len() == 4 && "llm"@.len() == 3);
    assert("web"@[0] == 'w' && "llm"@[0] == 'l');
    assert("rag"@[0] == 'r');
    assert("tts"@[0] == 't' && "tts"@[1] == 't' && "web"@[1] == 'e' && "rag"@[1] == 'a');
    assert("stt"@[0] == 's');
}

} // verus!
