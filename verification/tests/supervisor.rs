use haru::errors::SupervisorError;
use haru::ids::ProcessId;
use haru::registry::{ProbeOutcome, Registry};
use haru::supervisor::{finish_stop, EnvReport, SpawnOutcome, TreeKillOutcome};

fn good_env() -> EnvReport {
    EnvReport {
        backend_dir_exists: true,
        user_profile: Ok("C:\\Users\\me".to_string()),
        interpreter_exists: true,
    }
}

// When no handle is attached the probe argument is irrelevant; the runtime
// passes Exited in that case.
const NO_HANDLE: ProbeOutcome = ProbeOutcome::Exited;

#[test]
fn scenario_rag_lifecycle() {
    let mut reg = Registry::new();
    let env = good_env();

    let plan = reg
        .start_request(&"rag".to_string(), Some(8801), None, NO_HANDLE, &env)
        .expect("start should plan a launch");
    assert_eq!(plan.program, "C:\\Users\\me\\miniconda3\\envs\\haru\\python.exe");
    assert_eq!(
        plan.args,
        vec![
            "-m",
            "uvicorn",
            "rag_worker:app",
            "--host",
            "0.0.0.0",
            "--port",
            "8801",
            "--workers",
            "1"
        ]
        .into_iter()
        .map(String::from)
        .collect::<Vec<_>>()
    );
    assert_eq!(
        plan.current_dir.as_deref(),
        Some("D:\\Programming\\Projects\\Tauri\\haru\\src-tauri\\backend")
    );

    let msg = reg
        .record_spawn(ProcessId::Rag, SpawnOutcome::Spawned(4242))
        .expect("spawn should be recorded");
    assert_eq!(msg, "rag started successfully");

    let running = reg
        .status_request(&"rag".to_string(), ProbeOutcome::Running)
        .expect("status never errors for a known identifier");
    assert!(running);

    let again = reg.start_request(&"rag".to_string(), Some(8801), None, ProbeOutcome::Running, &env);
    match again {
        Err(SupervisorError::AlreadyRunning(ProcessId::Rag)) => {}
        _ => panic!("second start must be refused with AlreadyRunning"),
    }

    let (id, handle) = reg.stop_request(&"rag".to_string()).expect("stop should take the handle");
    assert_eq!(id, ProcessId::Rag);
    assert_eq!(handle.pid, 4242);
    let msg = finish_stop(id, handle, TreeKillOutcome::Completed).expect("tree-kill completed");
    assert_eq!(msg, "rag shutdown successfully");

    let running = reg.status_request(&"rag".to_string(), NO_HANDLE).unwrap();
    assert!(!running);
}

#[test]
fn at_most_one_running_per_identifier() {
    let mut reg = Registry::new();
    let env = good_env();

    let first = reg.start_request(&"chat".to_string(), Some(9000), None, NO_HANDLE, &env);
    assert!(first.is_ok());
    reg.record_spawn(ProcessId::Chat, SpawnOutcome::Spawned(7)).unwrap();

    let second = reg.start_request(&"chat".to_string(), Some(9000), None, ProbeOutcome::Running, &env);
    match second {
        Err(SupervisorError::AlreadyRunning(ProcessId::Chat)) => {}
        _ => panic!("only one start may succeed"),
    }
    let third = reg.start_request(&"chat".to_string(), Some(9001), None, ProbeOutcome::Running, &env);
    assert!(matches!(third, Err(SupervisorError::AlreadyRunning(ProcessId::Chat))));
    // Exactly the first process is attached.
    assert_eq!(reg.slot(ProcessId::Chat).map(|h| h.pid), Some(7));
}

#[test]
fn idempotent_stop_on_empty_slot() {
    let mut reg = Registry::new();
    let r = reg.stop_request(&"chat".to_string());
    match r {
        Err(e @ SupervisorError::NotRunning(ProcessId::Chat)) => {
            assert_eq!(e.message(), "chat is not running");
        }
        _ => panic!("stop of an empty slot must return NotRunning"),
    }
    // And again: nothing changed.
    assert!(matches!(
        reg.stop_request(&"chat".to_string()),
        Err(SupervisorError::NotRunning(ProcessId::Chat))
    ));
}

#[test]
fn reap_before_act() {
    let mut reg = Registry::new();
    let env = good_env();
    reg.start_request(&"tts".to_string(), Some(8101), None, NO_HANDLE, &env).unwrap();
    reg.record_spawn(ProcessId::Tts, SpawnOutcome::Spawned(99)).unwrap();

    // The process exits on its own: the next status must not report true.
    let running = reg.status_request(&"tts".to_string(), ProbeOutcome::Exited).unwrap();
    assert!(!running);
    assert!(reg.slot(ProcessId::Tts).is_none());

    // And a start after self-exit must not claim AlreadyRunning.
    reg.record_spawn(ProcessId::Tts, SpawnOutcome::Spawned(100)).unwrap();
    let r = reg.start_request(&"tts".to_string(), Some(8101), None, ProbeOutcome::Exited, &env);
    assert!(r.is_ok());
}

#[test]
fn probe_error_counts_as_exited() {
    let mut reg = Registry::new();
    let env = good_env();
    reg.start_request(&"stt".to_string(), Some(8201), None, NO_HANDLE, &env).unwrap();
    reg.record_spawn(ProcessId::Stt, SpawnOutcome::Spawned(55)).unwrap();
    let running = reg.status_request(&"stt".to_string(), ProbeOutcome::ProbeFailed).unwrap();
    assert!(!running);
    assert!(reg.slot(ProcessId::Stt).is_none());
}

#[test]
fn stop_clears_even_if_tree_kill_fails() {
    let mut reg = Registry::new();
    let env = good_env();
    reg.start_request(&"rag".to_string(), Some(8801), None, NO_HANDLE, &env).unwrap();
    reg.record_spawn(ProcessId::Rag, SpawnOutcome::Spawned(4242)).unwrap();

    let (id, handle) = reg.stop_request(&"rag".to_string()).unwrap();
    let r = finish_stop(id, handle, TreeKillOutcome::NotIssued("boom".to_string()));
    match r {
        Err(e @ SupervisorError::ForcedTerminationFailed(ProcessId::Rag, 4242, _)) => {
            assert_eq!(e.message(), "Failed to taskkill rag (pid 4242): boom");
        }
        _ => panic!("a tree-kill that cannot be issued must be reported"),
    }

    // The slot is free regardless: a new start is not refused.
    let r = reg.start_request(&"rag".to_string(), Some(8801), None, NO_HANDLE, &env);
    assert!(r.is_ok());
}

#[test]
fn chat_requires_port() {
    let mut reg = Registry::new();
    let r = reg.start_request(&"chat".to_string(), None, None, NO_HANDLE, &good_env());
    match r {
        Err(e @ SupervisorError::MissingPort(ProcessId::Chat)) => {
            assert_eq!(e.message(), "Port is required for chat");
        }
        _ => panic!("chat without a port must fail with MissingPort"),
    }
}

#[test]
fn llm_never_requires_port() {
    let mut reg = Registry::new();
    // No port, no backend, no user profile, no interpreter: llm starts anyway.
    let env = EnvReport {
        backend_dir_exists: false,
        user_profile: Err("unset".to_string()),
        interpreter_exists: false,
    };
    let plan = reg.start_request(&"llm".to_string(), None, None, NO_HANDLE, &env).unwrap();
    assert_eq!(
        plan.program,
        "D:\\Programming\\Projects\\Tauri\\haru\\src-tauri\\lib\\llama-server.exe"
    );
    assert_eq!(
        plan.args,
        vec![
            "-m",
            "D:\\Programming\\Projects\\Tauri\\haru\\src-tauri\\weights\\gemma-3-4b-it-q4_0.gguf",
            "-ngl",
            "99",
            "-c",
            "8192",
            "-t",
            "6"
        ]
        .into_iter()
        .map(String::from)
        .collect::<Vec<_>>()
    );
    assert!(plan.current_dir.is_none());
}

#[test]
fn llm_multimodel_adds_projection_model() {
    let mut reg = Registry::new();
    let plan = reg
        .start_request(&"llm".to_string(), None, Some(true), NO_HANDLE, &good_env())
        .unwrap();
    let args: Vec<&str> = plan.args.iter().map(|s| s.as_str()).collect();
    assert_eq!(
        args,
        vec![
            "-m",
            "D:\\Programming\\Projects\\Tauri\\haru\\src-tauri\\weights\\gemma-3-4b-it-q4_0.gguf",
            "--mmproj",
            "D:\\Programming\\Projects\\Tauri\\haru\\src-tauri\\weights\\mmproj-model-f16-4B.gguf",
            "-ngl",
            "99",
            "-c",
            "8192",
            "-t",
            "6"
        ]
    );
}

#[test]
fn llm_messages_use_capitals() {
    let mut reg = Registry::new();
    reg.start_request(&"llm".to_string(), None, None, NO_HANDLE, &good_env()).unwrap();
    let msg = reg.record_spawn(ProcessId::Llm, SpawnOutcome::Spawned(11)).unwrap();
    assert_eq!(msg, "LLM started successfully");

    let r = reg.start_request(&"llm".to_string(), None, None, ProbeOutcome::Running, &good_env());
    match r {
        Err(e @ SupervisorError::AlreadyRunning(ProcessId::Llm)) => {
            assert_eq!(e.message(), "LLM is already running");
        }
        _ => panic!("llm is running"),
    }

    let (id, handle) = reg.stop_request(&"llm".to_string()).unwrap();
    let msg = finish_stop(id, handle, TreeKillOutcome::Completed).unwrap();
    assert_eq!(msg, "llm shutdown successfully");
}

#[test]
fn unknown_identifier_everywhere() {
    let mut reg = Registry::new();
    let env = good_env();
    let r = reg.start_request(&"bogus".to_string(), Some(8000), None, NO_HANDLE, &env);
    match r {
        Err(e @ SupervisorError::UnknownProcess) => assert_eq!(e.message(), "Unknown process"),
        _ => panic!("unknown start"),
    }
    assert!(matches!(
        reg.stop_request(&"bogus".to_string()),
        Err(SupervisorError::UnknownProcess)
    ));
    assert!(matches!(
        reg.status_request(&"bogus".to_string(), NO_HANDLE),
        Err(SupervisorError::UnknownProcess)
    ));
    // No slot was touched.
    for id in [
        ProcessId::Llm,
        ProcessId::Chat,
        ProcessId::Web,
        ProcessId::Rag,
        ProcessId::Tts,
        ProcessId::Stt,
    ] {
        assert!(reg.slot(id).is_none());
    }
}

#[test]
fn spawn_failure_keeps_slot_free() {
    let mut reg = Registry::new();
    reg.start_request(&"web".to_string(), Some(8301), None, NO_HANDLE, &good_env()).unwrap();
    let r = reg.record_spawn(ProcessId::Web, SpawnOutcome::SpawnError("no such file".to_string()));
    match r {
        Err(e @ SupervisorError::SpawnFailed(ProcessId::Web, _)) => {
            assert_eq!(e.message(), "Failed to start web: no such file");
        }
        _ => panic!("spawn failure must be reported"),
    }
    assert!(reg.slot(ProcessId::Web).is_none());
}

#[test]
fn missing_backend_and_environment_errors() {
    let mut reg = Registry::new();

    let env = EnvReport {
        backend_dir_exists: false,
        user_profile: Ok("C:\\Users\\me".to_string()),
        interpreter_exists: true,
    };
    let r = reg.start_request(&"chat".to_string(), Some(9000), None, NO_HANDLE, &env);
    match r {
        Err(e @ SupervisorError::BackendNotFound) => {
            assert_eq!(
                e.message(),
                "Backend directory not found: D:\\Programming\\Projects\\Tauri\\haru\\src-tauri\\backend"
            );
        }
        _ => panic!("missing backend dir"),
    }

    let env = EnvReport {
        backend_dir_exists: true,
        user_profile: Err("environment variable not found".to_string()),
        interpreter_exists: true,
    };
    let r = reg.start_request(&"chat".to_string(), Some(9000), None, NO_HANDLE, &env);
    match r {
        Err(e @ SupervisorError::EnvVarMissing(_)) => {
            assert_eq!(
                e.message(),
                "Failed to get USERPROFILE: environment variable not found"
            );
        }
        _ => panic!("missing user profile"),
    }

    let env = EnvReport {
        backend_dir_exists: true,
        user_profile: Ok("C:\\Users\\me".to_string()),
        interpreter_exists: false,
    };
    let r = reg.start_request(&"chat".to_string(), Some(9000), None, NO_HANDLE, &env);
    match r {
        Err(e @ SupervisorError::InterpreterNotFound(_)) => {
            assert_eq!(
                e.message(),
                "Python executable not found at: C:\\Users\\me\\miniconda3\\envs\\haru\\python.exe"
            );
        }
        _ => panic!("missing interpreter"),
    }
}

#[test]
fn fresh_registry_reports_nothing_running() {
    let mut reg = Registry::new();
    for name in ["llm", "chat", "web", "rag", "tts", "stt"] {
        let running = reg.status_request(&name.to_string(), NO_HANDLE).unwrap();
        assert!(!running);
    }
}

#[test]
fn slots_are_independent() {
    let mut reg = Registry::new();
    let env = good_env();
    reg.start_request(&"rag".to_string(), Some(8801), None, NO_HANDLE, &env).unwrap();
    reg.record_spawn(ProcessId::Rag, SpawnOutcome::Spawned(1)).unwrap();
    reg.start_request(&"tts".to_string(), Some(8101), None, NO_HANDLE, &env).unwrap();
    reg.record_spawn(ProcessId::Tts, SpawnOutcome::Spawned(2)).unwrap();

    reg.stop_request(&"rag".to_string()).unwrap();
    assert!(reg.slot(ProcessId::Rag).is_none());
    assert_eq!(reg.slot(ProcessId::Tts).map(|h| h.pid), Some(2));
}
