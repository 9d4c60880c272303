use spawn_server::client::{accept_reply, interpret_spawner_wait, SpawnClientError, WaitOutcome};
use spawn_server::fdops::{build_spawner_plan, FileAction};
use spawn_server::reparent::{find_new_parent, Ancestor, INIT_PID};
use spawn_server::report::{encode_report_pid, ReportError};
use spawn_server::server::{
    server_next, server_start, ServerCall, ServerError, ServerEvent, ServerPhase,
};
use spawn_server::spawner::{
    spawner_action, spawner_next, spawner_start, SpawnerAction, SpawnerEvent, SpawnerPhase,
    SPAWNER_EXIT_BAD_ACTION, SPAWNER_EXIT_OK, SPAWNER_EXIT_PROTOCOL, SPAWNER_EXIT_SPAWN,
    SPAWNER_EXIT_SYSCALL,
};

#[test]
fn test_spawner_happy_path() {
    let actions = vec![FileAction::Dup2 { src: 5, dst: 1 }];
    let phase = spawner_start();
    assert_eq!(phase, SpawnerPhase::AcquireClientPidfd);
    match spawner_action(&phase, 4321, true, &actions) {
        SpawnerAction::OpenClientPidfd { client_pid } => assert_eq!(client_pid, 4321),
        _ => panic!("expected the pidfd acquisition"),
    }

    let phase = spawner_next(phase, SpawnerEvent::PidfdOpened);
    assert_eq!(phase, SpawnerPhase::TransplantAndPreplace);
    match spawner_action(&phase, 4321, true, &actions) {
        SpawnerAction::ApplyPlan { ops } => assert_eq!(ops, build_spawner_plan(&actions)),
        _ => panic!("expected the local plan"),
    }

    let phase = spawner_next(phase, SpawnerEvent::PlanApplied);
    assert_eq!(phase, SpawnerPhase::RunSpawn);
    match spawner_action(&phase, 4321, true, &actions) {
        SpawnerAction::Spawn { search_path } => assert!(search_path),
        _ => panic!("expected the spawn"),
    }

    let phase = spawner_next(phase, SpawnerEvent::Spawned { target: 4242 });
    assert_eq!(phase, SpawnerPhase::ReportPid { target: 4242 });
    match spawner_action(&phase, 4321, true, &actions) {
        SpawnerAction::WriteReport { bytes } => assert_eq!(bytes, encode_report_pid(4242)),
        _ => panic!("expected the report write"),
    }

    let phase = spawner_next(phase, SpawnerEvent::PidReported);
    assert_eq!(phase, SpawnerPhase::Exited { code: SPAWNER_EXIT_OK });
}

#[test]
fn test_spawner_routes_literal_path_variant() {
    let actions = Vec::new();
    match spawner_action(&SpawnerPhase::RunSpawn, 1, false, &actions) {
        SpawnerAction::Spawn { search_path } => assert!(!search_path),
        _ => panic!("expected the spawn"),
    }
}

#[test]
fn test_spawner_pidfd_denied_exits_syscall() {
    // The server cannot ptrace the client: pidfd_open fails with EPERM
    // and no spawn happens.
    let phase = spawner_next(spawner_start(), SpawnerEvent::SyscallFailed { errno: 1 });
    assert_eq!(phase, SpawnerPhase::Exited { code: SPAWNER_EXIT_SYSCALL });
    assert_ne!(SPAWNER_EXIT_SYSCALL, 0);
}

#[test]
fn test_spawner_spawn_failure_exits_nonzero() {
    // The executable does not exist: the spawn primitive fails and the
    // spawner exits nonzero.
    let phase = spawner_next(SpawnerPhase::RunSpawn, SpawnerEvent::SyscallFailed { errno: 2 });
    assert_eq!(phase, SpawnerPhase::Exited { code: SPAWNER_EXIT_SPAWN });
    assert_ne!(SPAWNER_EXIT_SPAWN, 0);
}

#[test]
fn test_spawner_nonpositive_target_exits_nonzero() {
    let phase = spawner_next(SpawnerPhase::RunSpawn, SpawnerEvent::Spawned { target: 0 });
    assert_eq!(phase, SpawnerPhase::Exited { code: SPAWNER_EXIT_SPAWN });
}

#[test]
fn test_spawner_bad_action_exits_distinctively() {
    let phase = spawner_next(
        SpawnerPhase::TransplantAndPreplace,
        SpawnerEvent::BadAction { cmd: 7 },
    );
    assert_eq!(phase, SpawnerPhase::Exited { code: SPAWNER_EXIT_BAD_ACTION });
}

#[test]
fn test_spawner_short_write_is_protocol_error() {
    let phase = spawner_next(SpawnerPhase::ReportPid { target: 5 }, SpawnerEvent::ShortWrite);
    assert_eq!(phase, SpawnerPhase::Exited { code: SPAWNER_EXIT_PROTOCOL });
}

#[test]
fn test_server_happy_path() {
    let phase = server_start();
    assert_eq!(phase, ServerPhase::ConvertRequest);
    let phase = server_next(phase, &ServerEvent::RequestConverted);
    assert_eq!(phase, ServerPhase::CreatePipe);
    let phase = server_next(phase, &ServerEvent::PipeCreated);
    assert_eq!(phase, ServerPhase::EnableSubreaper);
    let phase = server_next(phase, &ServerEvent::SubreaperEnabled);
    assert_eq!(phase, ServerPhase::CloneSpawner);
    let phase = server_next(phase, &ServerEvent::Cloned { spawner: 55 });
    assert_eq!(phase, ServerPhase::CloseWriteEnd { spawner: 55 });
    let phase = server_next(phase, &ServerEvent::WriteEndClosed);
    assert_eq!(phase, ServerPhase::AwaitReport { spawner: 55 });
    let phase = server_next(phase, &ServerEvent::ReportRead { bytes: encode_report_pid(777) });
    assert_eq!(phase, ServerPhase::Respond { spawner: 55, target: 777 });
}

#[test]
fn test_server_distinct_requests_distinct_targets() {
    // Two concurrent requests run two independent drivers; each responds
    // with the PID its own spawner reported.
    let a = server_next(
        ServerPhase::AwaitReport { spawner: 10 },
        &ServerEvent::ReportRead { bytes: encode_report_pid(111) },
    );
    let b = server_next(
        ServerPhase::AwaitReport { spawner: 11 },
        &ServerEvent::ReportRead { bytes: encode_report_pid(222) },
    );
    assert_eq!(a, ServerPhase::Respond { spawner: 10, target: 111 });
    assert_eq!(b, ServerPhase::Respond { spawner: 11, target: 222 });
}

#[test]
fn test_server_pipe_failure_is_diagnosed() {
    let phase = server_next(ServerPhase::CreatePipe, &ServerEvent::CallFailed { errno: 24 });
    assert_eq!(
        phase,
        ServerPhase::Failed { err: ServerError::Syscall { call: ServerCall::Pipe2, errno: 24 } }
    );
}

#[test]
fn test_server_clone_failure_is_diagnosed() {
    let phase = server_next(ServerPhase::CloneSpawner, &ServerEvent::CallFailed { errno: 11 });
    assert_eq!(
        phase,
        ServerPhase::Failed { err: ServerError::Syscall { call: ServerCall::Clone, errno: 11 } }
    );
}

#[test]
fn test_server_short_report_is_protocol_violation() {
    let phase = server_next(
        ServerPhase::AwaitReport { spawner: 8 },
        &ServerEvent::ReportRead { bytes: vec![7, 0] },
    );
    assert_eq!(
        phase,
        ServerPhase::Failed {
            err: ServerError::Report { err: ReportError::WrongLength { got: 2 } },
        }
    );
}

#[test]
fn test_server_out_of_turn_event_fails() {
    let phase = server_next(ServerPhase::CreatePipe, &ServerEvent::WriteEndClosed);
    assert_eq!(phase, ServerPhase::Failed { err: ServerError::OutOfTurn });
}

#[test]
fn test_spawner_out_of_turn_event_is_protocol_error() {
    let phase = spawner_next(SpawnerPhase::AcquireClientPidfd, SpawnerEvent::PlanApplied);
    assert_eq!(phase, SpawnerPhase::Exited { code: SPAWNER_EXIT_PROTOCOL });
}

#[test]
fn test_accept_reply_success() {
    assert_eq!(accept_reply(200, 55, 777), Ok((55, 777)));
}

#[test]
fn test_accept_reply_client_error_status() {
    assert_eq!(
        accept_reply(400, 0, 0),
        Err(SpawnClientError::RequestRejected { status: 400 })
    );
}

#[test]
fn test_accept_reply_server_error_status() {
    // The server could not ptrace the client and answered with a
    // server-side failure; no target was created.
    assert_eq!(accept_reply(500, 0, 0), Err(SpawnClientError::ServerFailed { status: 500 }));
}

#[test]
fn test_accept_reply_nonpositive_pid() {
    assert_eq!(
        accept_reply(200, 55, 0),
        Err(SpawnClientError::NonPositivePid { spawner: 55, target: 0 })
    );
}

#[test]
fn test_interpret_wait_clean_exit_releases_target() {
    let w = WaitOutcome::Exited { pid: 55, code: 0 };
    assert_eq!(interpret_spawner_wait(&w, 777), Ok(777));
}

#[test]
fn test_interpret_wait_nonzero_exit_is_error() {
    let w = WaitOutcome::Exited { pid: 55, code: SPAWNER_EXIT_SPAWN };
    assert_eq!(
        interpret_spawner_wait(&w, 777),
        Err(SpawnClientError::SpawnerFailed { code: SPAWNER_EXIT_SPAWN })
    );
}

#[test]
fn test_interpret_wait_echild_is_error() {
    // ECHILD from waitpid: the spawn server was not a descendant of the
    // client, so nothing reparented to the client.
    let w = WaitOutcome::WaitFailed { errno: 10 };
    assert_eq!(
        interpret_spawner_wait(&w, 777),
        Err(SpawnClientError::SpawnerWaitFailed { errno: 10 })
    );
}

#[test]
fn test_interpret_wait_other_status_is_error() {
    assert_eq!(
        interpret_spawner_wait(&WaitOutcome::OtherStatus, 777),
        Err(SpawnClientError::SpawnerNotExited)
    );
}

#[test]
fn test_reparents_to_subreaper_client() {
    // The spawner died; the target's remaining ancestors are the server
    // (no subreaper) and then the client, which enabled the
    // child-subreaper property before the request.
    let chain = vec![
        Ancestor { pid: 300, alive: true, subreaper: false },
        Ancestor { pid: 200, alive: true, subreaper: true },
        Ancestor { pid: 1, alive: true, subreaper: false },
    ];
    assert_eq!(find_new_parent(&chain), 200);
}

#[test]
fn test_reparent_skips_dead_subreaper() {
    let chain = vec![
        Ancestor { pid: 300, alive: false, subreaper: true },
        Ancestor { pid: 200, alive: true, subreaper: true },
    ];
    assert_eq!(find_new_parent(&chain), 200);
}

#[test]
fn test_orphan_falls_to_init_without_subreaper() {
    // The misconfigured deployment: the server was started independently
    // of the client, so no ancestor takes orphans and the target falls
    // to init; the client's wait for it can only fail with ECHILD.
    let chain = vec![
        Ancestor { pid: 300, alive: true, subreaper: false },
        Ancestor { pid: 250, alive: true, subreaper: false },
    ];
    assert_eq!(find_new_parent(&chain), INIT_PID);
    assert_eq!(find_new_parent(&Vec::new()), INIT_PID);
}
