use spawn_server::fdops::{
    decode_fdop, plan_for_action, stdio_transplant_plan, build_spawner_plan, FileAction,
    FdopError, RawFdop, SpawnerOp, FDOP_CLOSE, FDOP_DUP2, FDOP_OPEN,
};
use spawn_server::report::{decode_report_pid, encode_report_pid, ReportError, PID_WIRE_SIZE};
use spawn_server::request::{
    validate_request, ApiPosixSpawnArgs, RequestError, FILE_ACTIONS_IMAGE_SIZE,
    SPAWN_ATTRS_IMAGE_SIZE,
};
use spawn_server::{
    command_result_tuple, get_spawner_url, server_identity_document, Command, CommandResponse,
    RemoteCallOutcome,
};

fn raw(cmd: i32, fd: i32, srcfd: i32) -> RawFdop {
    RawFdop { cmd, fd, srcfd, oflag: 0, mode: 0 }
}

#[test]
fn test_decode_fdop_close() {
    let r = decode_fdop(&raw(FDOP_CLOSE, 7, 0));
    assert_eq!(r, Ok(FileAction::Close { fd: 7 }));
}

#[test]
fn test_decode_fdop_dup2() {
    let r = decode_fdop(&raw(FDOP_DUP2, 1, 5));
    assert_eq!(r, Ok(FileAction::Dup2 { src: 5, dst: 1 }));
}

#[test]
fn test_decode_fdop_open() {
    let r = decode_fdop(&RawFdop { cmd: FDOP_OPEN, fd: 3, srcfd: 0, oflag: 577, mode: 420 });
    assert_eq!(r, Ok(FileAction::Open { fd: 3, oflag: 577, mode: 420 }));
}

#[test]
fn test_decode_fdop_invalid_cmd() {
    let r = decode_fdop(&raw(9, 1, 1));
    assert_eq!(r, Err(FdopError::InvalidCmd { cmd: 9 }));
}

#[test]
fn test_plan_close_std_closes_locally() {
    let ops = plan_for_action(&FileAction::Close { fd: 1 });
    assert_eq!(ops, vec![SpawnerOp::CloseLocal { fd: 1 }]);
}

#[test]
fn test_plan_close_nonstd_is_noop() {
    let ops = plan_for_action(&FileAction::Close { fd: 9 });
    assert!(ops.is_empty());
}

#[test]
fn test_plan_open_is_noop() {
    let ops = plan_for_action(&FileAction::Open { fd: 4, oflag: 0, mode: 0 });
    assert!(ops.is_empty());
}

#[test]
fn test_plan_dup2_transplants() {
    // A DUP2 from client fd 5 onto target fd 1: the spawner pre-places
    // the client's open file at slot 1.
    let ops = plan_for_action(&FileAction::Dup2 { src: 5, dst: 1 });
    assert_eq!(ops, vec![SpawnerOp::TransplantFromClient { src: 5, dst: 1 }]);
}

#[test]
fn test_stdio_plan_uses_three_distinct_reserved_fds() {
    let ops = stdio_transplant_plan();
    let expected = vec![
        SpawnerOp::DupLocal { src: 0, dst: 1000 },
        SpawnerOp::CloseLocal { fd: 0 },
        SpawnerOp::TransplantFromClient { src: 0, dst: 0 },
        SpawnerOp::DupLocal { src: 1, dst: 1001 },
        SpawnerOp::CloseLocal { fd: 1 },
        SpawnerOp::TransplantFromClient { src: 1, dst: 1 },
        SpawnerOp::DupLocal { src: 2, dst: 1002 },
        SpawnerOp::CloseLocal { fd: 2 },
        SpawnerOp::TransplantFromClient { src: 2, dst: 2 },
    ];
    assert_eq!(ops, expected);
}

#[test]
fn test_spawner_plan_appends_action_plans() {
    let actions = vec![
        FileAction::Close { fd: 9 },
        FileAction::Dup2 { src: 5, dst: 7 },
        FileAction::Close { fd: 2 },
    ];
    let ops = build_spawner_plan(&actions);
    let mut expected = stdio_transplant_plan();
    expected.push(SpawnerOp::TransplantFromClient { src: 5, dst: 7 });
    expected.push(SpawnerOp::CloseLocal { fd: 2 });
    assert_eq!(ops, expected);
}

#[test]
fn test_report_round_trip() {
    let bytes = encode_report_pid(12345);
    assert_eq!(bytes.len(), PID_WIRE_SIZE);
    assert_eq!(decode_report_pid(&bytes), Ok(12345));
    let bytes = encode_report_pid(1);
    assert_eq!(decode_report_pid(&bytes), Ok(1));
    let bytes = encode_report_pid(4194304);
    assert_eq!(decode_report_pid(&bytes), Ok(4194304));
    assert_eq!(decode_report_pid(&vec![0x39, 0x30, 0, 0]), Ok(12345));
}

#[test]
fn test_report_short_read_is_error() {
    assert_eq!(
        decode_report_pid(&vec![1, 2, 3]),
        Err(ReportError::WrongLength { got: 3 })
    );
    assert_eq!(decode_report_pid(&Vec::new()), Err(ReportError::WrongLength { got: 0 }));
}

#[test]
fn test_report_nonpositive_pid_is_error() {
    assert_eq!(
        decode_report_pid(&vec![0, 0, 0, 0]),
        Err(ReportError::BadPid { value: 0 })
    );
    assert_eq!(
        decode_report_pid(&vec![0, 0, 0, 0x80]),
        Err(ReportError::BadPid { value: 0x8000_0000 })
    );
}

fn good_request() -> ApiPosixSpawnArgs {
    ApiPosixSpawnArgs {
        executable: "/usr/bin/cat".to_string(),
        file_actions: vec![0u8; FILE_ACTIONS_IMAGE_SIZE],
        spawn_attrs: vec![0u8; SPAWN_ATTRS_IMAGE_SIZE],
        argv: vec!["cat".to_string(), "/etc/hosts".to_string()],
        envp: Vec::new(),
        search_path: true,
        client_pid: 4321,
    }
}

#[test]
fn test_validate_request_accepts_well_formed() {
    assert_eq!(validate_request(&good_request()), Ok(()));
}

#[test]
fn test_validate_request_accepts_env_entries() {
    let mut r = good_request();
    r.executable = "printenv".to_string();
    r.argv = vec!["printenv".to_string()];
    r.envp = vec!["FOO=BAR".to_string()];
    assert_eq!(validate_request(&r), Ok(()));
}

#[test]
fn test_validate_request_rejects_bad_file_actions_len() {
    let mut r = good_request();
    r.file_actions = Vec::new();
    assert_eq!(validate_request(&r), Err(RequestError::BadFileActionsLen { len: 0 }));
}

#[test]
fn test_validate_request_rejects_bad_spawn_attrs_len() {
    let mut r = good_request();
    r.spawn_attrs = vec![0u8; 16];
    assert_eq!(validate_request(&r), Err(RequestError::BadSpawnAttrsLen { len: 16 }));
}

#[test]
fn test_validate_request_rejects_nonpositive_pid() {
    let mut r = good_request();
    r.client_pid = 0;
    assert_eq!(validate_request(&r), Err(RequestError::BadClientPid { pid: 0 }));
}

#[test]
fn test_get_spawner_url() {
    assert_eq!(get_spawner_url(), "http://localhost:8099/command");
}

#[test]
fn test_server_identity_document() {
    assert_eq!(
        server_identity_document(),
        "{\"server\": \"spawn_server\", \"version\": \"0.1.0\"}"
    );
}

#[test]
fn test_command_result_tuple_completed() {
    let outcome = RemoteCallOutcome::Completed {
        response: CommandResponse {
            code: 3,
            stdout: "out".to_string(),
            stderr: "err".to_string(),
        },
    };
    let (code, stdout, stderr) = command_result_tuple(outcome);
    assert_eq!(code, 3);
    assert_eq!(stdout, "out");
    assert_eq!(stderr, "err");
}

#[test]
fn test_command_result_tuple_failed_status() {
    let (code, stdout, stderr) = command_result_tuple(RemoteCallOutcome::FailedStatus);
    assert_eq!(code, -2);
    assert_eq!(stdout, "");
    assert_eq!(stderr, "No Success Error (ERROR 8192-173-10620)");
}

#[test]
fn test_command_result_tuple_send_failed() {
    let (code, stdout, stderr) = command_result_tuple(RemoteCallOutcome::SendFailed);
    assert_eq!(code, -1);
    assert_eq!(stdout, "");
    assert_eq!(stderr, "RPC Error  (ERROR 67132-2323-78224)");
}

#[test]
fn test_defaults() {
    let c = Command::default();
    assert_eq!(c.command, "");
    let r = CommandResponse::default();
    assert_eq!(r.code, 0);
    assert_eq!(r.stdout, "");
    assert_eq!(r.stderr, "");
}
