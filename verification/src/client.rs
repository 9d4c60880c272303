use vstd::prelude::*;
use crate::spawner::{SpawnerPhase, SpawnerEvent, spec_spawner_next, SPAWNER_EXIT_OK};

verus! {

// The client driver sends the request, accepts or rejects what came
// back, reaps the spawner, and hands the target PID to its caller. The
// transport does the sending; every judgment stands here.

/// Why a remote spawn failed, as the client library reports it.
#[derive(Clone, Copy, PartialEq, Eq, Structural, Debug)]
pub enum SpawnClientError {
    /// The request never reached the server.
    SendFailed,
    /// The server rejected the request's format (an HTTP client-error
    /// status).
    RequestRejected { status: u16 },
    /// The server failed to perform the spawn (any other non-success
    /// status).
    ServerFailed { status: u16 },
    /// The response body was not the expected PID pair.
    BadResponseBody,
    /// The response carried a PID no process can have.
    NonPositivePid { spawner: i32, target: i32 },
    /// `waitpid` on the spawner failed with this `errno`.
    SpawnerWaitFailed { errno: i32 },
    /// The spawner exited with this nonzero code: the target, if it was
    /// created at all, is dangling.
    SpawnerFailed { code: i32 },
    /// The spawner did not exit at all; some other wait status came.
    SpawnerNotExited,
}

/// What the client's blocking `waitpid` on the spawner reported.
#[derive(Clone, Copy, PartialEq, Eq, Structural, Debug)]
pub enum WaitOutcome {
    /// The process exited normally with this code.
    Exited { pid: i32, code: i32 },
    /// Any other wait status (signalled, stopped, continued).
    OtherStatus,
    /// The wait itself failed with this `errno` — `ECHILD` here is the
    /// signature of a server that was not started under the client, so
    /// nothing reparented to it.
    WaitFailed { errno: i32 },
}

/// The judgment of the transport's reply: an HTTP success status with a
/// positive PID pair is accepted; a client-error status is the server
/// rejecting the request; any other status is a server-side failure; a
/// nonpositive PID is a protocol error.
pub open spec fn spec_accept_reply(status: u16, spawner: i32, target: i32) -> Result<
    (i32, i32),
    SpawnClientError,
> {
    if 400 <= status && status < 500 {
        Err((SpawnClientError::RequestRejected { status }))
    } else if !(200 <= status && status < 300) {
        Err((SpawnClientError::ServerFailed { status }))
    } else if spawner <= 0 || target <= 0 {
        Err((SpawnClientError::NonPositivePid { spawner, target }))
    } else {
        Ok((spawner, target))
    }
}

/// Judges the HTTP status and the PID pair of the server's reply.
pub fn accept_reply(status: u16, spawner: i32, target: i32) -> (r: Result<
    (i32, i32),
    SpawnClientError,
>)
    ensures
        r == spec_accept_reply(status, spawner, target),
        r matches Ok(pair) ==> pair.0 == spawner && pair.1 == target && spawner > 0 && target > 0,
{
    if 400 <= status && status < 500 {
        Err(SpawnClientError::RequestRejected { status })
    } else if !(200 <= status && status < 300) {
        Err(SpawnClientError::ServerFailed { status })
    } else if spawner <= 0 || target <= 0 {
        Err(SpawnClientError::NonPositivePid { spawner, target })
    } else {
        Ok((spawner, target))
    }
}

/// The judgment of the spawner's wait status: a normal exit with code 0
/// releases the target PID to the caller; a nonzero exit means the
/// spawn failed server-side and the target is unusable; anything else is
/// surfaced as the corresponding error.
pub open spec fn spec_interpret_wait(w: WaitOutcome, target: i32) -> Result<
    i32,
    SpawnClientError,
> {
    match w {
        WaitOutcome::Exited { pid, code } => if code == 0 {
            Ok(target)
        } else {
            Err((SpawnClientError::SpawnerFailed { code }))
        },
        WaitOutcome::OtherStatus => Err(SpawnClientError::SpawnerNotExited),
        WaitOutcome::WaitFailed { errno } => Err((SpawnClientError::SpawnerWaitFailed { errno })),
    }
}

/// Judges what the blocking `waitpid` on the spawner reported, releasing
/// the target PID only on the spawner's clean exit.
pub fn interpret_spawner_wait(w: &WaitOutcome, target: i32) -> (r: Result<i32, SpawnClientError>)
    ensures
        r == spec_interpret_wait(*w, target),
        r matches Ok(t) ==> (t == target && (w matches WaitOutcome::Exited { pid, code } && code
            == 0)),
{
    match w {
        WaitOutcome::Exited { pid: _, code } => {
            if *code == 0 {
                Ok(target)
            } else {
                Err(SpawnClientError::SpawnerFailed { code: *code })
            }
        },
        WaitOutcome::OtherStatus => Err(SpawnClientError::SpawnerNotExited),
        WaitOutcome::WaitFailed { errno } => Err(SpawnClientError::SpawnerWaitFailed {
            errno: *errno,
        }),
    }
}

/// Law (error surface): when the spawn primitive fails in the spawner —
/// or hands back a PID no process can have — the spawner exits nonzero,
/// and the client's judgment of that exit is an error, never a target
/// PID.
pub proof fn lemma_error_surface(ev: SpawnerEvent, pid: i32, target: i32)
    requires
        ev matches SpawnerEvent::SyscallFailed { .. } || (ev matches SpawnerEvent::Spawned {
            target: t,
        } && t <= 0),
    ensures
        spec_spawner_next(SpawnerPhase::RunSpawn, ev) matches SpawnerPhase::Exited { code }
            && code != SPAWNER_EXIT_OK && spec_interpret_wait(
            (WaitOutcome::Exited { pid, code }),
            target,
        ) == Err::<i32, SpawnClientError>((SpawnClientError::SpawnerFailed { code })),
{
}

/// Law (reap duality): for a request whose spawner reported target `t`
/// and exited cleanly: the spawner's machine ends at exit code 0 only
/// through that report; a server that read the report whole responds
/// with exactly `(s, t)`; and the client's judgment of the clean exit it
/// reaps on `s` releases exactly `t` — the target, reparented to the
/// client, is then the client's own child to reap in turn.
pub proof fn lemma_reap_duality(spawner: i32, target: i32, bytes: Vec<u8>)
    requires
        target > 0,
        bytes@ == crate::report::spec_pid_bytes(target),
    ensures
        spec_spawner_next((SpawnerPhase::ReportPid { target }), SpawnerEvent::PidReported) == (
        SpawnerPhase::Exited { code: SPAWNER_EXIT_OK }),
        crate::server::spec_server_next(
            (crate::server::ServerPhase::AwaitReport { spawner }),
            (crate::server::ServerEvent::ReportRead { bytes }),
        ) == (crate::server::ServerPhase::Respond { spawner, target }),
        spec_interpret_wait((WaitOutcome::Exited { pid: spawner, code: SPAWNER_EXIT_OK }), target)
            == Ok::<i32, SpawnClientError>(target),
{
    crate::server::lemma_report_agreement(spawner, target, bytes);
}

} // verus!
