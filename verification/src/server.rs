use vstd::prelude::*;
use crate::report::{
    ReportError, spec_decode_report, decode_report_pid, spec_pid_bytes, lemma_report_round_trip,
};

verus! {

// The server-side driver accepts one spawn request, arranges the
// reparenting preconditions, clones the spawner child and hands the two
// PIDs back. As with the spawner child, the decisions stand here; the
// process hosting the machine performs the system calls and reports each
// outcome as an event.

/// The system call a server-side failure is reported under.
#[derive(Clone, Copy, PartialEq, Eq, Structural, Debug)]
pub enum ServerCall {
    /// Turning the request's strings into native null-terminated form.
    StringConv,
    /// `pipe2` for the report pipe.
    Pipe2,
    /// `prctl(PR_SET_CHILD_SUBREAPER, 1)` on the server itself.
    Prctl,
    /// `clone` of the spawner child.
    Clone,
    /// Closing the server's copy of the pipe's write end.
    ClosePipe,
    /// The read on the report pipe.
    ReadPipe,
}

/// Why a request failed on the server side; each surfaces to the client
/// as a server-side failure carrying this diagnosis.
#[derive(Clone, Copy, PartialEq, Eq, Structural, Debug)]
pub enum ServerError {
    /// This call failed with this `errno`.
    Syscall { call: ServerCall, errno: i32 },
    /// The report pipe handed back no usable target PID.
    Report { err: ReportError },
    /// The host reported an outcome that no pending call could have.
    OutOfTurn,
}

/// The phases of one request in the server driver, in the order of the
/// preparatory steps.
#[derive(Clone, Copy, PartialEq, Eq, Structural, Debug)]
pub enum ServerPhase {
    /// Reinterpret the byte images and build the null-terminated
    /// argument and environment vectors.
    ConvertRequest,
    /// Create the report pipe, both ends close-on-exec, packet mode.
    CreatePipe,
    /// Make the server a subreaper, so that clone semantics stay
    /// predictable until the spawner has exited.
    EnableSubreaper,
    /// Clone the spawner child — without `CLONE_PARENT`: the spawner
    /// must stay a child of the server so the server can observe it.
    CloneSpawner,
    /// Close the server's copy of the pipe's write end.
    CloseWriteEnd { spawner: i32 },
    /// Read the target PID from the report pipe.
    AwaitReport { spawner: i32 },
    /// Hand both PIDs back; the server reaps neither.
    Respond { spawner: i32, target: i32 },
    /// Surface this failure to the client.
    Failed { err: ServerError },
}

/// What the host performed, or failed to perform, for the current phase.
pub enum ServerEvent {
    /// Strings and byte images converted, vectors built and
    /// null-terminated.
    RequestConverted,
    /// The report pipe exists.
    PipeCreated,
    /// The server is now a subreaper.
    SubreaperEnabled,
    /// `clone` returned this (positive) spawner PID.
    Cloned { spawner: i32 },
    /// The server's copy of the write end is closed.
    WriteEndClosed,
    /// The one read on the report pipe returned these bytes.
    ReportRead { bytes: Vec<u8> },
    /// The call of the current phase failed with this `errno`.
    CallFailed { errno: i32 },
}

/// An event the host can truthfully report: `clone` never returns a
/// nonpositive PID on success.
pub open spec fn wf_server_event(ev: ServerEvent) -> bool {
    ev matches ServerEvent::Cloned { spawner } ==> spawner > 0
}

/// A phase the machine itself can be in: the PIDs it holds are positive.
pub open spec fn wf_server_phase(phase: ServerPhase) -> bool {
    &&& phase matches ServerPhase::CloseWriteEnd { spawner } ==> spawner > 0
    &&& phase matches ServerPhase::AwaitReport { spawner } ==> spawner > 0
    &&& phase matches ServerPhase::Respond { spawner, target } ==> spawner > 0 && target > 0
}

/// The call pending in each phase, for diagnosis of its failure.
pub open spec fn spec_pending_call(phase: ServerPhase) -> ServerCall {
    match phase {
        ServerPhase::ConvertRequest => ServerCall::StringConv,
        ServerPhase::CreatePipe => ServerCall::Pipe2,
        ServerPhase::EnableSubreaper => ServerCall::Prctl,
        ServerPhase::CloneSpawner => ServerCall::Clone,
        ServerPhase::CloseWriteEnd { .. } => ServerCall::ClosePipe,
        ServerPhase::AwaitReport { .. } => ServerCall::ReadPipe,
        ServerPhase::Respond { .. } => ServerCall::ReadPipe,
        ServerPhase::Failed { .. } => ServerCall::ReadPipe,
    }
}

/// The transition relation of the server driver.
pub open spec fn spec_server_next(phase: ServerPhase, ev: ServerEvent) -> ServerPhase {
    match phase {
        ServerPhase::Respond { spawner, target } => ServerPhase::Respond { spawner, target },
        ServerPhase::Failed { err } => ServerPhase::Failed { err },
        _ => match ev {
            ServerEvent::CallFailed { errno } => ServerPhase::Failed {
                err: (ServerError::Syscall { call: spec_pending_call(phase), errno }),
            },
            ServerEvent::RequestConverted => if phase is ConvertRequest {
                ServerPhase::CreatePipe
            } else {
                ServerPhase::Failed { err: ServerError::OutOfTurn }
            },
            ServerEvent::PipeCreated => if phase is CreatePipe {
                ServerPhase::EnableSubreaper
            } else {
                ServerPhase::Failed { err: ServerError::OutOfTurn }
            },
            ServerEvent::SubreaperEnabled => if phase is EnableSubreaper {
                ServerPhase::CloneSpawner
            } else {
                ServerPhase::Failed { err: ServerError::OutOfTurn }
            },
            ServerEvent::Cloned { spawner } => if phase is CloneSpawner {
                ServerPhase::CloseWriteEnd { spawner }
            } else {
                ServerPhase::Failed { err: ServerError::OutOfTurn }
            },
            ServerEvent::WriteEndClosed => match phase {
                ServerPhase::CloseWriteEnd { spawner } => ServerPhase::AwaitReport { spawner },
                _ => ServerPhase::Failed { err: ServerError::OutOfTurn },
            },
            ServerEvent::ReportRead { bytes } => match phase {
                ServerPhase::AwaitReport { spawner } => match spec_decode_report(bytes@) {
                    Ok(target) => ServerPhase::Respond { spawner, target },
                    Err(err) => ServerPhase::Failed { err: (ServerError::Report { err }) },
                },
                _ => ServerPhase::Failed { err: ServerError::OutOfTurn },
            },
        },
    }
}

/// The phase where the driver starts on a fresh request.
pub fn server_start() -> (r: ServerPhase)
    ensures
        r == ServerPhase::ConvertRequest,
{
    ServerPhase::ConvertRequest
}

/// Advances the server driver by one reported event.
pub fn server_next(phase: ServerPhase, ev: &ServerEvent) -> (r: ServerPhase)
    ensures
        r == spec_server_next(phase, *ev),
        wf_server_phase(phase) && wf_server_event(*ev) ==> wf_server_phase(r),
{
    match phase {
        ServerPhase::Respond { spawner, target } => ServerPhase::Respond { spawner, target },
        ServerPhase::Failed { err } => ServerPhase::Failed { err },
        _ => match ev {
            ServerEvent::CallFailed { errno } => {
                let call = match phase {
                    ServerPhase::ConvertRequest => ServerCall::StringConv,
                    ServerPhase::CreatePipe => ServerCall::Pipe2,
                    ServerPhase::EnableSubreaper => ServerCall::Prctl,
                    ServerPhase::CloneSpawner => ServerCall::Clone,
                    ServerPhase::CloseWriteEnd { .. } => ServerCall::ClosePipe,
                    ServerPhase::AwaitReport { .. } => ServerCall::ReadPipe,
                    ServerPhase::Respond { .. } => ServerCall::ReadPipe,
                    ServerPhase::Failed { .. } => ServerCall::ReadPipe,
                };
                ServerPhase::Failed { err: ServerError::Syscall { call, errno: *errno } }
            },
            ServerEvent::RequestConverted => {
                if matches!(phase, ServerPhase::ConvertRequest) {
                    ServerPhase::CreatePipe
                } else {
                    ServerPhase::Failed { err: ServerError::OutOfTurn }
                }
            },
            ServerEvent::PipeCreated => {
                if matches!(phase, ServerPhase::CreatePipe) {
                    ServerPhase::EnableSubreaper
                } else {
                    ServerPhase::Failed { err: ServerError::OutOfTurn }
                }
            },
            ServerEvent::SubreaperEnabled => {
                if matches!(phase, ServerPhase::EnableSubreaper) {
                    ServerPhase::CloneSpawner
                } else {
                    ServerPhase::Failed { err: ServerError::OutOfTurn }
                }
            },
            ServerEvent::Cloned { spawner } => {
                if matches!(phase, ServerPhase::CloneSpawner) {
                    ServerPhase::CloseWriteEnd { spawner: *spawner }
                } else {
                    ServerPhase::Failed { err: ServerError::OutOfTurn }
                }
            },
            ServerEvent::WriteEndClosed => {
                match phase {
                    ServerPhase::CloseWriteEnd { spawner } => ServerPhase::AwaitReport { spawner },
                    _ => ServerPhase::Failed { err: ServerError::OutOfTurn },
                }
            },
            ServerEvent::ReportRead { bytes } => {
                match phase {
                    ServerPhase::AwaitReport { spawner } => {
                        match decode_report_pid(bytes) {
                            Ok(target) => ServerPhase::Respond { spawner, target },
                            Err(err) => ServerPhase::Failed {
                                err: ServerError::Report { err },
                            },
                        }
                    },
                    _ => ServerPhase::Failed { err: ServerError::OutOfTurn },
                }
            },
        },
    }
}

/// Law (response comes from the report): the driver responds only with a
/// target PID that the one read on the report pipe decoded — so the
/// spawner's write of that PID happened before the server's reply, and
/// the spawner's exit is at most imminent when the client learns the
/// PIDs.
pub proof fn lemma_response_is_reported_pid(phase: ServerPhase, ev: ServerEvent)
    ensures
        spec_server_next(phase, ev) matches ServerPhase::Respond { spawner, target } ==> ((phase
            == (ServerPhase::Respond { spawner, target })) || (ev
            matches ServerEvent::ReportRead { bytes } && phase == (ServerPhase::AwaitReport {
            spawner,
        }) && spec_decode_report(bytes@) == Ok::<i32, ReportError>(target))),
{
}

/// Law (PIDs handed back are positive): from a well-formed run the
/// driver can only respond with a positive spawner PID and a positive
/// target PID — either being otherwise is a protocol error and never
/// reaches a response.
pub proof fn lemma_response_pids_positive(phase: ServerPhase, ev: ServerEvent)
    requires
        wf_server_phase(phase),
        wf_server_event(ev),
    ensures
        spec_server_next(phase, ev) matches ServerPhase::Respond { spawner, target } ==> spawner
            > 0 && target > 0,
{
}

/// Law (reap duality, server side): once the spawner has written the
/// report for its target PID and the one read returns those bytes, the
/// driver responds with exactly that spawner and that target. The write
/// happens before the response, so by the time the client reaps, the
/// spawner's exit is at most imminent and the target it reports exists.
pub proof fn lemma_report_agreement(spawner: i32, target: i32, bytes: Vec<u8>)
    requires
        target > 0,
        bytes@ == spec_pid_bytes(target),
    ensures
        spec_server_next(
            (ServerPhase::AwaitReport { spawner }),
            (ServerEvent::ReportRead { bytes }),
        ) == (ServerPhase::Respond { spawner, target }),
{
    lemma_report_round_trip(target);
}

} // verus!
