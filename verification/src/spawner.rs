use vstd::prelude::*;
use crate::fdops::{FileAction, SpawnerOp, spawner_plan, build_spawner_plan};
use crate::report::{spec_pid_bytes, encode_report_pid, PID_WIRE_SIZE};

verus! {

// The spawner child is the transient process the server clones so that a
// POSIX spawn can run in it and it can die, orphaning the target towards
// the client. Everything it does between `clone` and `exit` is a fixed
// choreography of system calls; the choreography is decided here, one
// phase at a time, while the calls themselves are performed by the
// process that hosts the machine and reported back as events.

/// The spawner exits with this code after the target PID went out whole.
pub const SPAWNER_EXIT_OK: i32 = 0;
/// A system call of the choreography failed before the spawn itself.
pub const SPAWNER_EXIT_SYSCALL: i32 = 101;
/// The spawn primitive failed, or handed back a PID no process can have.
pub const SPAWNER_EXIT_SPAWN: i32 = 102;
/// The report-pipe write did not transfer the PID whole.
pub const SPAWNER_EXIT_PROTOCOL: i32 = 103;
/// A file-actions node held a command code that names no action.
pub const SPAWNER_EXIT_BAD_ACTION: i32 = 104;

/// The phases of the spawner child, in the order it passes them.
#[derive(Clone, Copy, PartialEq, Eq, Structural, Debug)]
pub enum SpawnerPhase {
    /// Obtain a process descriptor for the client with `pidfd_open`.
    AcquireClientPidfd,
    /// Run the local plan: transplant the standard streams from the
    /// client, then pre-place the file actions.
    TransplantAndPreplace,
    /// Invoke the spawn primitive.
    RunSpawn,
    /// Write the target PID to the report pipe.
    ReportPid { target: i32 },
    /// Return from the clone entry with this exit code.
    Exited { code: i32 },
}

/// What the host performed, or failed to perform, for the current phase.
#[derive(Clone, Copy, PartialEq, Eq, Structural, Debug)]
pub enum SpawnerEvent {
    /// `pidfd_open` on the client succeeded.
    PidfdOpened,
    /// Every operation of the local plan succeeded.
    PlanApplied,
    /// The spawn primitive returned this PID.
    Spawned { target: i32 },
    /// The report write transferred all `PID_WIRE_SIZE` bytes.
    PidReported,
    /// A system call failed with this `errno`.
    SyscallFailed { errno: i32 },
    /// The report write transferred fewer bytes than the whole PID.
    ShortWrite,
    /// A file-actions node held this unknown command code.
    BadAction { cmd: i32 },
}

/// What the host must do next.
pub enum SpawnerAction {
    /// `pidfd_open(client_pid, 0)`.
    OpenClientPidfd { client_pid: i32 },
    /// Perform these local descriptor operations, first to last.
    ApplyPlan { ops: Vec<SpawnerOp> },
    /// Invoke the spawn primitive: the path-searching variant when
    /// `search_path` is set, the literal-path variant otherwise.
    Spawn { search_path: bool },
    /// Write exactly these bytes to the report pipe, after closing the
    /// pipe's read end.
    WriteReport { bytes: Vec<u8> },
    /// Return this code from the clone entry.
    Exit { code: i32 },
}

/// A phase the machine itself can be in: a PID to report is positive.
pub open spec fn wf_spawner_phase(phase: SpawnerPhase) -> bool {
    phase matches SpawnerPhase::ReportPid { target } ==> target > 0
}

/// The transition relation of the spawner child: where each phase goes
/// on each report of the host.
pub open spec fn spec_spawner_next(phase: SpawnerPhase, ev: SpawnerEvent) -> SpawnerPhase {
    match phase {
        SpawnerPhase::Exited { code } => SpawnerPhase::Exited { code },
        _ => match ev {
            SpawnerEvent::SyscallFailed { errno } => SpawnerPhase::Exited {
                code: if phase is RunSpawn {
                    SPAWNER_EXIT_SPAWN
                } else {
                    SPAWNER_EXIT_SYSCALL
                },
            },
            SpawnerEvent::ShortWrite => SpawnerPhase::Exited { code: SPAWNER_EXIT_PROTOCOL },
            SpawnerEvent::BadAction { .. } => SpawnerPhase::Exited {
                code: SPAWNER_EXIT_BAD_ACTION,
            },
            SpawnerEvent::PidfdOpened => if phase is AcquireClientPidfd {
                SpawnerPhase::TransplantAndPreplace
            } else {
                SpawnerPhase::Exited { code: SPAWNER_EXIT_PROTOCOL }
            },
            SpawnerEvent::PlanApplied => if phase is TransplantAndPreplace {
                SpawnerPhase::RunSpawn
            } else {
                SpawnerPhase::Exited { code: SPAWNER_EXIT_PROTOCOL }
            },
            SpawnerEvent::Spawned { target } => if phase is RunSpawn {
                if target > 0 {
                    SpawnerPhase::ReportPid { target }
                } else {
                    SpawnerPhase::Exited { code: SPAWNER_EXIT_SPAWN }
                }
            } else {
                SpawnerPhase::Exited { code: SPAWNER_EXIT_PROTOCOL }
            },
            SpawnerEvent::PidReported => if phase matches SpawnerPhase::ReportPid { target } {
                SpawnerPhase::Exited { code: SPAWNER_EXIT_OK }
            } else {
                SpawnerPhase::Exited { code: SPAWNER_EXIT_PROTOCOL }
            },
        },
    }
}

/// The phase where the spawner child starts.
pub fn spawner_start() -> (r: SpawnerPhase)
    ensures
        r == SpawnerPhase::AcquireClientPidfd,
{
    SpawnerPhase::AcquireClientPidfd
}

/// Advances the spawner child by one reported event.
pub fn spawner_next(phase: SpawnerPhase, ev: SpawnerEvent) -> (r: SpawnerPhase)
    ensures
        r == spec_spawner_next(phase, ev),
        wf_spawner_phase(phase) ==> wf_spawner_phase(r),
{
    match phase {
        SpawnerPhase::Exited { code } => SpawnerPhase::Exited { code },
        _ => match ev {
            SpawnerEvent::SyscallFailed { errno: _ } => SpawnerPhase::Exited {
                code: if matches!(phase, SpawnerPhase::RunSpawn) {
                    SPAWNER_EXIT_SPAWN
                } else {
                    SPAWNER_EXIT_SYSCALL
                },
            },
            SpawnerEvent::ShortWrite => SpawnerPhase::Exited { code: SPAWNER_EXIT_PROTOCOL },
            SpawnerEvent::BadAction { .. } => SpawnerPhase::Exited {
                code: SPAWNER_EXIT_BAD_ACTION,
            },
            SpawnerEvent::PidfdOpened => {
                if matches!(phase, SpawnerPhase::AcquireClientPidfd) {
                    SpawnerPhase::TransplantAndPreplace
                } else {
                    SpawnerPhase::Exited { code: SPAWNER_EXIT_PROTOCOL }
                }
            },
            SpawnerEvent::PlanApplied => {
                if matches!(phase, SpawnerPhase::TransplantAndPreplace) {
                    SpawnerPhase::RunSpawn
                } else {
                    SpawnerPhase::Exited { code: SPAWNER_EXIT_PROTOCOL }
                }
            },
            SpawnerEvent::Spawned { target } => {
                if matches!(phase, SpawnerPhase::RunSpawn) {
                    if target > 0 {
                        SpawnerPhase::ReportPid { target }
                    } else {
                        SpawnerPhase::Exited { code: SPAWNER_EXIT_SPAWN }
                    }
                } else {
                    SpawnerPhase::Exited { code: SPAWNER_EXIT_PROTOCOL }
                }
            },
            SpawnerEvent::PidReported => {
                if matches!(phase, SpawnerPhase::ReportPid { .. }) {
                    SpawnerPhase::Exited { code: SPAWNER_EXIT_OK }
                } else {
                    SpawnerPhase::Exited { code: SPAWNER_EXIT_PROTOCOL }
                }
            },
        },
    }
}

/// What the spawner child does in its current phase, for the request's
/// client PID, spawn-variant selector and decoded file actions.
pub fn spawner_action(
    phase: &SpawnerPhase,
    client_pid: i32,
    search_path: bool,
    actions: &Vec<FileAction>,
) -> (r: SpawnerAction)
    requires
        wf_spawner_phase(*phase),
    ensures
        phase is AcquireClientPidfd ==> (r matches SpawnerAction::OpenClientPidfd {
            client_pid: p,
        } && p == client_pid),
        phase is TransplantAndPreplace ==> (r matches SpawnerAction::ApplyPlan { ops } && ops@
            == spawner_plan(actions@)),
        phase is RunSpawn ==> (r matches SpawnerAction::Spawn { search_path: s } && s
            == search_path),
        phase matches SpawnerPhase::ReportPid { target } ==> (r
            matches SpawnerAction::WriteReport { bytes } && bytes@ == spec_pid_bytes(*target)
            && bytes@.len() == PID_WIRE_SIZE),
        phase matches SpawnerPhase::Exited { code } ==> (r matches SpawnerAction::Exit {
            code: c,
        } && c == code),
{
    match phase {
        SpawnerPhase::AcquireClientPidfd => SpawnerAction::OpenClientPidfd { client_pid },
        SpawnerPhase::TransplantAndPreplace => SpawnerAction::ApplyPlan {
            ops: build_spawner_plan(actions),
        },
        SpawnerPhase::RunSpawn => SpawnerAction::Spawn { search_path },
        SpawnerPhase::ReportPid { target } => SpawnerAction::WriteReport {
            bytes: encode_report_pid(*target),
        },
        SpawnerPhase::Exited { code } => SpawnerAction::Exit { code: *code },
    }
}

/// Law: the spawner exits with code 0 only once the whole target PID has
/// gone out on the report pipe — from any phase still under way, the only
/// step to a clean exit is the full report write.
pub proof fn lemma_clean_exit_needs_report(phase: SpawnerPhase, ev: SpawnerEvent)
    ensures
        spec_spawner_next(phase, ev) == (SpawnerPhase::Exited { code: SPAWNER_EXIT_OK }) ==> (
        phase matches SpawnerPhase::ReportPid { target } && ev == SpawnerEvent::PidReported)
            || phase == (SpawnerPhase::Exited { code: SPAWNER_EXIT_OK }),
{
}

/// Law: a failure of the spawn primitive, or a PID from it that no
/// process can have, ends the spawner with a nonzero exit code — the
/// dangling-target failure is never reported as success.
pub proof fn lemma_spawn_failure_exits_nonzero(ev: SpawnerEvent)
    requires
        ev matches SpawnerEvent::SyscallFailed { .. } || (ev matches SpawnerEvent::Spawned {
            target,
        } && target <= 0),
    ensures
        spec_spawner_next(SpawnerPhase::RunSpawn, ev) matches SpawnerPhase::Exited { code } && code
            != SPAWNER_EXIT_OK,
{
}

} // verus!
