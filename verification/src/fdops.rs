use vstd::prelude::*;

verus! {

/// Command code of a CLOSE node in the platform file-actions chain.
pub const FDOP_CLOSE: i32 = 1;
/// Command code of a DUP2 node in the platform file-actions chain.
pub const FDOP_DUP2: i32 = 2;
/// Command code of an OPEN node in the platform file-actions chain.
pub const FDOP_OPEN: i32 = 3;

/// Lowest of the three reserved slots where the spawner parks its own
/// standard streams while it installs the client's. The three slots are
/// distinct: `RESERVED_FD_BASE + std_fd` for `std_fd` in 0, 1, 2.
pub const RESERVED_FD_BASE: i32 = 1000;

/// The plain field values of one node of the platform's file-actions
/// linked list, as the server reads them out of the reinterpreted byte
/// image. The `next`/`prev` links and the OPEN path stay with the native
/// object; the spawner's own decisions never read them.
#[derive(Clone, Copy, PartialEq, Eq, Structural, Debug)]
pub struct RawFdop {
    pub cmd: i32,
    pub fd: i32,
    pub srcfd: i32,
    pub oflag: i32,
    pub mode: u32,
}

/// One POSIX file action, decoded into plain values.
#[derive(Clone, Copy, PartialEq, Eq, Structural, Debug)]
pub enum FileAction {
    /// The target starts without `fd`.
    Close { fd: i32 },
    /// The target's `dst` receives the open file that the client holds at `src`.
    Dup2 { src: i32, dst: i32 },
    /// The spawn primitive opens a path at `fd` inside the target on its own.
    Open { fd: i32, oflag: i32, mode: u32 },
}

/// Decoding a file-actions node failed: its command code names no action.
#[derive(Clone, Copy, PartialEq, Eq, Structural, Debug)]
pub enum FdopError {
    InvalidCmd { cmd: i32 },
}

/// One local file-descriptor operation that the spawner child performs
/// before it invokes the spawn primitive.
#[derive(Clone, Copy, PartialEq, Eq, Structural, Debug)]
pub enum SpawnerOp {
    /// Close the spawner's own `fd`.
    CloseLocal { fd: i32 },
    /// `dup2` the spawner's `src` onto the spawner's `dst`.
    DupLocal { src: i32, dst: i32 },
    /// Fetch the client's `src` with `pidfd_getfd`, `dup2` the fetched
    /// descriptor onto the spawner's `dst`, then close the fetched handle.
    TransplantFromClient { src: i32, dst: i32 },
}

/// Whether `fd` is one of the three standard streams.
pub open spec fn is_std_fd(fd: i32) -> bool {
    fd == 0 || fd == 1 || fd == 2
}

/// The local operations the spawner performs for one file action:
/// a CLOSE of a standard stream is carried out locally, a CLOSE of any
/// other descriptor needs nothing (the descriptor does not exist in the
/// spawner), an OPEN needs nothing (the spawn primitive opens the path
/// itself inside the target), and a DUP2 pre-places the client's open
/// file at the destination slot.
pub open spec fn action_plan(a: FileAction) -> Seq<SpawnerOp> {
    match a {
        FileAction::Close { fd } => if is_std_fd(fd) {
            seq![SpawnerOp::CloseLocal { fd }]
        } else {
            Seq::empty()
        },
        FileAction::Dup2 { src, dst } => seq![SpawnerOp::TransplantFromClient { src, dst }],
        FileAction::Open { .. } => Seq::empty(),
    }
}

/// The plan for one standard stream `std_fd`: park the spawner's own
/// stream on the reserved slot, close the original, then install the
/// client's stream in its place.
pub open spec fn stream_plan(std_fd: i32) -> Seq<SpawnerOp> {
    seq![
        SpawnerOp::DupLocal { src: std_fd, dst: (RESERVED_FD_BASE + std_fd) as i32 },
        SpawnerOp::CloseLocal { fd: std_fd },
        SpawnerOp::TransplantFromClient { src: std_fd, dst: std_fd },
    ]
}

/// The full standard-stream transplant: stdin, stdout, stderr in order.
pub open spec fn stdio_plan() -> Seq<SpawnerOp> {
    stream_plan(0) + stream_plan(1) + stream_plan(2)
}

/// The whole local plan of the spawner child: transplant the standard
/// streams, then pre-place every file action in list order.
pub open spec fn spawner_plan(actions: Seq<FileAction>) -> Seq<SpawnerOp>
    decreases actions.len(),
{
    if actions.len() == 0 {
        stdio_plan()
    } else {
        spawner_plan(actions.drop_last()) + action_plan(actions.last())
    }
}

/// Reads one node of the file-actions chain. Relied on nowhere for the
/// node's links: the caller walks the chain.
pub fn decode_fdop(raw: &RawFdop) -> (r: Result<FileAction, FdopError>)
    ensures
        raw.cmd == FDOP_CLOSE ==> r == Ok::<FileAction, FdopError>((FileAction::Close { fd: raw.fd })),
        raw.cmd == FDOP_DUP2 ==> r == Ok::<FileAction, FdopError>((FileAction::Dup2 { src: raw.srcfd, dst: raw.fd })),
        raw.cmd == FDOP_OPEN ==> r == Ok::<FileAction, FdopError>((FileAction::Open { fd: raw.fd, oflag: raw.oflag, mode: raw.mode })),
        raw.cmd != FDOP_CLOSE && raw.cmd != FDOP_DUP2 && raw.cmd != FDOP_OPEN
            ==> r == Err::<FileAction, FdopError>((FdopError::InvalidCmd { cmd: raw.cmd })),
{
    if raw.cmd == FDOP_CLOSE {
        Ok(FileAction::Close { fd: raw.fd })
    } else if raw.cmd == FDOP_DUP2 {
        Ok(FileAction::Dup2 { src: raw.srcfd, dst: raw.fd })
    } else if raw.cmd == FDOP_OPEN {
        Ok(FileAction::Open { fd: raw.fd, oflag: raw.oflag, mode: raw.mode })
    } else {
        Err(FdopError::InvalidCmd { cmd: raw.cmd })
    }
}

/// The local operations for one file action.
pub fn plan_for_action(a: &FileAction) -> (ops: Vec<SpawnerOp>)
    ensures
        ops@ == action_plan(*a),
{
    let mut ops: Vec<SpawnerOp> = Vec::new();
    match a {
        FileAction::Close { fd } => {
            if *fd == 0 || *fd == 1 || *fd == 2 {
                ops.push(SpawnerOp::CloseLocal { fd: *fd });
            }
        },
        FileAction::Dup2 { src, dst } => {
            ops.push(SpawnerOp::TransplantFromClient { src: *src, dst: *dst });
        },
        FileAction::Open { .. } => {},
    }
    proof {
        assert(ops@ =~= action_plan(*a));
    }
    ops
}

/// The standard-stream transplant plan, with the three reserved slots
/// distinct.
pub fn stdio_transplant_plan() -> (ops: Vec<SpawnerOp>)
    ensures
        ops@ == stdio_plan(),
{
    let mut ops: Vec<SpawnerOp> = Vec::new();
    let mut std_fd: i32 = 0;
    while std_fd < 3
        invariant
            0 <= std_fd <= 3,
            std_fd == 0 ==> ops@ =~= Seq::<SpawnerOp>::empty(),
            std_fd == 1 ==> ops@ =~= stream_plan(0),
            std_fd == 2 ==> ops@ =~= stream_plan(0) + stream_plan(1),
            std_fd == 3 ==> ops@ =~= stdio_plan(),
        decreases 3 - std_fd,
    {
        ops.push(SpawnerOp::DupLocal { src: std_fd, dst: RESERVED_FD_BASE + std_fd });
        ops.push(SpawnerOp::CloseLocal { fd: std_fd });
        ops.push(SpawnerOp::TransplantFromClient { src: std_fd, dst: std_fd });
        std_fd = std_fd + 1;
    }
    proof {
        assert(ops@ =~= stdio_plan());
    }
    ops
}

/// The whole local plan of the spawner child for a decoded action list.
pub fn build_spawner_plan(actions: &Vec<FileAction>) -> (ops: Vec<SpawnerOp>)
    ensures
        ops@ == spawner_plan(actions@),
{
    let mut ops = stdio_transplant_plan();
    let mut i: usize = 0;
    while i < actions.len()
        invariant
            0 <= i <= actions.len(),
            ops@ =~= spawner_plan(actions@.take(i as int)),
        decreases actions.len() - i,
    {
        let step = plan_for_action(&actions[i]);
        let mut j: usize = 0;
        while j < step.len()
            invariant
                0 <= j <= step.len(),
                i < actions.len(),
                step@ == action_plan(actions@[i as int]),
                ops@ =~= spawner_plan(actions@.take(i as int)) + step@.take(j as int),
            decreases step.len() - j,
        {
            ops.push(step[j]);
            j = j + 1;
        }
        proof {
            assert(actions@.take(i + 1 as int).drop_last() =~= actions@.take(i as int));
            assert(actions@.take(i + 1 as int).last() == actions@[i as int]);
            assert(step@.take(step@.len() as int) =~= step@);
            assert(ops@ =~= spawner_plan(actions@.take(i + 1 as int)));
        }
        i = i + 1;
    }
    proof {
        assert(actions@.take(actions@.len() as int) =~= actions@);
    }
    ops
}

/// Law: a CLOSE action on a descriptor other than the three standard
/// streams causes no local operation in the spawner at all; and no file
/// action ever makes the spawner close a local descriptor outside the
/// standard streams.
pub proof fn lemma_close_nonstd_is_noop(a: FileAction)
    ensures
        (a matches FileAction::Close { fd } && !is_std_fd(fd)) ==> action_plan(a) =~= Seq::<SpawnerOp>::empty(),
        forall|i: int| 0 <= i < action_plan(a).len()
            ==> (#[trigger] action_plan(a)[i] matches SpawnerOp::CloseLocal { fd } ==> is_std_fd(fd)),
{
}

} // verus!
