use vstd::prelude::*;
use crate::fdops::{
    FileAction, SpawnerOp, action_plan, is_std_fd, stdio_plan, stream_plan, RESERVED_FD_BASE,
};

verus! {

// A process's file-descriptor table is modelled as a partial map from
// descriptor numbers to slots; a slot names an open-file description by
// an abstract identifier and carries the slot's close-on-exec flag. Two
// descriptors whose slots name the same identifier share seek position,
// flags and the underlying open file, which is what `pidfd_getfd`
// followed by `dup2` establishes across processes.

/// One slot of a file-descriptor table.
pub ghost struct FdEntry {
    /// Which open-file description the slot names.
    pub desc: int,
    /// Whether the slot closes on `execve`.
    pub cloexec: bool,
}

/// The effect of one local spawner operation on the spawner's table,
/// given the client's table (`pidfd_getfd` reads from it). A descriptor
/// fetched with `pidfd_getfd` carries the close-on-exec flag, but every
/// fetched descriptor is closed again after the `dup2` onto its final
/// slot — and `dup2` leaves the flag clear on that slot, which is how a
/// transplanted descriptor survives the `execve` in the target.
pub open spec fn apply_op(
    local: Map<int, FdEntry>,
    client: Map<int, FdEntry>,
    op: SpawnerOp,
) -> Map<int, FdEntry> {
    match op {
        SpawnerOp::CloseLocal { fd } => local.remove(fd as int),
        SpawnerOp::DupLocal { src, dst } => if local.dom().contains(src as int) {
            local.insert(dst as int, (FdEntry { desc: local[src as int].desc, cloexec: false }))
        } else {
            local
        },
        SpawnerOp::TransplantFromClient { src, dst } => if client.dom().contains(src as int) {
            local.insert(dst as int, (FdEntry { desc: client[src as int].desc, cloexec: false }))
        } else {
            local
        },
    }
}

/// The effect of a sequence of local operations, first to last.
pub open spec fn apply_ops(
    local: Map<int, FdEntry>,
    client: Map<int, FdEntry>,
    ops: Seq<SpawnerOp>,
) -> Map<int, FdEntry>
    decreases ops.len(),
{
    if ops.len() == 0 {
        local
    } else {
        apply_op(apply_ops(local, client, ops.drop_last()), client, ops.last())
    }
}

/// Applying an empty plan changes nothing.
pub proof fn lemma_apply_ops_empty(local: Map<int, FdEntry>, client: Map<int, FdEntry>)
    ensures
        apply_ops(local, client, Seq::<SpawnerOp>::empty()) == local,
{
}

/// Unfolds one step of `apply_ops` at the end of a plan.
pub proof fn lemma_apply_ops_push(
    local: Map<int, FdEntry>,
    client: Map<int, FdEntry>,
    ops: Seq<SpawnerOp>,
    op: SpawnerOp,
)
    ensures
        apply_ops(local, client, ops.push(op)) == apply_op(
            apply_ops(local, client, ops),
            client,
            op,
        ),
{
    assert(ops.push(op).drop_last() =~= ops);
    assert(ops.push(op).last() == op);
}

/// Applying a concatenation applies the two parts in order.
pub proof fn lemma_apply_ops_app(
    local: Map<int, FdEntry>,
    client: Map<int, FdEntry>,
    a: Seq<SpawnerOp>,
    b: Seq<SpawnerOp>,
)
    ensures
        apply_ops(local, client, a + b) == apply_ops(apply_ops(local, client, a), client, b),
    decreases b.len(),
{
    if b.len() == 0 {
        assert(a + b =~= a);
    } else {
        lemma_apply_ops_app(local, client, a, b.drop_last());
        assert((a + b).drop_last() =~= a + b.drop_last());
        assert((a + b).last() == b.last());
    }
}

/// What one standard-stream step does: afterwards the stream slot holds
/// the client's description with close-on-exec clear, the reserved slot
/// holds the spawner's old one, and every other descriptor is untouched.
pub proof fn lemma_stream_transplant(t: Map<int, FdEntry>, client: Map<int, FdEntry>, std_fd: i32)
    requires
        0 <= std_fd <= 2,
        t.dom().contains(std_fd as int),
        client.dom().contains(std_fd as int),
    ensures
        ({
            let r = apply_ops(t, client, stream_plan(std_fd));
            &&& r.dom() =~= t.dom().insert(RESERVED_FD_BASE + std_fd as int)
            &&& r[std_fd as int].desc == client[std_fd as int].desc
            &&& !r[std_fd as int].cloexec
            &&& r[RESERVED_FD_BASE + std_fd as int].desc == t[std_fd as int].desc
            &&& forall|j: int|
                j != std_fd as int && j != RESERVED_FD_BASE + std_fd as int && t.dom().contains(j)
                    ==> r.dom().contains(j) && r[j] == t[j]
        }),
{
    let op0 = SpawnerOp::DupLocal { src: std_fd, dst: (RESERVED_FD_BASE + std_fd) as i32 };
    let op1 = SpawnerOp::CloseLocal { fd: std_fd };
    let op2 = SpawnerOp::TransplantFromClient { src: std_fd, dst: std_fd };
    let s0 = Seq::<SpawnerOp>::empty();
    let s1 = s0.push(op0);
    let s2 = s1.push(op1);
    let s3 = s2.push(op2);
    assert(stream_plan(std_fd) =~= s3);
    lemma_apply_ops_empty(t, client);
    lemma_apply_ops_push(t, client, s0, op0);
    lemma_apply_ops_push(t, client, s1, op1);
    lemma_apply_ops_push(t, client, s2, op2);
    let r0 = apply_op(t, client, op0);
    let r1 = apply_op(r0, client, op1);
    let r2 = apply_op(r1, client, op2);
    assert(r0 == t.insert(
        RESERVED_FD_BASE + std_fd as int,
        (FdEntry { desc: t[std_fd as int].desc, cloexec: false }),
    ));
    assert(r1 == r0.remove(std_fd as int));
    assert(r2 == r1.insert(
        std_fd as int,
        (FdEntry { desc: client[std_fd as int].desc, cloexec: false }),
    ));
    assert(apply_ops(t, client, stream_plan(std_fd)) == r2);
    assert(r2.dom() =~= t.dom().insert(RESERVED_FD_BASE + std_fd as int));
}

/// Law (standard-stream transplant): after the spawner's plan for the
/// standard streams, descriptors 0, 1 and 2 refer to the client's
/// open-file descriptions of 0, 1 and 2 — with close-on-exec clear, so
/// they survive into the executed target — and the spawner's own three
/// streams are parked, each on its own reserved slot.
pub proof fn lemma_stdio_transplant_effect(local: Map<int, FdEntry>, client: Map<int, FdEntry>)
    requires
        local.dom().contains(0),
        local.dom().contains(1),
        local.dom().contains(2),
        client.dom().contains(0),
        client.dom().contains(1),
        client.dom().contains(2),
    ensures
        ({
            let r = apply_ops(local, client, stdio_plan());
            &&& r[0].desc == client[0].desc && !r[0].cloexec
            &&& r[1].desc == client[1].desc && !r[1].cloexec
            &&& r[2].desc == client[2].desc && !r[2].cloexec
            &&& r[RESERVED_FD_BASE as int].desc == local[0].desc
            &&& r[RESERVED_FD_BASE + 1int].desc == local[1].desc
            &&& r[RESERVED_FD_BASE + 2int].desc == local[2].desc
            &&& r.dom() =~= local.dom().insert(RESERVED_FD_BASE as int).insert(
                RESERVED_FD_BASE + 1int,
            ).insert(RESERVED_FD_BASE + 2int)
        }),
{
    let t1 = apply_ops(local, client, stream_plan(0));
    let t2 = apply_ops(t1, client, stream_plan(1));
    let t3 = apply_ops(t2, client, stream_plan(2));
    lemma_stream_transplant(local, client, 0);
    lemma_stream_transplant(t1, client, 1);
    lemma_stream_transplant(t2, client, 2);
    lemma_apply_ops_app(local, client, stream_plan(0), stream_plan(1));
    lemma_apply_ops_app(local, client, stream_plan(0) + stream_plan(1), stream_plan(2));
    assert((stream_plan(0) + stream_plan(1)) + stream_plan(2) =~= stdio_plan());
    assert(apply_ops(local, client, stream_plan(0) + stream_plan(1)) == t2);
    assert(apply_ops(local, client, stdio_plan()) == t3);
}

/// Law (DUP2 pre-placement): the spawner's plan for a `DUP2(src -> dst)`
/// file action leaves the spawner's `dst` holding the client's open-file
/// description of `src`, with close-on-exec clear, and touches no other
/// descriptor. The target inherits this table from the spawner at the
/// spawn primitive's fork.
pub proof fn lemma_dup2_preplacement(
    local: Map<int, FdEntry>,
    client: Map<int, FdEntry>,
    src: i32,
    dst: i32,
)
    requires
        client.dom().contains(src as int),
    ensures
        ({
            let r = apply_ops(local, client, action_plan((FileAction::Dup2 { src, dst })));
            &&& r =~= local.insert(
                dst as int,
                (FdEntry { desc: client[src as int].desc, cloexec: false }),
            )
            &&& r[dst as int].desc == client[src as int].desc
            &&& !r[dst as int].cloexec
            &&& forall|j: int|
                j != dst as int && local.dom().contains(j) ==> r.dom().contains(j) && r[j]
                    == local[j]
        }),
{
    let op = SpawnerOp::TransplantFromClient { src, dst };
    let p = action_plan(FileAction::Dup2 { src, dst });
    assert(p =~= Seq::<SpawnerOp>::empty().push(op));
    lemma_apply_ops_empty(local, client);
    lemma_apply_ops_push(local, client, Seq::<SpawnerOp>::empty(), op);
    assert(apply_ops(local, client, p) == local.insert(
        dst as int,
        (FdEntry { desc: client[src as int].desc, cloexec: false }),
    ));
}

/// Law (whole plan, stdout redirected to a client file): for the full
/// spawner plan whose one file action is `DUP2(src -> 1)` — the client
/// holds `src` open on some file and asks that the target's stdout be
/// it — the spawner ends with descriptor 1 naming the client's `src`
/// description, descriptors 0 and 2 naming the client's own 0 and 2, and
/// all three surviving `execve`.
pub proof fn lemma_plan_dup2_onto_stdout(
    local: Map<int, FdEntry>,
    client: Map<int, FdEntry>,
    src: i32,
)
    requires
        local.dom().contains(0),
        local.dom().contains(1),
        local.dom().contains(2),
        client.dom().contains(0),
        client.dom().contains(1),
        client.dom().contains(2),
        client.dom().contains(src as int),
    ensures
        ({
            let r = apply_ops(
                local,
                client,
                crate::fdops::spawner_plan(seq![FileAction::Dup2 { src, dst: 1 }]),
            );
            &&& r[1].desc == client[src as int].desc && !r[1].cloexec
            &&& r[0].desc == client[0].desc && !r[0].cloexec
            &&& r[2].desc == client[2].desc && !r[2].cloexec
        }),
{
    let acts = seq![FileAction::Dup2 { src, dst: 1 }];
    assert(acts.drop_last() =~= Seq::<FileAction>::empty());
    assert(acts.last() == (FileAction::Dup2 { src, dst: 1 }));
    assert(crate::fdops::spawner_plan(Seq::<FileAction>::empty()) == stdio_plan());
    assert(crate::fdops::spawner_plan(acts) == stdio_plan() + action_plan(
        (FileAction::Dup2 { src, dst: 1 }),
    ));
    let t = apply_ops(local, client, stdio_plan());
    lemma_stdio_transplant_effect(local, client);
    lemma_apply_ops_app(local, client, stdio_plan(), action_plan((FileAction::Dup2 { src, dst: 1 })));
    lemma_dup2_preplacement(t, client, src, 1);
}

/// Law (everything installed survives `execve`): whatever operations the
/// spawner performs, every slot it leaves open is either untouched from
/// before or has close-on-exec clear — the spawner never installs a
/// descriptor that the target's `execve` would silently close.
pub proof fn lemma_ops_install_exec_surviving(
    local: Map<int, FdEntry>,
    client: Map<int, FdEntry>,
    ops: Seq<SpawnerOp>,
)
    ensures
        forall|j: int|
            #[trigger] apply_ops(local, client, ops).dom().contains(j) ==> (local.dom().contains(
                j,
            ) && apply_ops(local, client, ops)[j] == local[j]) || !apply_ops(
                local,
                client,
                ops,
            )[j].cloexec,
    decreases ops.len(),
{
    if ops.len() > 0 {
        lemma_ops_install_exec_surviving(local, client, ops.drop_last());
        let prev = apply_ops(local, client, ops.drop_last());
        let r = apply_ops(local, client, ops);
        assert(r == apply_op(prev, client, ops.last()));
        assert forall|j: int| #[trigger] r.dom().contains(j) implies (local.dom().contains(j)
            && r[j] == local[j]) || !r[j].cloexec by {
            match ops.last() {
                SpawnerOp::CloseLocal { fd } => {
                    assert(r == prev.remove(fd as int));
                    assert(j != fd as int);
                    assert(prev.dom().contains(j) && r[j] == prev[j]);
                },
                SpawnerOp::DupLocal { src, dst } => {
                    if prev.dom().contains(src as int) && j == dst as int {
                        assert(!r[j].cloexec);
                    } else {
                        assert(prev.dom().contains(j) && r[j] == prev[j]);
                    }
                },
                SpawnerOp::TransplantFromClient { src, dst } => {
                    if client.dom().contains(src as int) && j == dst as int {
                        assert(!r[j].cloexec);
                    } else {
                        assert(prev.dom().contains(j) && r[j] == prev[j]);
                    }
                },
            }
        };
    }
}

/// Law (CLOSE outside the standard streams): the spawner's plan for such
/// an action leaves its table exactly as it was.
pub proof fn lemma_close_nonstd_table_unchanged(
    local: Map<int, FdEntry>,
    client: Map<int, FdEntry>,
    fd: i32,
)
    requires
        !is_std_fd(fd),
    ensures
        apply_ops(local, client, action_plan((FileAction::Close { fd }))) == local,
{
}

} // verus!
