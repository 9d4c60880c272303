use vstd::prelude::*;

verus! {

// When the spawner dies, the kernel gives the orphaned target a new
// parent: the nearest among the target's remaining ancestors that is
// alive and has the child-subreaper property, or init when there is
// none. That rule is modelled here over the target's ancestor chain, and
// the two deployment-relevant consequences are proved: with the client
// the nearest live subreaper, the target becomes the client's child —
// the reparenting trick; with no subreaper anywhere (a server started
// outside the client's descent), the target falls to init and the
// client's wait can only fail.

/// PID of init, the reaper of last resort.
pub const INIT_PID: i32 = 1;

/// One ancestor of the orphaned target, nearest first in the chain.
#[derive(Clone, Copy, PartialEq, Eq, Structural, Debug)]
pub struct Ancestor {
    pub pid: i32,
    pub alive: bool,
    pub subreaper: bool,
}

/// An ancestor that can take the orphan in.
pub open spec fn takes_orphans(a: Ancestor) -> bool {
    a.alive && a.subreaper
}

/// The kernel's choice of new parent for the orphan whose remaining
/// ancestors, nearest first, are `chain`.
pub open spec fn spec_new_parent(chain: Seq<Ancestor>) -> int
    decreases chain.len(),
{
    if chain.len() == 0 {
        INIT_PID as int
    } else if takes_orphans(chain[0]) {
        chain[0].pid as int
    } else {
        spec_new_parent(chain.drop_first())
    }
}

/// The new parent of the orphaned target: the nearest live subreaper
/// ancestor, or init.
pub fn find_new_parent(chain: &Vec<Ancestor>) -> (r: i32)
    ensures
        r as int == spec_new_parent(chain@),
{
    let mut i: usize = 0;
    proof {
        assert(chain@.skip(0) =~= chain@);
    }
    while i < chain.len()
        invariant
            0 <= i <= chain.len(),
            spec_new_parent(chain@) == spec_new_parent(chain@.skip(i as int)),
        decreases chain.len() - i,
    {
        let a = chain[i];
        if a.alive && a.subreaper {
            proof {
                assert(chain@.skip(i as int)[0] == chain@[i as int]);
            }
            return a.pid;
        }
        proof {
            assert(chain@.skip(i as int).drop_first() =~= chain@.skip(i + 1));
            assert(chain@.skip(i as int)[0] == chain@[i as int]);
        }
        i = i + 1;
    }
    proof {
        assert(chain@.skip(chain@.len() as int) =~= Seq::<Ancestor>::empty());
    }
    INIT_PID
}

/// Law (reparent invariant): when the client stands in the orphaned
/// target's ancestor chain, alive and subreaper, and no ancestor nearer
/// than it can take orphans, the target reparents to the client — its
/// `getppid` is the client's PID, and the client is the process entitled
/// to reap it.
pub proof fn lemma_reparents_to_client(chain: Seq<Ancestor>, k: int)
    requires
        0 <= k < chain.len(),
        takes_orphans(chain[k]),
        forall|j: int| 0 <= j < k ==> !takes_orphans(chain[j]),
    ensures
        spec_new_parent(chain) == chain[k].pid as int,
    decreases k,
{
    if k > 0 {
        lemma_reparents_to_client(chain.drop_first(), k - 1);
    }
}

/// Law (misconfigured deployment): when no ancestor of the orphaned
/// target can take orphans — the server was not started under a client
/// that enabled the child-subreaper property — the target falls to init,
/// so it is not the client's child and the client's wait for it must
/// fail.
pub proof fn lemma_orphan_falls_to_init(chain: Seq<Ancestor>)
    requires
        forall|j: int| 0 <= j < chain.len() ==> !takes_orphans(chain[j]),
    ensures
        spec_new_parent(chain) == INIT_PID as int,
    decreases chain.len(),
{
    if chain.len() > 0 {
        lemma_orphan_falls_to_init(chain.drop_first());
    }
}

} // verus!
