use vstd::prelude::*;
use vstd::set_lib::lemma_len_subset;

use crate::string_map::StringMap;

verus! {

/// One process of the machine, with the process that started it.
#[derive(Clone, Copy, Debug, PartialEq, Eq)]
pub struct ProcessInfo {
    pub pid: u32,
    pub parent: Option<u32>,
}

/// Whether `pid` is `root` or descends from it in `depth` steps at most: it
/// is the root, or the process table lists it with a parent that descends
/// from the root in one step less.
pub open spec fn in_tree(procs: Seq<ProcessInfo>, root: u32, pid: u32, depth: nat) -> bool
    decreases depth,
{
    pid == root || (depth > 0 && exists|i: int|
        0 <= i < procs.len() && (#[trigger] procs[i]).pid == pid && procs[i].parent is Some
            && in_tree(procs, root, procs[i].parent->0, (depth - 1) as nat))
}

/// Whether `pid` is `root` or descends from it.
pub open spec fn descends(procs: Seq<ProcessInfo>, root: u32, pid: u32) -> bool {
    exists|depth: nat| in_tree(procs, root, pid, depth)
}

/// The pids that a tree can hold: those of the table, and the root.
spec fn universe(procs: Seq<ProcessInfo>, root: u32) -> Seq<u32> {
    procs.map_values(|p: ProcessInfo| p.pid).push(root)
}

/// Every process whose parent is in `pids` is in `pids`.
spec fn closed_under_children(procs: Seq<ProcessInfo>, pids: Seq<u32>, upto: int) -> bool {
    forall|i: int|
        0 <= i < upto && (#[trigger] procs[i]).parent is Some && pids.contains(
            procs[i].parent->0,
        ) ==> pids.contains(procs[i].pid)
}

proof fn lemma_tree_is_bounded(procs: Seq<ProcessInfo>, root: u32, pids: Seq<u32>)
    requires
        pids.no_duplicates(),
        forall|x: int| 0 <= x < pids.len() ==> universe(procs, root).contains(#[trigger] pids[x]),
    ensures
        pids.len() <= procs.len() + 1,
{
    let u = universe(procs, root);
    pids.unique_seq_to_set();
    u.lemma_cardinality_of_set();
    vstd::seq_lib::seq_to_set_is_finite(u);
    assert(pids.to_set().subset_of(u.to_set())) by {
        assert forall|p: u32| pids.to_set().contains(p) implies u.to_set().contains(p) by {
            let x = choose|x: int| 0 <= x < pids.len() && pids[x] == p;
            assert(u.contains(pids[x]));
        }
    }
    lemma_len_subset(pids.to_set(), u.to_set());
}

proof fn lemma_closed_holds_tree(
    procs: Seq<ProcessInfo>,
    root: u32,
    pids: Seq<u32>,
    pid: u32,
    depth: nat,
)
    requires
        pids.contains(root),
        closed_under_children(procs, pids, procs.len() as int),
        in_tree(procs, root, pid, depth),
    ensures
        pids.contains(pid),
    decreases depth,
{
    if pid != root {
        let i = choose|i: int|
            0 <= i < procs.len() && (#[trigger] procs[i]).pid == pid && procs[i].parent is Some
                && in_tree(procs, root, procs[i].parent->0, (depth - 1) as nat);
        lemma_closed_holds_tree(procs, root, pids, procs[i].parent->0, (depth - 1) as nat);
    }
}

fn holds_pid(pids: &Vec<u32>, pid: u32) -> (b: bool)
    ensures
        b == pids@.contains(pid),
{
    let mut i: usize = 0;
    while i < pids.len()
        invariant
            i <= pids.len(),
            forall|j: int| 0 <= j < i ==> pids@[j] != pid,
        decreases pids.len() - i,
    {
        if pids[i] == pid {
            return true;
        }
        i += 1;
    }
    false
}

/// The processes that descend from `root_pid`, itself included, each once,
/// as the process table `procs` tells.
pub fn collect_tree_pids(procs: &Vec<ProcessInfo>, root_pid: u32) -> (pids: Vec<u32>)
    ensures
        pids@.no_duplicates(),
        forall|p: u32| pids@.contains(p) <==> descends(procs@, root_pid, p),
{
    let mut pids: Vec<u32> = Vec::new();
    pids.push(root_pid);
    let mut changed = true;
    proof {
        assert(pids@[0] == root_pid);
        assert(in_tree(procs@, root_pid, root_pid, 0));
        assert(universe(procs@, root_pid)[procs@.len() as int] == root_pid);
    }
    while changed
        invariant
            pids@.no_duplicates(),
            pids@.contains(root_pid),
            forall|x: int| 0 <= x < pids@.len() ==> descends(procs@, root_pid, #[trigger] pids@[x]),
            forall|x: int|
                0 <= x < pids@.len() ==> universe(procs@, root_pid).contains(#[trigger] pids@[x]),
            !changed ==> closed_under_children(procs@, pids@, procs@.len() as int),
        decreases procs@.len() + 1 - pids@.len(), if changed { 1int } else { 0int },
    {
        changed = false;
        let ghost before = pids@;
        proof {
            lemma_tree_is_bounded(procs@, root_pid, pids@);
        }
        let mut i: usize = 0;
        while i < procs.len()
            invariant
                i <= procs.len(),
                pids@.no_duplicates(),
                pids@.contains(root_pid),
                before.len() <= pids@.len(),
                changed <==> before.len() < pids@.len(),
                forall|x: int|
                    0 <= x < pids@.len() ==> descends(procs@, root_pid, #[trigger] pids@[x]),
                forall|x: int|
                    0 <= x < pids@.len() ==> universe(procs@, root_pid).contains(
                        #[trigger] pids@[x],
                    ),
                !changed ==> closed_under_children(procs@, pids@, i as int),
            decreases procs.len() - i,
        {
            let proc = procs[i];
            let ghost held = pids@;
            if !holds_pid(&pids, proc.pid) {
                match proc.parent {
                    Some(parent) => {
                        if holds_pid(&pids, parent) {
                            pids.push(proc.pid);
                            changed = true;
                            proof {
                                let x = choose|x: int| 0 <= x < held.len() && held[x] == parent;
                                let depth = choose|depth: nat|
                                    in_tree(procs@, root_pid, held[x], depth);
                                assert(procs@[i as int].pid == proc.pid && procs@[i as int].parent
                                    is Some);
                                assert(in_tree(
                                    procs@,
                                    root_pid,
                                    procs@[i as int].parent->0,
                                    ((depth + 1) - 1) as nat,
                                ));
                                assert(in_tree(procs@, root_pid, proc.pid, depth + 1));
                                assert(universe(procs@, root_pid)[i as int] == proc.pid);
                                assert(pids@[0] == held[0]);
                                assert(held.contains(root_pid));
                                let r = choose|r: int| 0 <= r < held.len() && held[r] == root_pid;
                                assert(pids@[r] == root_pid);
                            }
                        }
                    },
                    None => {},
                }
            }
            i += 1;
        }
        proof {
            lemma_tree_is_bounded(procs@, root_pid, pids@);
        }
    }
    proof {
        assert forall|p: u32| pids@.contains(p) <==> descends(procs@, root_pid, p) by {
            if pids@.contains(p) {
                let x = choose|x: int| 0 <= x < pids@.len() && pids@[x] == p;
                assert(descends(procs@, root_pid, pids@[x]));
            }
            if descends(procs@, root_pid, p) {
                let depth = choose|depth: nat| in_tree(procs@, root_pid, p, depth);
                lemma_closed_holds_tree(procs@, root_pid, pids@, p, depth);
            }
        }
    }
    pids
}

/// For how many milliseconds an instance has to use much of the processor
/// before the user is told.
pub const HIGH_USAGE_ALERT_MS: u64 = 30_000;

/// Since when each instance has used much of the processor without a
/// break. Times are milliseconds on a monotonic clock that the caller reads.
pub struct UsageAlerts {
    first_seen: StringMap<u64>,
}

impl UsageAlerts {
    pub closed spec fn wf(&self) -> bool {
        self.first_seen.wf()
    }

    /// Since when each watched instance has been using much, by instance id.
    pub closed spec fn watched(&self) -> Map<Seq<char>, u64> {
        self.first_seen@
    }

    pub fn new() -> (a: Self)
        ensures
            a.wf(),
            a.watched() == Map::<Seq<char>, u64>::empty(),
    {
        UsageAlerts { first_seen: StringMap::new() }
    }

    /// Takes note of whether instance `app_id` uses much of the processor
    /// at time `now`, and tells whether the user is to be told. The user is
    /// told once the usage has been high for more than
    /// `HIGH_USAGE_ALERT_MS`; the instance is then watched anew. Usage that
    /// is not high ends the watch.
    pub fn observe(&mut self, app_id: &str, high: bool, now: u64) -> (alert: bool)
        requires
            old(self).wf(),
        ensures
            final(self).wf(),
            alert == (high && old(self).watched().contains_key(app_id@) && now > old(
                self,
            ).watched()[app_id@] && now - old(self).watched()[app_id@] > HIGH_USAGE_ALERT_MS),
            final(self).watched() == if high && !old(self).watched().contains_key(app_id@) {
                old(self).watched().insert(app_id@, now)
            } else if high && !alert {
                old(self).watched()
            } else {
                old(self).watched().remove(app_id@)
            },
    {
        if !high {
            let _ = self.first_seen.remove(app_id);
            return false;
        }
        let first = match self.first_seen.get(app_id) {
            Some(t) => Some(*t),
            None => None,
        };
        match first {
            Some(t) => {
                let long = now > t && now - t > HIGH_USAGE_ALERT_MS;
                if long {
                    let _ = self.first_seen.remove(app_id);
                }
                long
            },
            None => {
                let _ = self.first_seen.insert(app_id.to_owned(), now);
                false
            },
        }
    }
}

} // verus!
