//! The debugger-attach detector: a pure query over a snapshot of the
//! visible process table. Inside a correctly isolated namespace every
//! visible process descends from the init process; a process whose
//! ancestor chain does not reach the init process is the evidence that a
//! foreign tool has entered the namespace. The embedding program reads
//! the snapshot from the process-info directory and hands it in as plain
//! values.

use vstd::prelude::*;

verus! {

/// One visible process: its id and its parent's id.
#[derive(Clone, Copy, Debug, PartialEq, Eq, Structural)]
pub struct ProcEntry {
    pub pid: u64,
    pub ppid: u64,
}

/// The parent recorded for this process id: that of its first entry in
/// the table, or nothing when the table does not list the id (the
/// ancestor fails to resolve).
pub open spec fn spec_parent_of(table: Seq<ProcEntry>, pid: u64) -> Option<u64>
    decreases table.len(),
{
    if table.len() == 0 {
        None
    } else if table[0].pid == pid {
        Some(table[0].ppid)
    } else {
        spec_parent_of(table.drop_first(), pid)
    }
}

/// Whether the parent chain from this process id reaches the init
/// process id within the given number of steps. Any chain that reaches
/// it at all does so within one step per table entry: a longer walk
/// must revisit an id and so cycles forever.
pub open spec fn chain_reaches(table: Seq<ProcEntry>, pid: u64, init_pid: u64, steps: nat) -> bool
    decreases steps,
{
    if pid == init_pid {
        true
    } else if steps == 0 {
        false
    } else {
        match spec_parent_of(table, pid) {
            Some(parent) => chain_reaches(table, parent, init_pid, (steps - 1) as nat),
            None => false,
        }
    }
}

/// A foreign process is visible: some listed process other than the init
/// process has a parent chain that does not reach the init process.
pub open spec fn spec_attached(table: Seq<ProcEntry>, init_pid: u64) -> bool {
    exists|i: int|
        0 <= i < table.len() && table[i].pid != init_pid && !chain_reaches(
            table,
            table[i].pid,
            init_pid,
            table.len() + 1,
        )
}

/// The parent recorded for this process id in the snapshot, if any.
fn parent_of(table: &Vec<ProcEntry>, pid: u64) -> (parent: Option<u64>)
    ensures
        parent == spec_parent_of(table@, pid),
{
    let n = table.len();
    let mut i: usize = 0;
    proof {
        assert(table@.skip(0) =~= table@);
    }
    while i < n
        invariant
            n == table@.len(),
            i <= n,
            spec_parent_of(table@, pid) == spec_parent_of(table@.skip(i as int), pid),
        decreases n - i,
    {
        proof {
            assert(table@.skip(i as int)[0] == table@[i as int]);
            assert(table@.skip(i as int).drop_first() =~= table@.skip(i as int + 1));
        }
        if table[i].pid == pid {
            return Some(table[i].ppid);
        }
        i = i + 1;
    }
    None
}

/// Whether the parent chain from `pid` reaches `init_pid` within
/// `steps` steps.
fn walk_reaches(table: &Vec<ProcEntry>, pid: u64, init_pid: u64, steps: usize) -> (reaches: bool)
    ensures
        reaches == chain_reaches(table@, pid, init_pid, steps as nat),
{
    let mut current: u64 = pid;
    let mut left: usize = steps;
    while current != init_pid && left > 0
        invariant
            chain_reaches(table@, pid, init_pid, steps as nat) == chain_reaches(
                table@,
                current,
                init_pid,
                left as nat,
            ),
        decreases left,
    {
        match parent_of(table, current) {
            Some(parent) => {
                current = parent;
                left = left - 1;
            },
            None => {
                return false;
            },
        }
    }
    current == init_pid
}

/// Decide whether a foreign process has entered the namespace: walk each
/// listed process's parent chain and report attachment exactly when some
/// process other than the init process fails to reach it. A table in
/// which every process descends from the init process reports false.
pub fn is_attached(init_pid: u64, table: &Vec<ProcEntry>) -> (attached: bool)
    requires
        table@.len() < usize::MAX,
    ensures
        attached == spec_attached(table@, init_pid),
{
    let n = table.len();
    let mut i: usize = 0;
    while i < n
        invariant
            n == table@.len(),
            n < usize::MAX,
            i <= n,
            forall|j: int|
                0 <= j < i ==> (table@[j].pid == init_pid || chain_reaches(
                    table@,
                    #[trigger] table@[j].pid,
                    init_pid,
                    table@.len() + 1,
                )),
        decreases n - i,
    {
        let entry = table[i];
        if entry.pid != init_pid {
            if !walk_reaches(table, entry.pid, init_pid, n + 1) {
                return true;
            }
        }
        i = i + 1;
    }
    false
}

} // verus!
