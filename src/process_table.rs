use vstd::prelude::*;

verus! {

/// One row of a process-table snapshot: a process and, if known, its parent.
#[derive(Clone, Copy, Debug, PartialEq, Eq, Structural)]
pub struct ProcessEntry {
    pub pid: u32,
    pub parent: Option<u32>,
}

/// The ids of the processes in `table` whose parent is `shell_pid`, in table order.
pub open spec fn children_in(shell_pid: u32, table: Seq<ProcessEntry>) -> Seq<u32>
    decreases table.len(),
{
    if table.len() == 0 {
        Seq::empty()
    } else {
        let rest = children_in(shell_pid, table.drop_last());
        if table.last().parent == Some(shell_pid) {
            rest.push(table.last().pid)
        } else {
            rest
        }
    }
}

proof fn lemma_children_in_empty(shell_pid: u32, table: Seq<ProcessEntry>)
    ensures
        children_in(shell_pid, table).len() == 0 <==> forall|i: int|
            0 <= i < table.len() ==> #[trigger] table[i].parent != Some(shell_pid),
    decreases table.len(),
{
    if table.len() > 0 {
        let prev = table.drop_last();
        lemma_children_in_empty(shell_pid, prev);
        assert forall|i: int| 0 <= i < prev.len() implies #[trigger] prev[i] == table[i] by {}
        let last = table.len() - 1;
        if table[last].parent == Some(shell_pid) {
            assert(children_in(shell_pid, table).len() > 0);
        } else {
            assert(children_in(shell_pid, table) == children_in(shell_pid, prev));
            if children_in(shell_pid, prev).len() == 0 {
                assert forall|i: int| 0 <= i < table.len() implies #[trigger] table[i].parent
                    != Some(shell_pid) by {
                    if i < prev.len() {
                        assert(prev[i] == table[i]);
                    }
                }
            } else {
                let j = choose|j: int|
                    0 <= j < prev.len() && #[trigger] prev[j].parent == Some(shell_pid);
                assert(table[j] == prev[j]);
            }
        }
    }
}

/// The processes of `table` whose parent is the shell.
pub fn children_of(shell_pid: u32, table: &Vec<ProcessEntry>) -> (r: Vec<u32>)
    ensures
        r@ == children_in(shell_pid, table@),
{
    let mut r: Vec<u32> = Vec::new();
    let mut i: usize = 0;
    while i < table.len()
        invariant
            i <= table@.len(),
            r@ == children_in(shell_pid, table@.subrange(0, i as int)),
        decreases table@.len() - i,
    {
        let entry = table[i];
        proof {
            let next = table@.subrange(0, i as int + 1);
            assert(next.drop_last() =~= table@.subrange(0, i as int));
        }
        if entry.parent == Some(shell_pid) {
            r.push(entry.pid);
        }
        i = i + 1;
    }
    assert(table@.subrange(0, table@.len() as int) =~= table@);
    r
}

/// Whether no process of `table` is a child of the shell.
pub fn has_no_children(shell_pid: u32, table: &Vec<ProcessEntry>) -> (r: bool)
    ensures
        r == (children_in(shell_pid, table@).len() == 0),
        r <==> forall|i: int| 0 <= i < table@.len() ==> #[trigger] table@[i].parent != Some(shell_pid),
{
    proof {
        lemma_children_in_empty(shell_pid, table@);
    }
    children_of(shell_pid, table).len() == 0
}

/// Relies on sysinfo's `System::refresh_processes` and `System::processes`:
/// a snapshot of every process the system lists, with its parent where known.
/// What it holds depends on the machine and the moment, so nothing is stated.
#[verifier::external_body]
fn snapshot_process_table() -> (r: Vec<ProcessEntry>) {
    let mut sys = sysinfo::System::new();
    sys.refresh_processes(sysinfo::ProcessesToUpdate::All, true);
    sys.processes().iter().map(
        |(pid, p)| ProcessEntry { pid: pid.as_u32(), parent: p.parent().map(|q| q.as_u32()) },
    ).collect()
}

/// Takes a snapshot of the system's process table and returns the ids of the
/// shell's children in it. This is a blocking query of the whole system.
pub fn shell_children(shell_pid: u32) -> (r: Vec<u32>)
    ensures
        exists|table: Seq<ProcessEntry>| r@ == children_in(shell_pid, table),
{
    let table = snapshot_process_table();
    children_of(shell_pid, &table)
}

} // verus!
