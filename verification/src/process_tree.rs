//! Which processes belong to the command a shell is running, read from a
//! snapshot of the process table.

use vstd::prelude::*;

verus! {

/// One row of a process table snapshot.
#[derive(Clone, Copy, Debug, PartialEq, Eq, Structural)]
pub struct ProcessEntry {
    pub pid: u32,
    /// The parent process, when the table knows it.
    pub parent: Option<u32>,
    /// The process group, when it could be read.
    pub process_group: Option<u32>,
}

/// `pid` descends from `root` through at most `n + 1` parent links of `table`.
pub open spec fn descends_within(table: Seq<ProcessEntry>, root: u32, pid: u32, n: nat) -> bool
    decreases n,
{
    exists|i: int|
        #![trigger table[i]]
        0 <= i < table.len() && table[i].pid == pid && match table[i].parent {
            Some(q) => q == root || (n > 0 && descends_within(table, root, q, (n - 1) as nat)),
            None => false,
        }
}

/// `pid` descends from `root` in `table` (`root` itself only through a cycle).
pub open spec fn is_descendant(table: Seq<ProcessEntry>, root: u32, pid: u32) -> bool {
    exists|n: nat| descends_within(table, root, pid, n)
}

/// Every process of `table` descended from `root`.
pub open spec fn descendant_set(table: Seq<ProcessEntry>, root: u32) -> Set<u32> {
    Set::new(|pid: u32| is_descendant(table, root, pid))
}

/// The process group the first row for `pid` gives, if any.
pub open spec fn group_of(table: Seq<ProcessEntry>, pid: u32) -> Option<u32>
    decreases table.len(),
{
    if table.len() == 0 {
        None
    } else if table[0].pid == pid {
        table[0].process_group
    } else {
        group_of(table.drop_first(), pid)
    }
}

/// The descendants of `shell` in process group `pgid`, and the shell itself
/// when it is in that group.
pub open spec fn foreground_set(
    table: Seq<ProcessEntry>,
    shell: u32,
    pgid: u32,
    shell_group: Option<u32>,
) -> Set<u32> {
    descendant_set(table, shell).filter(|pid: u32| group_of(table, pid) == Some(pgid)).union(
        if shell_group == Some(pgid) {
            set![shell]
        } else {
            Set::empty()
        },
    )
}

/// The processes of the command `shell` runs: its descendants, narrowed to
/// the foreground group when that is known and the narrowing leaves some.
pub open spec fn command_tree_set(
    table: Seq<ProcessEntry>,
    shell: u32,
    foreground_pgid: Option<u32>,
    shell_group: Option<u32>,
) -> Set<u32> {
    match foreground_pgid {
        None => descendant_set(table, shell),
        Some(pgid) => {
            let narrowed = foreground_set(table, shell, pgid, shell_group);
            if narrowed.is_empty() {
                descendant_set(table, shell)
            } else {
                narrowed
            }
        },
    }
}

/// Whether the row `e` adds nothing to `found`: its pid is in already, or its
/// parent is neither `root` nor in `found`.
pub open spec fn settled(e: ProcessEntry, found: Set<u32>, root: u32) -> bool {
    found.contains(e.pid) || match e.parent {
        Some(q) => !(q == root || found.contains(q)),
        None => true,
    }
}

/// The rows whose pid is not in `found`.
pub open spec fn rows_outside(table: Seq<ProcessEntry>, found: Set<u32>) -> nat
    decreases table.len(),
{
    if table.len() == 0 {
        0
    } else {
        rows_outside(table.drop_last(), found) + if found.contains(table.last().pid) {
            0nat
        } else {
            1nat
        }
    }
}

/// Growing `found` never adds rows outside it, and drops one when a row's pid
/// joins.
proof fn lemma_rows_outside_shrink(table: Seq<ProcessEntry>, small: Set<u32>, big: Set<u32>, k: int)
    requires
        small.subset_of(big),
        0 <= k < table.len(),
        big.contains(table[k].pid),
        !small.contains(table[k].pid),
    ensures
        rows_outside(table, big) < rows_outside(table, small),
    decreases table.len(),
{
    lemma_rows_outside_mono(table.drop_last(), small, big);
    if k < table.len() - 1 {
        assert(table.drop_last()[k] == table[k]);
        lemma_rows_outside_shrink(table.drop_last(), small, big, k);
    }
}

/// Growing `found` never adds rows outside it.
proof fn lemma_rows_outside_mono(table: Seq<ProcessEntry>, small: Set<u32>, big: Set<u32>)
    requires
        small.subset_of(big),
    ensures
        rows_outside(table, big) <= rows_outside(table, small),
    decreases table.len(),
{
    if table.len() > 0 {
        lemma_rows_outside_mono(table.drop_last(), small, big);
    }
}

/// When every row is settled, every descendant has been found.
proof fn lemma_settled_finds_all(table: Seq<ProcessEntry>, root: u32, found: Set<u32>, pid: u32, n: nat)
    requires
        forall|i: int| 0 <= i < table.len() ==> settled(#[trigger] table[i], found, root),
        descends_within(table, root, pid, n),
    ensures
        found.contains(pid),
    decreases n,
{
    let i = choose|i: int|
        #![trigger table[i]]
        0 <= i < table.len() && table[i].pid == pid && match table[i].parent {
            Some(q) => q == root || (n > 0 && descends_within(table, root, q, (n - 1) as nat)),
            None => false,
        };
    let q = table[i].parent.unwrap();
    if q != root {
        lemma_settled_finds_all(table, root, found, q, (n - 1) as nat);
    }
    assert(settled(table[i], found, root));
}

/// Whether `v` holds `x`.
fn vec_contains(v: &Vec<u32>, x: u32) -> (found: bool)
    ensures
        found == v@.contains(x),
{
    let mut i: usize = 0;
    while i < v.len()
        invariant
            i <= v.len(),
            forall|j: int| 0 <= j < i ==> v@[j] != x,
        decreases v.len() - i,
    {
        if v[i] == x {
            assert(v@[i as int] == x);
            return true;
        }
        i += 1;
    }
    false
}

/// Every process of `table` descended from `pid`, each once.
///
/// The table is swept repeatedly, adding processes whose parent is `pid` or
/// already found, until a sweep adds nothing.
pub fn descendants_of(table: &[ProcessEntry], pid: u32) -> (found: Vec<u32>)
    ensures
        found@.to_set() == descendant_set(table@, pid),
        found@.no_duplicates(),
{
    let mut found: Vec<u32> = Vec::new();
    loop
        invariant
            found@.no_duplicates(),
            forall|x: u32| found@.contains(x) ==> is_descendant(table@, pid, x),
        decreases rows_outside(table@, found@.to_set()),
    {
        let ghost start = found@;
        let mut added = false;
        let mut i: usize = 0;
        while i < table.len()
            invariant
                i <= table.len(),
                found@.no_duplicates(),
                forall|x: u32| found@.contains(x) ==> is_descendant(table@, pid, x),
                start.to_set().subset_of(found@.to_set()),
                !added ==> found@ == start,
                added ==> exists|k: int|
                    0 <= k < table.len() && found@.contains(#[trigger] table@[k].pid)
                        && !start.contains(table@[k].pid),
                !added ==> forall|k: int|
                    0 <= k < i ==> settled(#[trigger] table@[k], found@.to_set(), pid),
            decreases table.len() - i,
        {
            let e = table[i];
            if !vec_contains(&found, e.pid) {
                let joins = match e.parent {
                    Some(q) => q == pid || vec_contains(&found, q),
                    None => false,
                };
                if joins {
                    proof {
                        let q = e.parent.unwrap();
                        if q == pid {
                            assert(descends_within(table@, pid, e.pid, 0));
                        } else {
                            let n = choose|n: nat| descends_within(table@, pid, q, n);
                            assert(table@[i as int] == e);
                            assert(descends_within(table@, pid, e.pid, n + 1));
                        }
                    }
                    let ghost before = found@;
                    found.push(e.pid);
                    proof { before.lemma_push_to_set_commute(e.pid); }
                    assert(found@[before.len() as int] == e.pid);
                    assert forall|x: u32| found@.contains(x) implies is_descendant(table@, pid, x) by {
                        if x != e.pid {
                            assert(before.contains(x));
                        }
                    }
                    assert(found@.contains(table@[i as int].pid));
                    assert(!start.contains(e.pid)) by {
                        assert(!before.to_set().contains(e.pid));
                    }
                    assert forall|x: u32| before.contains(x) implies found@.contains(x) by {
                        let k = choose|k: int| 0 <= k < before.len() && #[trigger] before[k] == x;
                        assert(found@[k] == x);
                    }
                    added = true;
                }
            }
            proof {
                if !added {
                    assert(settled(table@[i as int], found@.to_set(), pid));
                }
            }
            i += 1;
        }
        if !added {
            proof {
                assert forall|x: u32| is_descendant(table@, pid, x) implies found@.contains(x) by {
                    let n = choose|n: nat| descends_within(table@, pid, x, n);
                    lemma_settled_finds_all(table@, pid, found@.to_set(), x, n);
                }
                assert(found@.to_set() =~= descendant_set(table@, pid));
            }
            return found;
        }
        proof {
            let k = choose|k: int|
                0 <= k < table.len() && found@.contains(#[trigger] table@[k].pid)
                    && !start.contains(table@[k].pid);
            lemma_rows_outside_shrink(table@, start.to_set(), found@.to_set(), k);
        }
    }
}

/// The process group the first row for `pid` gives, if any.
pub fn process_group_in(table: &[ProcessEntry], pid: u32) -> (group: Option<u32>)
    ensures
        group == group_of(table@, pid),
{
    let mut i: usize = 0;
    assert(table@.subrange(0, table@.len() as int) =~= table@);
    while i < table.len()
        invariant
            i <= table.len(),
            group_of(table@, pid) == group_of(table@.subrange(i as int, table@.len() as int), pid),
        decreases table.len() - i,
    {
        let ghost rest = table@.subrange(i as int, table@.len() as int);
        assert(rest.drop_first() =~= table@.subrange(i + 1, table@.len() as int));
        if table[i].pid == pid {
            return table[i].process_group;
        }
        i += 1;
    }
    assert(table@.subrange(i as int, table@.len() as int) =~= Seq::<ProcessEntry>::empty());
    None
}

/// The processes belonging to the command the shell `shell_pid` is running.
///
/// Every process of the job descends from the shell, so the descendants are
/// the outer bound. When the terminal's foreground process group is known it
/// narrows them to that job; the shell itself joins when it is in that group
/// (`shell_group`), since builtins run in the shell. When the narrowing leaves
/// nothing, the group is stale or unreadable and all descendants are kept.
/// Each process is listed once; only where the parent links run in a cycle
/// back to the shell can the shell be listed twice.
pub fn command_process_tree(
    table: &[ProcessEntry],
    shell_pid: u32,
    foreground_pgid: Option<u32>,
    shell_group: Option<u32>,
) -> (tree: Vec<u32>)
    ensures
        tree@.to_set() == command_tree_set(table@, shell_pid, foreground_pgid, shell_group),
        forall|i: int, j: int|
            0 <= i < j < tree@.len() && tree@[i] == tree@[j] ==> tree@[i] == shell_pid
                && is_descendant(table@, shell_pid, shell_pid),
{
    let descendants = descendants_of(table, shell_pid);
    let pgid = match foreground_pgid {
        None => {
            return descendants;
        },
        Some(pgid) => pgid,
    };
    let ghost all = descendant_set(table@, shell_pid);
    let ghost in_group = all.filter(|p: u32| group_of(table@, p) == Some(pgid));
    let mut narrowed: Vec<u32> = Vec::new();
    let mut i: usize = 0;
    while i < descendants.len()
        invariant
            i <= descendants.len(),
            descendants@.to_set() == all,
            all == descendant_set(table@, shell_pid),
            in_group == all.filter(|p: u32| group_of(table@, p) == Some(pgid)),
            narrowed@.to_set() == descendants@.subrange(0, i as int).to_set().filter(
                |p: u32| group_of(table@, p) == Some(pgid),
            ),
            descendants@.no_duplicates(),
            narrowed@.no_duplicates(),
        decreases descendants.len() - i,
    {
        let p = descendants[i];
        let ghost before = narrowed@;
        let ghost prefix = descendants@.subrange(0, i as int);
        assert(descendants@.subrange(0, i + 1) =~= prefix.push(p));
        proof { prefix.lemma_push_to_set_commute(p); }
        if process_group_in(table, p) == Some(pgid) {
            assert(!before.contains(p)) by {
                if before.contains(p) {
                    assert(before.to_set().contains(p));
                    let k = choose|k: int| 0 <= k < prefix.len() && #[trigger] prefix[k] == p;
                    assert(descendants@[k] == descendants@[i as int]);
                }
            }
            narrowed.push(p);
            proof { before.lemma_push_to_set_commute(p); }
        }
        assert(narrowed@.to_set() =~= descendants@.subrange(0, i + 1).to_set().filter(
            |p: u32| group_of(table@, p) == Some(pgid),
        ));
        i += 1;
    }
    assert(descendants@.subrange(0, descendants.len() as int) =~= descendants@);
    assert(narrowed@.to_set() =~= in_group);
    let ghost before_shell = narrowed@;
    if shell_group == Some(pgid) {
        narrowed.push(shell_pid);
        proof {
            before_shell.lemma_push_to_set_commute(shell_pid);
            assert forall|a: int, b: int|
                0 <= a < b < narrowed@.len() && narrowed@[a] == narrowed@[b] implies narrowed@[a]
                == shell_pid && is_descendant(table@, shell_pid, shell_pid) by {
                assert(b == before_shell.len());
                assert(before_shell[a] == shell_pid);
                assert(before_shell.to_set().contains(shell_pid));
            }
        }
    }
    assert(narrowed@.to_set() =~= foreground_set(table@, shell_pid, pgid, shell_group));
    if narrowed.len() == 0 {
        assert(narrowed@.to_set() =~= Set::<u32>::empty());
        return descendants;
    }
    assert(narrowed@.to_set().contains(narrowed@[0]));
    narrowed
}

} // verus!
