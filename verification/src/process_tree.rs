//! Enumeration of the descendants of a process in a snapshot of the
//! system's process table, and the order in which a tree is brought down.
use vstd::prelude::*;

verus! {

/// One row of a process-table snapshot: a process and, where known, its parent.
#[derive(Debug, Clone, Copy, PartialEq, Eq, Structural)]
pub struct ProcessEntry {
    pub pid: u32,
    pub parent: Option<u32>,
}

/// The descendants of `parent` found by scanning `table` from index `i`,
/// in post-order: each child comes after all of its own descendants.
/// `fuel` bounds how many generations below the children are explored.
pub open spec fn collect_descendants(
    table: Seq<ProcessEntry>,
    parent: u32,
    fuel: nat,
    i: int,
) -> Seq<u32>
    decreases fuel, table.len() - i,
{
    if i < 0 || i >= table.len() {
        Seq::empty()
    } else {
        let rest = collect_descendants(table, parent, fuel, i + 1);
        if table[i].parent == Some(parent) {
            let below = if fuel == 0 {
                Seq::empty()
            } else {
                collect_descendants(table, table[i].pid, (fuel - 1) as nat, 0)
            };
            below + seq![table[i].pid] + rest
        } else {
            rest
        }
    }
}

/// All descendants of `root` in `table`, grandchildren before their parent.
pub open spec fn descendants(table: Seq<ProcessEntry>, root: u32) -> Seq<u32> {
    collect_descendants(table, root, table.len(), 0)
}

/// `table` has a row for `child` whose parent is `parent`.
pub open spec fn has_child(table: Seq<ProcessEntry>, parent: u32, child: u32) -> bool {
    exists|i: int| 0 <= i < table.len() && table[i].pid == child && table[i].parent == Some(parent)
}

/// `chain` walks down from `root`: its first process is a child of `root` and
/// each further process is a child of the one before.
pub open spec fn is_descent(table: Seq<ProcessEntry>, root: u32, chain: Seq<u32>) -> bool {
    &&& chain.len() >= 1
    &&& has_child(table, root, chain[0])
    &&& forall|k: int| 0 <= k < chain.len() - 1 ==> has_child(table, chain[k], #[trigger] chain[k + 1])
}

/// Every process in `order` has a row in `table` whose parent is `root` or a
/// process that comes later in `order`: children come before their parents.
pub open spec fn children_before_parents(
    table: Seq<ProcessEntry>,
    root: u32,
    order: Seq<u32>,
) -> bool {
    forall|j: int|
        0 <= j < order.len() ==> exists|i: int|
            0 <= i < table.len() && table[i].pid == #[trigger] order[j] && (table[i].parent
                == Some(root) || exists|k: int|
                j < k < order.len() && table[i].parent == Some(order[k]))
}


/// Post-order enumeration never places a process after its parent.
proof fn lemma_collect_order(table: Seq<ProcessEntry>, p: u32, fuel: nat, i: int)
    ensures
        children_before_parents(table, p, collect_descendants(table, p, fuel, i)),
    decreases fuel, table.len() - i,
{
    if i < 0 || i >= table.len() {
    } else {
        let rest = collect_descendants(table, p, fuel, i + 1);
        lemma_collect_order(table, p, fuel, i + 1);
        if table[i].parent == Some(p) {
            let pid = table[i].pid;
            let below = if fuel == 0 {
                Seq::<u32>::empty()
            } else {
                collect_descendants(table, pid, (fuel - 1) as nat, 0)
            };
            if fuel > 0 {
                lemma_collect_order(table, pid, (fuel - 1) as nat, 0);
            }
            let s = below + seq![pid] + rest;
            assert(s == collect_descendants(table, p, fuel, i));
            assert forall|j: int| 0 <= j < s.len() implies exists|ii: int|
                0 <= ii < table.len() && table[ii].pid == #[trigger] s[j] && (table[ii].parent
                    == Some(p) || exists|k: int|
                    j < k < s.len() && table[ii].parent == Some(s[k])) by {
                let bl = below.len() as int;
                if j < bl {
                    assert(s[j] == below[j]);
                    let ii = choose|ii: int|
                        0 <= ii < table.len() && table[ii].pid == #[trigger] below[j] && (
                        table[ii].parent == Some(pid) || exists|k: int|
                            j < k < below.len() && table[ii].parent == Some(below[k]));
                    if table[ii].parent == Some(pid) {
                        assert(s[bl] == pid);
                    } else {
                        let k = choose|k: int| j < k < below.len() && table[ii].parent == Some(below[k]);
                        assert(s[k] == below[k]);
                    }
                } else if j == bl {
                    assert(s[j] == pid);
                } else {
                    let jj = j - bl - 1;
                    assert(s[j] == rest[jj]);
                    let ii = choose|ii: int|
                        0 <= ii < table.len() && table[ii].pid == #[trigger] rest[jj] && (
                        table[ii].parent == Some(p) || exists|k: int|
                            jj < k < rest.len() && table[ii].parent == Some(rest[k]));
                    if table[ii].parent != Some(p) {
                        let k = choose|k: int| jj < k < rest.len() && table[ii].parent == Some(rest[k]);
                        assert(s[k + bl + 1] == rest[k]);
                    }
                }
            }
        }
    }
}

/// Law: in the enumeration of a tree, every process comes before its parent,
/// and the parent of every process listed is the root or listed later.
pub proof fn lemma_descendants_children_first(table: Seq<ProcessEntry>, root: u32)
    ensures
        children_before_parents(table, root, descendants(table, root)),
{
    lemma_collect_order(table, root, table.len(), 0);
}


/// A child row found at or after the scan position is listed, and so is
/// everything listed below it.
proof fn lemma_collect_includes_child(
    table: Seq<ProcessEntry>,
    p: u32,
    fuel: nat,
    i0: int,
    j: int,
)
    requires
        0 <= j <= i0 < table.len(),
        table[i0].parent == Some(p),
    ensures
        collect_descendants(table, p, fuel, j).contains(table[i0].pid),
        fuel > 0 ==> forall|x: u32|
            collect_descendants(table, table[i0].pid, (fuel - 1) as nat, 0).contains(x)
                ==> #[trigger] collect_descendants(table, p, fuel, j).contains(x),
    decreases i0 - j,
{
    let s = collect_descendants(table, p, fuel, j);
    if j == i0 {
        let pid = table[i0].pid;
        let below = if fuel == 0 {
            Seq::<u32>::empty()
        } else {
            collect_descendants(table, pid, (fuel - 1) as nat, 0)
        };
        let rest = collect_descendants(table, p, fuel, j + 1);
        assert(s == below + seq![pid] + rest);
        assert(s[below.len() as int] == pid);
        if fuel > 0 {
            assert forall|x: u32| below.contains(x) implies #[trigger] s.contains(x) by {
                let k = choose|k: int| 0 <= k < below.len() && below[k] == x;
                assert(s[k] == below[k]);
            }
        }
    } else {
        lemma_collect_includes_child(table, p, fuel, i0, j + 1);
        let next = collect_descendants(table, p, fuel, j + 1);
        let front = s.subrange(0, s.len() - next.len());
        assert(s =~= front + next) by {
            if table[j].parent == Some(p) {
                let below = if fuel == 0 {
                    Seq::<u32>::empty()
                } else {
                    collect_descendants(table, table[j].pid, (fuel - 1) as nat, 0)
                };
                assert(s == below + seq![table[j].pid] + next);
            }
        }
        assert forall|x: u32| next.contains(x) implies #[trigger] s.contains(x) by {
            let k = choose|k: int| 0 <= k < next.len() && next[k] == x;
            assert(s[front.len() + k] == next[k]);
        }
    }
}

/// Everything reached from `p` within `fuel + 1` generations is listed.
proof fn lemma_collect_complete(table: Seq<ProcessEntry>, p: u32, chain: Seq<u32>, fuel: nat)
    requires
        is_descent(table, p, chain),
        chain.len() <= fuel + 1,
    ensures
        collect_descendants(table, p, fuel, 0).contains(chain.last()),
    decreases chain.len(),
{
    let i = choose|i: int|
        0 <= i < table.len() && table[i].pid == chain[0] && table[i].parent == Some(p);
    lemma_collect_includes_child(table, p, fuel, i, 0);
    if chain.len() > 1 {
        let tail = chain.subrange(1, chain.len() as int);
        assert(has_child(table, chain[0], chain[1]));
        assert forall|k: int| 0 <= k < tail.len() - 1 implies has_child(
            table,
            tail[k],
            #[trigger] tail[k + 1],
        ) by {
            assert(tail[k] == chain[k + 1]);
            assert(tail[k + 1] == chain[k + 2]);
        }
        assert(tail.last() == chain.last());
        lemma_collect_complete(table, table[i].pid, tail, (fuel - 1) as nat);
    }
}

/// Law: every process that descends from `root` through a chain of parent links
/// no longer than the table has rows (which, in a table without cycles, is every
/// descendant) is listed.
pub proof fn lemma_descendants_complete(table: Seq<ProcessEntry>, root: u32, chain: Seq<u32>)
    requires
        is_descent(table, root, chain),
        chain.len() <= table.len() + 1,
    ensures
        descendants(table, root).contains(chain.last()),
{
    lemma_collect_complete(table, root, chain, table.len());
}


proof fn lemma_order_reaches(table: Seq<ProcessEntry>, root: u32, order: Seq<u32>, j: int)
    requires
        children_before_parents(table, root, order),
        0 <= j < order.len(),
    ensures
        exists|chain: Seq<u32>| is_descent(table, root, chain) && chain.last() == order[j],
    decreases order.len() - j,
{
    let i = choose|i: int|
        0 <= i < table.len() && table[i].pid == #[trigger] order[j] && (table[i].parent == Some(
            root,
        ) || exists|k: int| j < k < order.len() && table[i].parent == Some(order[k]));
    if table[i].parent == Some(root) {
        let chain = seq![order[j]];
        assert(has_child(table, root, chain[0]));
        assert(is_descent(table, root, chain));
        assert(chain.last() == order[j]);
    } else {
        let k = choose|k: int| j < k < order.len() && table[i].parent == Some(order[k]);
        lemma_order_reaches(table, root, order, k);
        let up = choose|chain: Seq<u32>| is_descent(table, root, chain) && chain.last() == order[k];
        let chain = up.push(order[j]);
        assert(has_child(table, up.last(), order[j]));
        assert forall|m: int| 0 <= m < chain.len() - 1 implies has_child(
            table,
            chain[m],
            #[trigger] chain[m + 1],
        ) by {
            if m < up.len() - 1 {
                assert(chain[m] == up[m]);
                assert(chain[m + 1] == up[m + 1]);
            } else {
                assert(chain[m] == up.last());
                assert(chain[m + 1] == order[j]);
            }
        }
        assert(chain[0] == up[0]);
        assert(is_descent(table, root, chain));
        assert(chain.last() == order[j]);
    }
}

/// Law: every process listed descends from `root` through a chain of parent links.
pub proof fn lemma_descendants_sound(table: Seq<ProcessEntry>, root: u32, j: int)
    requires
        0 <= j < descendants(table, root).len(),
    ensures
        exists|chain: Seq<u32>|
            is_descent(table, root, chain) && chain.last() == descendants(table, root)[j],
{
    lemma_descendants_children_first(table, root);
    lemma_order_reaches(table, root, descendants(table, root), j);
}

/// Every process has at most one row in `table`.
pub open spec fn distinct_pids(table: Seq<ProcessEntry>) -> bool {
    forall|i: int, j: int|
        0 <= i < table.len() && 0 <= j < table.len() && i != j ==> #[trigger] table[i].pid
            != #[trigger] table[j].pid
}

/// `rank` grows from every process of `table` to its parent, so that the
/// parent links have no cycle.
pub open spec fn ranked(table: Seq<ProcessEntry>, rank: spec_fn(u32) -> int) -> bool {
    forall|i: int|
        0 <= i < table.len() && (#[trigger] table[i]).parent is Some ==> rank(table[i].pid) < rank(
            table[i].parent->0,
        )
}

/// The parent recorded for `x` in `table`, if `x` has a row.
spec fn parent_of(table: Seq<ProcessEntry>, x: u32) -> Option<u32> {
    if exists|i: int| 0 <= i < table.len() && table[i].pid == x {
        table[choose|i: int| 0 <= i < table.len() && table[i].pid == x].parent
    } else {
        None
    }
}

/// The process reached from `x` by following `n` parent links.
spec fn up(table: Seq<ProcessEntry>, x: u32, n: nat) -> Option<u32>
    decreases n,
{
    if n == 0 {
        Some(x)
    } else {
        match up(table, x, (n - 1) as nat) {
            Some(y) => parent_of(table, y),
            None => None,
        }
    }
}

proof fn lemma_parent_of_row(table: Seq<ProcessEntry>, k: int)
    requires
        distinct_pids(table),
        0 <= k < table.len(),
    ensures
        parent_of(table, table[k].pid) == table[k].parent,
{
    assert(exists|i: int| 0 <= i < table.len() && table[i].pid == table[k].pid) by {
        assert(table[k].pid == table[k].pid);
    }
    let i = choose|i: int| 0 <= i < table.len() && table[i].pid == table[k].pid;
    if i != k {
        assert(table[i].pid != table[k].pid);
    }
}

proof fn lemma_parent_rank(table: Seq<ProcessEntry>, rank: spec_fn(u32) -> int, y: u32)
    requires
        ranked(table, rank),
        parent_of(table, y) is Some,
    ensures
        rank(y) < rank(parent_of(table, y)->0),
{
    let i = choose|i: int| 0 <= i < table.len() && table[i].pid == y;
    assert(table[i].parent is Some);
}

/// Following parent links only ever climbs in rank.
proof fn lemma_up_rank(table: Seq<ProcessEntry>, rank: spec_fn(u32) -> int, x: u32, n: nat, m: nat)
    requires
        ranked(table, rank),
        n < m,
        up(table, x, n) is Some,
        up(table, x, m) is Some,
    ensures
        rank(up(table, x, n)->0) < rank(up(table, x, m)->0),
    decreases m,
{
    let prev = up(table, x, (m - 1) as nat);
    assert(prev is Some);
    lemma_parent_rank(table, rank, prev->0);
    if n < m - 1 {
        lemma_up_rank(table, rank, x, n, (m - 1) as nat);
    }
}

/// A process listed below `p` reaches `p` by parent links, through a child
/// of `p` whose row is at or after the scan position.
proof fn lemma_member_path(table: Seq<ProcessEntry>, p: u32, fuel: nat, i: int, x: u32) -> (w: (
    nat,
    int,
))
    requires
        distinct_pids(table),
        collect_descendants(table, p, fuel, i).contains(x),
    ensures
        w.0 >= 1,
        i <= w.1 < table.len(),
        table[w.1].parent == Some(p),
        up(table, x, (w.0 - 1) as nat) == Some(table[w.1].pid),
        up(table, x, w.0) == Some(p),
    decreases fuel, table.len() - i,
{
    let s = collect_descendants(table, p, fuel, i);
    if i < 0 || i >= table.len() {
        assert(s.len() == 0);
        assert(false);
        (1, 0)
    } else {
        let rest = collect_descendants(table, p, fuel, i + 1);
        if table[i].parent == Some(p) {
            let c = table[i].pid;
            let below = if fuel == 0 {
                Seq::<u32>::empty()
            } else {
                collect_descendants(table, c, (fuel - 1) as nat, 0)
            };
            assert(s == below + seq![c] + rest);
            let k = choose|k: int| 0 <= k < s.len() && s[k] == x;
            lemma_parent_of_row(table, i);
            if k < below.len() {
                assert(below[k] == x);
                assert(below.contains(x));
                let w2 = lemma_member_path(table, c, (fuel - 1) as nat, 0, x);
                assert(up(table, x, w2.0 + 1) == parent_of(table, c));
                (w2.0 + 1, i)
            } else if k == below.len() {
                assert(x == c);
                assert(up(table, x, 0) == Some(c));
                assert(up(table, x, 1) == parent_of(table, c));
                (1, i)
            } else {
                assert(rest[k - below.len() - 1] == x);
                assert(rest.contains(x));
                lemma_member_path(table, p, fuel, i + 1, x)
            }
        } else {
            assert(s == rest);
            lemma_member_path(table, p, fuel, i + 1, x)
        }
    }
}

proof fn lemma_concat_distinct(a: Seq<u32>, b: Seq<u32>)
    requires
        a.no_duplicates(),
        b.no_duplicates(),
        forall|x: u32| a.contains(x) ==> !b.contains(x),
    ensures
        (a + b).no_duplicates(),
{
    let s = a + b;
    assert forall|i: int, j: int| 0 <= i < s.len() && 0 <= j < s.len() && i != j implies s[i]
        != s[j] by {
        if i < a.len() && j >= a.len() {
            assert(s[i] == a[i]);
            assert(s[j] == b[j - a.len()]);
            assert(a.contains(a[i]));
            if s[i] == s[j] {
                assert(b.contains(b[j - a.len()]));
            }
        } else if j < a.len() && i >= a.len() {
            assert(s[j] == a[j]);
            assert(s[i] == b[i - a.len()]);
            assert(a.contains(a[j]));
            if s[i] == s[j] {
                assert(b.contains(b[i - a.len()]));
            }
        } else if i < a.len() {
            assert(s[i] == a[i] && s[j] == a[j]);
        } else {
            assert(s[i] == b[i - a.len()] && s[j] == b[j - a.len()]);
        }
    }
}

proof fn lemma_collect_distinct(
    table: Seq<ProcessEntry>,
    rank: spec_fn(u32) -> int,
    p: u32,
    fuel: nat,
    i: int,
)
    requires
        distinct_pids(table),
        ranked(table, rank),
    ensures
        collect_descendants(table, p, fuel, i).no_duplicates(),
    decreases fuel, table.len() - i,
{
    if i < 0 || i >= table.len() {
    } else {
        let rest = collect_descendants(table, p, fuel, i + 1);
        lemma_collect_distinct(table, rank, p, fuel, i + 1);
        if table[i].parent == Some(p) {
            let c = table[i].pid;
            let below = if fuel == 0 {
                Seq::<u32>::empty()
            } else {
                collect_descendants(table, c, (fuel - 1) as nat, 0)
            };
            if fuel > 0 {
                lemma_collect_distinct(table, rank, c, (fuel - 1) as nat, 0);
            }
            lemma_parent_of_row(table, i);
            assert(up(table, c, 0) == Some(c));
            assert(up(table, c, 1) == parent_of(table, c));
            // The child is not below itself.
            assert(!below.contains(c)) by {
                if below.contains(c) {
                    let w = lemma_member_path(table, c, (fuel - 1) as nat, 0, c);
                    lemma_up_rank(table, rank, c, 0, w.0);
                }
            }
            // The child is not listed again for a later row.
            assert(!rest.contains(c)) by {
                if rest.contains(c) {
                    let w = lemma_member_path(table, p, fuel, i + 1, c);
                    if w.0 > 1 {
                        lemma_up_rank(table, rank, c, 1, w.0);
                    }
                    assert(table[w.1].pid == c);
                }
            }
            // Nothing below the child is listed again for a later row.
            assert forall|x: u32| below.contains(x) implies !rest.contains(x) by {
                if rest.contains(x) {
                    let w1 = lemma_member_path(table, c, (fuel - 1) as nat, 0, x);
                    let w2 = lemma_member_path(table, p, fuel, i + 1, x);
                    assert(up(table, x, w1.0 + 1) == parent_of(table, c));
                    if w1.0 + 1 < w2.0 {
                        lemma_up_rank(table, rank, x, w1.0 + 1, w2.0);
                    } else if w1.0 + 1 > w2.0 {
                        lemma_up_rank(table, rank, x, w2.0, w1.0 + 1);
                    } else {
                        assert(table[w2.1].pid == c);
                    }
                }
            }
            let bc = below + seq![c];
            assert(seq![c].no_duplicates());
            assert forall|x: u32| below.contains(x) implies !seq![c].contains(x) by {
                if seq![c].contains(x) {
                    assert(seq![c][0] == c);
                }
            }
            lemma_concat_distinct(below, seq![c]);
            assert forall|x: u32| bc.contains(x) implies !rest.contains(x) by {
                let k = choose|k: int| 0 <= k < bc.len() && bc[k] == x;
                if k < below.len() {
                    assert(below[k] == x);
                    assert(below.contains(x));
                } else {
                    assert(x == c);
                }
            }
            lemma_concat_distinct(bc, rest);
            assert(collect_descendants(table, p, fuel, i) == bc + rest);
        }
    }
}

/// Law: where every process has one row and the parent links have no cycle
/// (a rank grows from each process to its parent), each descendant is listed
/// exactly once, so no process is signalled twice.
pub proof fn lemma_descendants_once(table: Seq<ProcessEntry>, root: u32, rank: spec_fn(u32) -> int)
    requires
        distinct_pids(table),
        ranked(table, rank),
    ensures
        descendants(table, root).no_duplicates(),
{
    lemma_collect_distinct(table, rank, root, table.len(), 0);
}

/// Appends to `result` the descendants of `parent`, scanning the table from the start.
fn collect_into(table: &Vec<ProcessEntry>, parent: u32, fuel: usize, result: &mut Vec<u32>)
    ensures
        final(result)@ == old(result)@ + collect_descendants(table@, parent, fuel as nat, 0),
    decreases fuel,
{
    let ghost start = old(result)@;
    let mut i: usize = 0;
    while i < table.len()
        invariant
            0 <= i <= table.len(),
            start + collect_descendants(table@, parent, fuel as nat, 0) == result@
                + collect_descendants(table@, parent, fuel as nat, i as int),
        decreases table.len() - i,
    {
        let entry = table[i];
        let ghost before = result@;
        if entry.parent == Some(parent) {
            if fuel > 0 {
                collect_into(table, entry.pid, fuel - 1, result);
            }
            result.push(entry.pid);
        }
        assert(before + collect_descendants(table@, parent, fuel as nat, i as int) =~= result@
            + collect_descendants(table@, parent, fuel as nat, i + 1));
        i = i + 1;
    }
    assert(collect_descendants(table@, parent, fuel as nat, i as int) =~= Seq::<u32>::empty());
    assert(result@ =~= start + collect_descendants(table@, parent, fuel as nat, 0));
}

/// Finds all descendants of `parent_pid` in a snapshot of the process table:
/// grandchildren are found first, then their parent is added.
pub fn find_child_processes(table: &Vec<ProcessEntry>, parent_pid: u32) -> (result: Vec<u32>)
    ensures
        result@ == descendants(table@, parent_pid),
{
    let mut result: Vec<u32> = Vec::new();
    collect_into(table, parent_pid, table.len(), &mut result);
    assert(result@ =~= descendants(table@, parent_pid));
    result
}

} // verus!
