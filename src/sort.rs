use crate::entry::{unique_pids, ProcessEntry};
use crate::priority::priority_rank;
use crate::text::{
    compare_str, lemma_seq_cmp_antisym, lemma_seq_cmp_trans, lower_of, lowercase, seq_cmp,
};
use vstd::multiset::Multiset;
use vstd::prelude::*;

verus! {

broadcast use vstd::seq_lib::group_to_multiset_ensures;

/// The column that the process list is ordered by.
#[derive(Debug, Clone, Copy, PartialEq, Eq, Structural)]
pub enum SortColumn {
    Cpu,
    Memory,
    Name,
    Pid,
    Priority,
    Threads,
    Handles,
    Uptime,
    DiskReadRate,
    DiskWriteRate,
}

/// The successor of each column on the ring that `next` walks.
pub open spec fn spec_next(c: SortColumn) -> SortColumn {
    match c {
        SortColumn::Cpu => SortColumn::Memory,
        SortColumn::Memory => SortColumn::Name,
        SortColumn::Name => SortColumn::Pid,
        SortColumn::Pid => SortColumn::Priority,
        SortColumn::Priority => SortColumn::Threads,
        SortColumn::Threads => SortColumn::Handles,
        SortColumn::Handles => SortColumn::Uptime,
        SortColumn::Uptime => SortColumn::DiskReadRate,
        SortColumn::DiskReadRate => SortColumn::DiskWriteRate,
        SortColumn::DiskWriteRate => SortColumn::Cpu,
    }
}

/// Display name of each column.
pub open spec fn spec_column_name(c: SortColumn) -> Seq<char> {
    match c {
        SortColumn::Cpu => "CPU%"@,
        SortColumn::Memory => "Memory"@,
        SortColumn::Name => "Name"@,
        SortColumn::Pid => "PID"@,
        SortColumn::Priority => "Priority"@,
        SortColumn::Threads => "Threads"@,
        SortColumn::Handles => "Handles"@,
        SortColumn::Uptime => "Uptime"@,
        SortColumn::DiskReadRate => "Read/s"@,
        SortColumn::DiskWriteRate => "Write/s"@,
    }
}

impl SortColumn {
    /// The next column on the ring.
    pub fn next(self) -> (r: SortColumn)
        ensures
            r == spec_next(self),
    {
        match self {
            SortColumn::Cpu => SortColumn::Memory,
            SortColumn::Memory => SortColumn::Name,
            SortColumn::Name => SortColumn::Pid,
            SortColumn::Pid => SortColumn::Priority,
            SortColumn::Priority => SortColumn::Threads,
            SortColumn::Threads => SortColumn::Handles,
            SortColumn::Handles => SortColumn::Uptime,
            SortColumn::Uptime => SortColumn::DiskReadRate,
            SortColumn::DiskReadRate => SortColumn::DiskWriteRate,
            SortColumn::DiskWriteRate => SortColumn::Cpu,
        }
    }

    /// The display name of the column.
    pub fn name(&self) -> (r: &'static str)
        ensures
            r@ == spec_column_name(*self),
    {
        match self {
            SortColumn::Cpu => "CPU%",
            SortColumn::Memory => "Memory",
            SortColumn::Name => "Name",
            SortColumn::Pid => "PID",
            SortColumn::Priority => "Priority",
            SortColumn::Threads => "Threads",
            SortColumn::Handles => "Handles",
            SortColumn::Uptime => "Uptime",
            SortColumn::DiskReadRate => "Read/s",
            SortColumn::DiskWriteRate => "Write/s",
        }
    }
}

/// -1, 0 or 1 as `a` is below, equal to or above `b`.
pub open spec fn int_cmp(a: int, b: int) -> int {
    if a < b {
        -1
    } else if a > b {
        1
    } else {
        0
    }
}

/// The column's own order: every column descends (highest usage first,
/// names Z to A case-insensitively, highest pid first).
pub open spec fn column_cmp(col: SortColumn, a: ProcessEntry, b: ProcessEntry) -> int {
    match col {
        SortColumn::Cpu => int_cmp(b.cpu_usage as int, a.cpu_usage as int),
        SortColumn::Memory => int_cmp(b.memory_bytes as int, a.memory_bytes as int),
        SortColumn::Name => seq_cmp(lower_of(b.info.name@), lower_of(a.info.name@)),
        SortColumn::Pid => int_cmp(b.info.pid as int, a.info.pid as int),
        SortColumn::Priority => int_cmp(priority_rank(b.priority), priority_rank(a.priority)),
        SortColumn::Threads => int_cmp(b.thread_count as int, a.thread_count as int),
        SortColumn::Handles => int_cmp(b.handle_count as int, a.handle_count as int),
        SortColumn::Uptime => int_cmp(b.uptime_seconds as int, a.uptime_seconds as int),
        SortColumn::DiskReadRate => int_cmp(b.disk_read_rate as int, a.disk_read_rate as int),
        SortColumn::DiskWriteRate => int_cmp(b.disk_write_rate as int, a.disk_write_rate as int),
    }
}

/// The column order with ties broken by descending pid, reversed as a whole
/// when `ascending` is set.
pub open spec fn entry_cmp(col: SortColumn, ascending: bool, a: ProcessEntry, b: ProcessEntry) -> int {
    let c = column_cmp(col, a, b);
    let full = if c != 0 {
        c
    } else {
        int_cmp(b.info.pid as int, a.info.pid as int)
    };
    if ascending {
        -full
    } else {
        full
    }
}

/// Every entry may stand before each later one.
pub open spec fn sorted_by(col: SortColumn, ascending: bool, s: Seq<ProcessEntry>) -> bool {
    forall|i: int, j: int|
        0 <= i < j < s.len() ==> entry_cmp(col, ascending, #[trigger] s[i], #[trigger] s[j]) <= 0
}

/// A column comparison is antisymmetric and yields -1, 0 or 1.
pub proof fn lemma_column_cmp_props(col: SortColumn, a: ProcessEntry, b: ProcessEntry)
    ensures
        column_cmp(col, a, b) == -column_cmp(col, b, a),
        -1 <= column_cmp(col, a, b) <= 1,
{
    if col == SortColumn::Name {
        lemma_seq_cmp_antisym(lower_of(a.info.name@), lower_of(b.info.name@));
    }
}

/// The entry order is antisymmetric, ties only on equal pids, and the
/// reversed direction negates it.
pub proof fn lemma_entry_cmp_antisym(col: SortColumn, ascending: bool, a: ProcessEntry, b: ProcessEntry)
    ensures
        entry_cmp(col, ascending, a, b) == -entry_cmp(col, ascending, b, a),
        -1 <= entry_cmp(col, ascending, a, b) <= 1,
        entry_cmp(col, ascending, a, b) == 0 ==> a.info.pid == b.info.pid,
        entry_cmp(col, !ascending, a, b) == -entry_cmp(col, ascending, a, b),
{
    lemma_column_cmp_props(col, a, b);
}

/// The entry order is transitive.
pub proof fn lemma_entry_cmp_trans(
    col: SortColumn,
    ascending: bool,
    a: ProcessEntry,
    b: ProcessEntry,
    c: ProcessEntry,
)
    requires
        entry_cmp(col, ascending, a, b) <= 0,
        entry_cmp(col, ascending, b, c) <= 0,
    ensures
        entry_cmp(col, ascending, a, c) <= 0,
{
    lemma_column_cmp_props(col, a, b);
    lemma_column_cmp_props(col, b, c);
    lemma_column_cmp_props(col, a, c);
    if col == SortColumn::Name {
        let (ka, kb, kc) = (
            lower_of(a.info.name@),
            lower_of(b.info.name@),
            lower_of(c.info.name@),
        );
        lemma_seq_cmp_antisym(ka, kb);
        lemma_seq_cmp_antisym(kb, kc);
        lemma_seq_cmp_antisym(ka, kc);
        if seq_cmp(kb, ka) <= 0 && seq_cmp(kc, kb) <= 0 {
            lemma_seq_cmp_trans(kc, kb, ka);
        }
        if seq_cmp(ka, kb) <= 0 && seq_cmp(kb, kc) <= 0 {
            lemma_seq_cmp_trans(ka, kb, kc);
        }
    }
}

/// Compares two entries as `entry_cmp` does.
pub fn compare_entries(col: SortColumn, ascending: bool, a: &ProcessEntry, b: &ProcessEntry) -> (r:
    i8)
    ensures
        r as int == entry_cmp(col, ascending, *a, *b),
{
    proof {
        lemma_column_cmp_props(col, *a, *b);
    }
    let c: i8 = match col {
        SortColumn::Cpu => cmp_u64(b.cpu_usage as u64, a.cpu_usage as u64),
        SortColumn::Memory => cmp_u64(b.memory_bytes, a.memory_bytes),
        SortColumn::Name => {
            let ka = lowercase(a.info.name.as_str());
            let kb = lowercase(b.info.name.as_str());
            compare_str(kb.as_str(), ka.as_str())
        },
        SortColumn::Pid => cmp_u64(b.info.pid as u64, a.info.pid as u64),
        SortColumn::Priority => cmp_u64(b.priority.rank() as u64, a.priority.rank() as u64),
        SortColumn::Threads => cmp_u64(b.thread_count as u64, a.thread_count as u64),
        SortColumn::Handles => cmp_u64(b.handle_count as u64, a.handle_count as u64),
        SortColumn::Uptime => cmp_u64(b.uptime_seconds, a.uptime_seconds),
        SortColumn::DiskReadRate => cmp_u64(b.disk_read_rate, a.disk_read_rate),
        SortColumn::DiskWriteRate => cmp_u64(b.disk_write_rate, a.disk_write_rate),
    };
    let full = if c != 0 {
        c
    } else {
        cmp_u64(b.info.pid as u64, a.info.pid as u64)
    };
    if ascending {
        -full
    } else {
        full
    }
}

fn cmp_u64(a: u64, b: u64) -> (r: i8)
    ensures
        r as int == int_cmp(a as int, b as int),
{
    if a < b {
        -1
    } else if a > b {
        1
    } else {
        0
    }
}

/// Orders `entries` by `col`, reversed when `ascending` is set; ties on the
/// column are broken by pid.
pub fn sort_entries(entries: Vec<ProcessEntry>, col: SortColumn, ascending: bool) -> (r: Vec<
    ProcessEntry,
>)
    ensures
        r@.to_multiset() == entries@.to_multiset(),
        sorted_by(col, ascending, r@),
{
    let mut rest = entries;
    let mut out: Vec<ProcessEntry> = Vec::new();
    while rest.len() > 0
        invariant
            out@.to_multiset().add(rest@.to_multiset()) == entries@.to_multiset(),
            sorted_by(col, ascending, out@),
        decreases rest@.len(),
    {
        let ghost before = rest@;
        let x = rest.pop().unwrap();
        proof {
            assert(before == rest@.push(x));
            vstd::seq_lib::lemma_multiset_commutative(rest@, seq![x]);
            assert(rest@ + seq![x] == rest@.push(x));
            assert(seq![x].to_multiset() =~= Multiset::singleton(x)) by {
                assert(seq![x] == Seq::<ProcessEntry>::empty().push(x));
            }
        }
        let mut p: usize = 0;
        let mut found = false;
        while p < out.len() && !found
            invariant
                p <= out@.len(),
                forall|k: int| 0 <= k < p ==> entry_cmp(col, ascending, x, #[trigger] out@[k]) >= 0,
                found ==> p < out@.len() && entry_cmp(col, ascending, x, out@[p as int]) < 0,
            decreases out@.len() - p + if found {
                0int
            } else {
                1int
            },
        {
            if compare_entries(col, ascending, &x, &out[p]) < 0 {
                found = true;
            } else {
                p += 1;
            }
        }
        let ghost old_out = out@;
        out.insert(p, x);
        proof {
            assert(out@ == old_out.insert(p as int, x));
            assert forall|i: int, j: int| 0 <= i < j < out@.len() implies entry_cmp(
                col,
                ascending,
                #[trigger] out@[i],
                #[trigger] out@[j],
            ) <= 0 by {
                if i < p && j == p {
                    lemma_entry_cmp_antisym(col, ascending, x, old_out[i]);
                } else if i == p && j > p {
                    lemma_entry_cmp_antisym(col, ascending, x, old_out[p as int]);
                    if j - 1 > p {
                        lemma_entry_cmp_trans(col, ascending, x, old_out[p as int], old_out[j - 1]);
                    }
                } else if i < p && j > p {
                    assert(entry_cmp(col, ascending, old_out[i], old_out[j - 1]) <= 0);
                } else if i > p {
                    assert(entry_cmp(col, ascending, old_out[i - 1], old_out[j - 1]) <= 0);
                }
            }
        }
    }
    out
}

/// Two orderings of the same entries that are both sorted by one column and
/// direction are the same sequence, when pids are unique.
pub proof fn lemma_sorted_unique(
    col: SortColumn,
    ascending: bool,
    s1: Seq<ProcessEntry>,
    s2: Seq<ProcessEntry>,
)
    requires
        s1.to_multiset() == s2.to_multiset(),
        sorted_by(col, ascending, s1),
        sorted_by(col, ascending, s2),
        unique_pids(s1),
    ensures
        s1 == s2,
    decreases s1.len(),
{
    s1.to_multiset_ensures();
    s2.to_multiset_ensures();
    if s1.len() == 0 {
        assert(s2.len() == 0);
        assert(s1 =~= s2);
    } else {
        let a = s1[0];
        let b = s2[0];
        assert(s1.to_multiset().count(b) > 0) by {
            assert(s2.to_multiset().count(b) > 0);
        }
        assert(s1.contains(b));
        let j = choose|j: int| 0 <= j < s1.len() && s1[j] == b;
        assert(s2.contains(a)) by {
            assert(s2.to_multiset().count(a) > 0);
        }
        let k = choose|k: int| 0 <= k < s2.len() && s2[k] == a;
        if j > 0 {
            assert(entry_cmp(col, ascending, s1[0], s1[j]) <= 0);
        }
        if k > 0 {
            assert(entry_cmp(col, ascending, s2[0], s2[k]) <= 0);
        }
        lemma_entry_cmp_antisym(col, ascending, a, b);
        assert(a.info.pid == b.info.pid);
        assert(j == 0) by {
            if j != 0 {
                assert(s1[0].info.pid != s1[j].info.pid);
            }
        }
        assert(a == b);
        let t1 = s1.drop_first();
        let t2 = s2.drop_first();
        assert(s1 =~= seq![a] + t1);
        assert(s2 =~= seq![a] + t2);
        vstd::seq_lib::lemma_multiset_commutative(seq![a], t1);
        vstd::seq_lib::lemma_multiset_commutative(seq![a], t2);
        assert(t1.to_multiset() =~= t2.to_multiset()) by {
            assert forall|v: ProcessEntry| #[trigger] t1.to_multiset().count(v) == t2.to_multiset().count(v) by {
                assert(s1.to_multiset().count(v) == seq![a].to_multiset().count(v) + t1.to_multiset().count(v));
                assert(s2.to_multiset().count(v) == seq![a].to_multiset().count(v) + t2.to_multiset().count(v));
            }
        }
        assert(sorted_by(col, ascending, t1)) by {
            assert forall|i: int, jj: int| 0 <= i < jj < t1.len() implies entry_cmp(
                col,
                ascending,
                #[trigger] t1[i],
                #[trigger] t1[jj],
            ) <= 0 by {
                assert(t1[i] == s1[i + 1] && t1[jj] == s1[jj + 1]);
            }
        }
        assert(sorted_by(col, ascending, t2)) by {
            assert forall|i: int, jj: int| 0 <= i < jj < t2.len() implies entry_cmp(
                col,
                ascending,
                #[trigger] t2[i],
                #[trigger] t2[jj],
            ) <= 0 by {
                assert(t2[i] == s2[i + 1] && t2[jj] == s2[jj + 1]);
            }
        }
        assert(unique_pids(t1)) by {
            assert forall|i: int, jj: int|
                0 <= i < t1.len() && 0 <= jj < t1.len() && i != jj implies #[trigger] t1[i].info.pid
                != #[trigger] t1[jj].info.pid by {
                assert(t1[i] == s1[i + 1] && t1[jj] == s1[jj + 1]);
            }
        }
        lemma_sorted_unique(col, ascending, t1, t2);
    }
}


proof fn lemma_second_occurrence(s: Seq<ProcessEntry>, v: ProcessEntry)
    requires
        s.to_multiset().count(v) >= 2,
    ensures
        exists|i: int, j: int| 0 <= i < s.len() && 0 <= j < s.len() && i != j && s[i] == v && s[j] == v,
{
    s.to_multiset_ensures();
    assert(s.contains(v));
    let i = choose|i: int| 0 <= i < s.len() && s[i] == v;
    let r = s.remove(i);
    vstd::seq_lib::to_multiset_remove(s, i);
    r.to_multiset_ensures();
    assert(r.to_multiset().count(v) >= 1);
    assert(r.contains(v));
    let k = choose|k: int| 0 <= k < r.len() && r[k] == v;
    if k < i {
        assert(s[k] == v);
    } else {
        assert(s[k + 1] == v);
    }
}

/// Reordering keeps pids unique.
pub proof fn lemma_unique_pids_perm(s: Seq<ProcessEntry>, t: Seq<ProcessEntry>)
    requires
        s.to_multiset() == t.to_multiset(),
        unique_pids(s),
    ensures
        unique_pids(t),
{
    s.to_multiset_ensures();
    t.to_multiset_ensures();
    assert forall|i: int, j: int|
        0 <= i < t.len() && 0 <= j < t.len() && i != j implies #[trigger] t[i].info.pid
        != #[trigger] t[j].info.pid by {
        if t[i].info.pid == t[j].info.pid {
            if t[i] == t[j] {
                let r = t.remove(j);
                vstd::seq_lib::to_multiset_remove(t, j);
                r.to_multiset_ensures();
                let ii = if i < j { i } else { i - 1 };
                assert(r[ii] == t[i]);
                assert(r.to_multiset().count(t[i]) >= 1);
                assert(s.to_multiset().count(t[i]) >= 2);
                lemma_second_occurrence(s, t[i]);
            } else {
                assert(t.to_multiset().count(t[i]) > 0);
                assert(t.to_multiset().count(t[j]) > 0);
                assert(s.contains(t[i]));
                assert(s.contains(t[j]));
                let a = choose|a: int| 0 <= a < s.len() && s[a] == t[i];
                let b = choose|b: int| 0 <= b < s.len() && s[b] == t[j];
                assert(s[a].info.pid == s[b].info.pid);
            }
        }
    }
}

/// Sorting by a column, then toggling the direction twice (each toggle
/// sorting anew), gives back the first order, when pids are unique.
pub proof fn lemma_toggle_direction_twice(
    col: SortColumn,
    ascending: bool,
    entries: Seq<ProcessEntry>,
    first: Seq<ProcessEntry>,
    flipped: Seq<ProcessEntry>,
    restored: Seq<ProcessEntry>,
)
    requires
        unique_pids(entries),
        first.to_multiset() == entries.to_multiset(),
        sorted_by(col, ascending, first),
        flipped.to_multiset() == first.to_multiset(),
        sorted_by(col, !ascending, flipped),
        restored.to_multiset() == flipped.to_multiset(),
        sorted_by(col, ascending, restored),
    ensures
        restored == first,
{
    lemma_unique_pids_perm(entries, first);
    lemma_sorted_unique(col, ascending, first, restored);
}

} // verus!
