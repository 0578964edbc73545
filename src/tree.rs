use crate::entry::{duplicate_all, ProcessEntry};
use crate::sort::{entry_cmp, sort_entries, sorted_by, SortColumn};
use crate::text::{has_infix, lower_of, lowercase, str_contains};
use vstd::prelude::*;

verus! {

broadcast use vstd::seq_lib::group_to_multiset_ensures;

/// Deepest level that the tree view expands to.
pub const MAX_TREE_DEPTH: usize = 10;

/// The entry's name contains the filter text, both taken case-insensitively.
pub open spec fn name_matches(filter: Seq<char>, e: ProcessEntry) -> bool {
    has_infix(lower_of(e.info.name@), lower_of(filter))
}

/// `name_matches` for one filter text, as a predicate.
pub open spec fn matcher(filter: Seq<char>) -> spec_fn(ProcessEntry) -> bool {
    |e: ProcessEntry| name_matches(filter, e)
}

/// The entries that the filter text lets through, in order; all of them for
/// an empty filter.
pub open spec fn filtered(filter: Seq<char>, s: Seq<ProcessEntry>) -> Seq<ProcessEntry> {
    if filter.len() == 0 {
        s
    } else {
        s.filter(matcher(filter))
    }
}

/// Whether a case-folded name contains a case-folded filter text.
pub fn matches_folded(folded_filter: &str, folded_name: &str) -> (r: bool)
    ensures
        r == has_infix(folded_name@, folded_filter@),
{
    str_contains(folded_name, folded_filter)
}

/// Keeps the entries whose name contains `filter`, ignoring case, in their
/// order; an empty filter keeps a full copy of the list.
pub fn filter_entries(entries: &Vec<ProcessEntry>, filter: &str) -> (r: Vec<ProcessEntry>)
    ensures
        r@ == filtered(filter@, entries@),
        filter@.len() == 0 ==> r@ == entries@,
{
    if filter.is_empty() {
        return duplicate_all(entries);
    }
    let needle = lowercase(filter);
    let ghost pred = matcher(filter@);
    let mut r: Vec<ProcessEntry> = Vec::new();
    let mut i: usize = 0;
    while i < entries.len()
        invariant
            i <= entries@.len(),
            needle@ == lower_of(filter@),
            pred == matcher(filter@),
            r@ == entries@.subrange(0, i as int).filter(pred),
        decreases entries@.len() - i,
    {
        let name = lowercase(entries[i].info.name.as_str());
        let keep = matches_folded(needle.as_str(), name.as_str());
        let ghost prev = r@;
        proof {
            assert(name@ == lower_of(entries@[i as int].info.name@));
            assert(keep == name_matches(filter@, entries@[i as int]));
            assert(keep == pred(entries@[i as int]));
        }
        if keep {
            r.push(entries[i].duplicate());
        }
        proof {
            let next = entries@.subrange(0, i + 1);
            assert(next.drop_last() =~= entries@.subrange(0, i as int));
            assert(next.last() == entries@[i as int]);
            reveal(Seq::filter);
            assert(next.filter(pred) == if pred(next.last()) {
                next.drop_last().filter(pred).push(next.last())
            } else {
                next.drop_last().filter(pred)
            });
        }
        i += 1;
    }
    assert(entries@.subrange(0, entries@.len() as int) == entries@);
    r
}

/// The entry heads a tree: its parent is 0 or not among the entries.
pub open spec fn is_root(s: Seq<ProcessEntry>, e: ProcessEntry) -> bool {
    e.info.parent_pid == 0 || !(exists|i: int| 0 <= i < s.len() && #[trigger] s[i].info.pid == e.info.parent_pid)
}

/// `c` is a child of `p`: it names `p` as parent and is not `p` itself.
pub open spec fn is_child_of(c: ProcessEntry, p: ProcessEntry) -> bool {
    c.info.parent_pid == p.info.pid && c.info.pid != p.info.pid
}

/// `e` is some entry of `s` with only its depth changed.
pub open spec fn from_input(s: Seq<ProcessEntry>, e: ProcessEntry) -> bool {
    exists|i: int| 0 <= i < s.len() && #[trigger] s[i].at_depth(e.tree_depth) == e
}

/// The shape of a tree listing of `s`: every row is an entry of `s` at a
/// depth of at most `MAX_TREE_DEPTH`, rows at depth 0 are roots, and each
/// deeper row follows a row of its parent one level up.
pub open spec fn tree_shaped(s: Seq<ProcessEntry>, out: Seq<ProcessEntry>) -> bool {
    &&& forall|k: int| 0 <= k < out.len() ==> #[trigger] out[k].tree_depth <= MAX_TREE_DEPTH
    &&& forall|k: int| 0 <= k < out.len() ==> from_input(s, #[trigger] out[k])
    &&& forall|k: int| 0 <= k < out.len() && #[trigger] out[k].tree_depth == 0 ==> is_root(s, out[k])
    &&& forall|k: int|
        0 <= k < out.len() && #[trigger] out[k].tree_depth > 0 ==> exists|j: int|
            0 <= j < k && #[trigger] out[j].info.pid == out[k].info.parent_pid && out[j].tree_depth
                + 1 == out[k].tree_depth
}

/// Below the depth cap, every child of row `k` appears after it, one level deeper.
pub open spec fn subtree_complete(s: Seq<ProcessEntry>, out: Seq<ProcessEntry>, k: int) -> bool {
    out[k].tree_depth < MAX_TREE_DEPTH ==> forall|t: int|
        0 <= t < s.len() && is_child_of(#[trigger] s[t], out[k]) ==> exists|m: int|
            k < m < out.len() && out[m] == s[t].at_depth((out[k].tree_depth + 1) as usize)
}

/// No row strictly between rows `k1` and `k2` is shallower than row `k1`.
#[verifier::opaque]
pub open spec fn no_shallower_between(out: Seq<ProcessEntry>, k1: int, k2: int) -> bool {
    forall|m: int| k1 < m < k2 ==> #[trigger] out[m].tree_depth >= out[k1].tree_depth
}

/// Rows at the same depth with no shallower row between them (siblings, or
/// roots) stand in name order (A to Z), within rows `lo .. hi`.
pub open spec fn siblings_in_order(out: Seq<ProcessEntry>, lo: int, hi: int) -> bool {
    forall|k1: int, k2: int|
        lo <= k1 < k2 < hi && out[k1].tree_depth == out[k2].tree_depth
            && #[trigger] no_shallower_between(out, k1, k2) ==> entry_cmp(
            SortColumn::Name,
            true,
            out[k1],
            out[k2],
        ) <= 0
}

/// One more subtree appended after the rows `first + 1 .. before.len()`
/// (all deeper than `d`, with the heads at `d + 1` taken from `ordered`
/// before position `k`) keeps the siblings in order, when its head is
/// `ordered[k]` at depth `d + 1` and its other rows are deeper.
proof fn lemma_sibling_step(
    ordered: Seq<ProcessEntry>,
    first: int,
    d: int,
    k: int,
    before: Seq<ProcessEntry>,
    after: Seq<ProcessEntry>,
)
    requires
        -1 <= first < before.len(),
        extends(before, after),
        before.len() < after.len(),
        0 <= k < ordered.len(),
        sorted_by(SortColumn::Name, true, ordered),
        after[before.len() as int].tree_depth == d + 1,
        after[before.len() as int] == ordered[k].at_depth(after[before.len() as int].tree_depth),
        forall|kk: int| before.len() < kk < after.len() ==> #[trigger] after[kk].tree_depth > d + 1,
        siblings_in_order(after, before.len() as int + 1, after.len() as int),
        forall|kk: int| first < kk < before.len() ==> #[trigger] before[kk].tree_depth > d,
        forall|kk: int|
            first < kk < before.len() && #[trigger] before[kk].tree_depth == d + 1 ==> exists|j: int|
                0 <= j < k && before[kk] == ordered[j].at_depth(before[kk].tree_depth),
        siblings_in_order(before, first + 1, before.len() as int),
    ensures
        forall|kk: int| first < kk < after.len() ==> #[trigger] after[kk].tree_depth > d,
        forall|kk: int|
            first < kk < after.len() && #[trigger] after[kk].tree_depth == d + 1 ==> exists|j: int|
                0 <= j < k + 1 && after[kk] == ordered[j].at_depth(after[kk].tree_depth),
        siblings_in_order(after, first + 1, after.len() as int),
{
    let b = before.len() as int;
    assert forall|kk: int| first < kk < after.len() implies #[trigger] after[kk].tree_depth > d by {
        if kk < b {
            assert(after[kk] == before[kk]);
        }
    }
    assert forall|kk: int|
        first < kk < after.len() && #[trigger] after[kk].tree_depth == d + 1 implies exists|j: int|
            0 <= j < k + 1 && after[kk] == ordered[j].at_depth(after[kk].tree_depth) by {
        if kk < b {
            assert(after[kk] == before[kk]);
            let j = choose|j: int| 0 <= j < k && before[kk] == ordered[j].at_depth(before[kk].tree_depth);
            assert(after[kk] == ordered[j].at_depth(after[kk].tree_depth));
        }
    }
    lemma_order_persists(before, after, first + 1, b);
    assert forall|k1: int, k2: int|
        first + 1 <= k1 < k2 < after.len() && after[k1].tree_depth == after[k2].tree_depth
            && #[trigger] no_shallower_between(after, k1, k2) implies entry_cmp(
            SortColumn::Name,
            true,
            after[k1],
            after[k2],
        ) <= 0 by {
        if k2 < b {
        } else if k1 > b {
        } else if k1 == b {
            assert(after[k2].tree_depth > d + 1);
        } else if k2 == b {
            assert(after[k1] == before[k1]);
            let j = choose|j: int| 0 <= j < k && before[k1] == ordered[j].at_depth(before[k1].tree_depth);
            assert(entry_cmp(SortColumn::Name, true, ordered[j], ordered[k]) <= 0);
        } else {
            assert(after[k1] == before[k1]);
            assert(after[b].tree_depth < after[k1].tree_depth);
            reveal(no_shallower_between);
        }
    }
}

proof fn lemma_order_persists(a: Seq<ProcessEntry>, b: Seq<ProcessEntry>, lo: int, hi: int)
    requires
        extends(a, b),
        0 <= lo,
        hi <= a.len(),
        siblings_in_order(a, lo, hi),
    ensures
        siblings_in_order(b, lo, hi),
{
    assert forall|k1: int, k2: int|
        lo <= k1 < k2 < hi && b[k1].tree_depth == b[k2].tree_depth && #[trigger] no_shallower_between(
            b,
            k1,
            k2,
        ) implies entry_cmp(SortColumn::Name, true, b[k1], b[k2]) <= 0 by {
        assert(b[k1] == a[k1] && b[k2] == a[k2]);
        reveal(no_shallower_between);
        assert forall|m: int| k1 < m < k2 implies #[trigger] a[m].tree_depth >= a[k1].tree_depth by {
            assert(b[m] == a[m]);
        }
        assert(no_shallower_between(a, k1, k2));
    }
}

proof fn lemma_complete_persists(s: Seq<ProcessEntry>, a: Seq<ProcessEntry>, b: Seq<ProcessEntry>, k: int)
    requires
        extends(a, b),
        0 <= k < a.len(),
        subtree_complete(s, a, k),
    ensures
        subtree_complete(s, b, k),
{
    assert(b[k] == a[k]);
    if a[k].tree_depth < MAX_TREE_DEPTH {
        assert forall|t: int| 0 <= t < s.len() && is_child_of(#[trigger] s[t], b[k]) implies exists|m: int|
            k < m < b.len() && b[m] == s[t].at_depth((b[k].tree_depth + 1) as usize) by {
            let m = choose|m: int|
                k < m < a.len() && a[m] == s[t].at_depth((a[k].tree_depth + 1) as usize);
            assert(b[m] == a[m]);
        }
    }
}

fn has_pid(s: &Vec<ProcessEntry>, pid: u32) -> (r: bool)
    ensures
        r == exists|i: int| 0 <= i < s@.len() && #[trigger] s@[i].info.pid == pid,
{
    let mut i: usize = 0;
    while i < s.len()
        invariant
            i <= s@.len(),
            forall|j: int| 0 <= j < i ==> #[trigger] s@[j].info.pid != pid,
        decreases s@.len() - i,
    {
        if s[i].info.pid == pid {
            return true;
        }
        i += 1;
    }
    false
}

/// Every row of `a` stands at the same place in `b`.
pub open spec fn extends(a: Seq<ProcessEntry>, b: Seq<ProcessEntry>) -> bool {
    a.len() <= b.len() && forall|i: int| 0 <= i < a.len() ==> #[trigger] b[i] == a[i]
}

proof fn lemma_push_keeps_shape(s: Seq<ProcessEntry>, out: Seq<ProcessEntry>, e: ProcessEntry)
    requires
        tree_shaped(s, out),
        e.tree_depth <= MAX_TREE_DEPTH,
        from_input(s, e),
        e.tree_depth == 0 ==> is_root(s, e),
        e.tree_depth > 0 ==> exists|j: int|
            0 <= j < out.len() && #[trigger] out[j].info.pid == e.info.parent_pid
                && out[j].tree_depth + 1 == e.tree_depth,
    ensures
        tree_shaped(s, out.push(e)),
        extends(out, out.push(e)),
{
    let o = out.push(e);
    assert(o[out.len() as int] == e);
    assert forall|k: int| 0 <= k < o.len() && #[trigger] o[k].tree_depth > 0 implies exists|j: int|
        0 <= j < k && #[trigger] o[j].info.pid == o[k].info.parent_pid && o[j].tree_depth + 1
            == o[k].tree_depth by {
        if k < out.len() {
            assert(o[k] == out[k]);
            let j = choose|j: int|
                0 <= j < k && #[trigger] out[j].info.pid == out[k].info.parent_pid
                    && out[j].tree_depth + 1 == out[k].tree_depth;
            assert(o[j] == out[j]);
        } else {
            let j = choose|j: int|
                0 <= j < out.len() && #[trigger] out[j].info.pid == e.info.parent_pid
                    && out[j].tree_depth + 1 == e.tree_depth;
            assert(o[j] == out[j]);
        }
    }
    assert forall|k: int| 0 <= k < o.len() implies from_input(s, #[trigger] o[k]) by {
        if k < out.len() {
            assert(o[k] == out[k]);
        }
    }
}

/// The children of `node` among `s`, in the order of `s`.
fn children_of(s: &Vec<ProcessEntry>, node: &ProcessEntry) -> (children: Vec<ProcessEntry>)
    ensures
        forall|j: int|
            0 <= j < children@.len() ==> is_child_of(#[trigger] children@[j], *node) && exists|t: int|
                0 <= t < s@.len() && s@[t] == children@[j],
        forall|t: int| 0 <= t < s@.len() && is_child_of(#[trigger] s@[t], *node) ==> children@.contains(s@[t]),
{
    let mut children: Vec<ProcessEntry> = Vec::new();
    let mut i: usize = 0;
    while i < s.len()
        invariant
            i <= s@.len(),
            forall|j: int|
                0 <= j < children@.len() ==> is_child_of(#[trigger] children@[j], *node) && exists|t: int|
                    0 <= t < s@.len() && s@[t] == children@[j],
            forall|t: int| 0 <= t < i && is_child_of(#[trigger] s@[t], *node) ==> children@.contains(s@[t]),
        decreases s@.len() - i,
    {
        let ghost prev = children@;
        if s[i].info.parent_pid == node.info.pid && s[i].info.pid != node.info.pid {
            let c = s[i].duplicate();
            children.push(c);
            proof {
                assert(s@[i as int] == children@[children@.len() - 1]);
            }
        }
        proof {
            assert forall|t: int| 0 <= t < i + 1 && is_child_of(#[trigger] s@[t], *node) implies children@.contains(s@[t]) by {
                if t == i {
                    assert(children@[children@.len() - 1] == s@[t]);
                } else {
                    let j = choose|j: int| 0 <= j < prev.len() && prev[j] == s@[t];
                    assert(children@[j] == prev[j]);
                }
            }
        }
        i += 1;
    }
    assert forall|j: int| 0 <= j < children@.len() implies is_child_of(#[trigger] children@[j], *node)
        && exists|t: int| 0 <= t < s@.len() && s@[t] == children@[j] by {
        let t = choose|t: int| 0 <= t < s@.len() && s@[t] == children@[j];
        assert(s@[t] == children@[j]);
    }
    children
}

/// Appends `node` at `depth`, then (below the depth cap) each of its children
/// in name order, each followed by its own subtree.
#[verifier::rlimit(60)]
fn add_process_with_children(
    s: &Vec<ProcessEntry>,
    node: &ProcessEntry,
    depth: usize,
    out: &mut Vec<ProcessEntry>,
)
    requires
        depth <= MAX_TREE_DEPTH,
        exists|i: int| 0 <= i < s@.len() && s@[i] == *node,
        tree_shaped(s@, old(out)@),
        depth == 0 ==> is_root(s@, *node),
        depth > 0 ==> exists|j: int|
            0 <= j < old(out)@.len() && #[trigger] old(out)@[j].info.pid == node.info.parent_pid
                && old(out)@[j].tree_depth + 1 == depth,
    ensures
        tree_shaped(s@, final(out)@),
        final(out)@.len() > old(out)@.len(),
        extends(old(out)@, final(out)@),
        final(out)@[old(out)@.len() as int] == node.at_depth(depth),
        forall|k: int|
            old(out)@.len() <= k < final(out)@.len() ==> subtree_complete(s@, final(out)@, k),
        forall|k: int|
            old(out)@.len() < k < final(out)@.len() ==> #[trigger] final(out)@[k].tree_depth > depth,
        siblings_in_order(final(out)@, old(out)@.len() as int + 1, final(out)@.len() as int),
    decreases MAX_TREE_DEPTH - depth,
{
    let ghost start = out@;
    let ghost at = out@.len() as int;
    let mut entry = node.duplicate();
    entry.tree_depth = depth;
    proof {
        let i = choose|i: int| 0 <= i < s@.len() && s@[i] == *node;
        assert(s@[i].at_depth(depth) == entry);
        lemma_push_keeps_shape(s@, out@, entry);
    }
    out.push(entry);
    if depth < MAX_TREE_DEPTH {
        let children = children_of(s, node);
        let ordered = sort_entries(children, SortColumn::Name, true);
        let mut k: usize = 0;
        while k < ordered.len()
            invariant
                depth < MAX_TREE_DEPTH,
                k <= ordered@.len(),
                at == start.len(),
                at < out@.len(),
                out@[at] == node.at_depth(depth),
                extends(start, out@),
                tree_shaped(s@, out@),
                ordered@.to_multiset() == children@.to_multiset(),
                forall|j: int|
                    0 <= j < children@.len() ==> is_child_of(#[trigger] children@[j], *node)
                        && exists|t: int| 0 <= t < s@.len() && s@[t] == children@[j],
                forall|t: int|
                    0 <= t < s@.len() && is_child_of(#[trigger] s@[t], *node) ==> children@.contains(s@[t]),
                forall|kk: int| at < kk < out@.len() ==> subtree_complete(s@, out@, kk),
                forall|j: int|
                    0 <= j < k ==> exists|m: int|
                        at < m < out@.len() && out@[m] == (#[trigger] ordered@[j]).at_depth((depth + 1) as usize),
                sorted_by(SortColumn::Name, true, ordered@),
                forall|kk: int| at < kk < out@.len() ==> #[trigger] out@[kk].tree_depth > depth,
                forall|kk: int|
                    at < kk < out@.len() && #[trigger] out@[kk].tree_depth == depth + 1 ==> exists|j: int|
                        0 <= j < k && out@[kk] == ordered@[j].at_depth(out@[kk].tree_depth),
                siblings_in_order(out@, at + 1, out@.len() as int),
            decreases ordered@.len() - k,
        {
            let ghost before = out@;
            proof {
                let c = ordered@[k as int];
                assert(ordered@.to_multiset().count(c) > 0);
                assert(children@.contains(c));
                let j = choose|j: int| 0 <= j < children@.len() && children@[j] == c;
                assert(is_child_of(children@[j], *node));
                assert(out@[at].info.pid == c.info.parent_pid);
                assert(out@[at].tree_depth + 1 == depth + 1);
                assert(exists|j: int|
                    0 <= j < out@.len() && #[trigger] out@[j].info.pid == ordered@[k as int].info.parent_pid
                        && out@[j].tree_depth + 1 == depth + 1);
            }
            add_process_with_children(s, &ordered[k], depth + 1, out);
            proof {
                assert(extends(before, out@));
                assert(out@[at] == before[at]);
                assert forall|t: int| 0 <= t < start.len() implies #[trigger] out@[t] == start[t] by {
                    assert(out@[t] == before[t]);
                }
                assert forall|kk: int| at < kk < out@.len() implies subtree_complete(s@, out@, kk) by {
                    if kk < before.len() {
                        lemma_complete_persists(s@, before, out@, kk);
                    }
                }
                lemma_sibling_step(ordered@, at, depth as int, k as int, before, out@);
                assert forall|j: int| 0 <= j < k + 1 implies exists|m: int|
                    at < m < out@.len() && out@[m] == (#[trigger] ordered@[j]).at_depth((depth + 1) as usize) by {
                    if j < k {
                        let m = choose|m: int|
                            at < m < before.len() && before[m] == ordered@[j].at_depth((depth + 1) as usize);
                        assert(out@[m] == before[m]);
                    } else {
                        assert(out@[before.len() as int] == ordered@[j].at_depth((depth + 1) as usize));
                    }
                }
            }
            k += 1;
        }
        proof {
            assert forall|t: int| 0 <= t < s@.len() && is_child_of(#[trigger] s@[t], out@[at]) implies exists|m: int|
                at < m < out@.len() && out@[m] == s@[t].at_depth((out@[at].tree_depth + 1) as usize) by {
                assert(is_child_of(s@[t], *node));
                assert(children@.contains(s@[t]));
                assert(children@.to_multiset().count(s@[t]) > 0);
                assert(ordered@.contains(s@[t]));
                let j = choose|j: int| 0 <= j < ordered@.len() && ordered@[j] == s@[t];
                assert(exists|m: int|
                    at < m < out@.len() && out@[m] == (#[trigger] ordered@[j]).at_depth((depth + 1) as usize));
            }
            assert(subtree_complete(s@, out@, at));
        }
    }
}

/// Lists `s` as a forest: the roots in name order, each followed depth-first
/// by its descendants in name order, down to `MAX_TREE_DEPTH`.
pub fn build_process_tree(s: &Vec<ProcessEntry>) -> (out: Vec<ProcessEntry>)
    ensures
        tree_shaped(s@, out@),
        forall|i: int|
            0 <= i < s@.len() && is_root(s@, #[trigger] s@[i]) ==> exists|k: int|
                0 <= k < out@.len() && out@[k] == s@[i].at_depth(0),
        forall|k: int| 0 <= k < out@.len() ==> subtree_complete(s@, out@, k),
        siblings_in_order(out@, 0, out@.len() as int),
{
    let mut roots: Vec<ProcessEntry> = Vec::new();
    let mut i: usize = 0;
    while i < s.len()
        invariant
            i <= s@.len(),
            forall|j: int|
                0 <= j < roots@.len() ==> is_root(s@, #[trigger] roots@[j]) && exists|t: int|
                    0 <= t < s@.len() && s@[t] == roots@[j],
            forall|t: int| 0 <= t < i && is_root(s@, #[trigger] s@[t]) ==> roots@.contains(s@[t]),
        decreases s@.len() - i,
    {
        let parent = s[i].info.parent_pid;
        let ghost prev = roots@;
        if parent == 0 || !has_pid(s, parent) {
            let c = s[i].duplicate();
            roots.push(c);
            proof {
                assert(roots@[roots@.len() - 1] == s@[i as int]);
            }
        }
        proof {
            assert forall|t: int| 0 <= t < i + 1 && is_root(s@, #[trigger] s@[t]) implies roots@.contains(s@[t]) by {
                if t == i {
                    assert(roots@[roots@.len() - 1] == s@[t]);
                } else {
                    assert(prev.contains(s@[t]));
                    let j = choose|j: int| 0 <= j < prev.len() && prev[j] == s@[t];
                    assert(roots@[j] == prev[j]);
                }
            }
        }
        i += 1;
    }
    let ordered = sort_entries(roots, SortColumn::Name, true);
    let mut out: Vec<ProcessEntry> = Vec::new();
    let mut k: usize = 0;
    while k < ordered.len()
        invariant
            k <= ordered@.len(),
            tree_shaped(s@, out@),
            ordered@.to_multiset() == roots@.to_multiset(),
            forall|j: int|
                0 <= j < roots@.len() ==> is_root(s@, #[trigger] roots@[j]) && exists|t: int|
                    0 <= t < s@.len() && s@[t] == roots@[j],
            forall|j: int|
                0 <= j < k ==> exists|m: int|
                    0 <= m < out@.len() && out@[m] == (#[trigger] ordered@[j]).at_depth(0),
            forall|kk: int| 0 <= kk < out@.len() ==> subtree_complete(s@, out@, kk),
            sorted_by(SortColumn::Name, true, ordered@),
            forall|kk: int|
                0 <= kk < out@.len() && #[trigger] out@[kk].tree_depth == 0 ==> exists|j: int|
                    0 <= j < k && out@[kk] == ordered@[j].at_depth(out@[kk].tree_depth),
            siblings_in_order(out@, 0, out@.len() as int),
        decreases ordered@.len() - k,
    {
        let ghost before = out@;
        proof {
            let c = ordered@[k as int];
            assert(ordered@.to_multiset().count(c) > 0);
            assert(roots@.contains(c));
        }
        add_process_with_children(s, &ordered[k], 0, &mut out);
        proof {
            assert forall|j: int| 0 <= j < k + 1 implies exists|m: int|
                0 <= m < out@.len() && out@[m] == (#[trigger] ordered@[j]).at_depth(0) by {
                if j < k {
                    let m = choose|m: int| 0 <= m < before.len() && before[m] == ordered@[j].at_depth(0);
                    assert(out@[m] == before[m]);
                } else {
                    assert(out@[before.len() as int] == ordered@[j].at_depth(0));
                }
            }
            assert forall|kk: int| 0 <= kk < out@.len() implies subtree_complete(s@, out@, kk) by {
                if kk < before.len() {
                    lemma_complete_persists(s@, before, out@, kk);
                }
            }
            lemma_sibling_step(ordered@, -1, -1, k as int, before, out@);
        }
        k += 1;
    }
    proof {
        assert forall|i: int|
            0 <= i < s@.len() && is_root(s@, #[trigger] s@[i]) implies exists|k: int|
                0 <= k < out@.len() && out@[k] == s@[i].at_depth(0) by {
            assert(roots@.contains(s@[i]));
            assert(roots@.to_multiset().count(s@[i]) > 0);
            assert(ordered@.contains(s@[i]));
            let j = choose|j: int| 0 <= j < ordered@.len() && ordered@[j] == s@[i];
            assert(exists|m: int| 0 <= m < out@.len() && out@[m] == (#[trigger] ordered@[j]).at_depth(0));
        }
    }
    out
}

/// Resets every entry's tree depth to 0.
pub fn flatten_depths(entries: &mut Vec<ProcessEntry>)
    ensures
        final(entries)@.len() == old(entries)@.len(),
        forall|k: int| 0 <= k < final(entries)@.len() ==> #[trigger] final(entries)@[k] == old(entries)@[k].at_depth(0),
{
    let mut i: usize = 0;
    while i < entries.len()
        invariant
            i <= entries@.len(),
            entries@.len() == old(entries)@.len(),
            forall|k: int| 0 <= k < i ==> #[trigger] entries@[k] == old(entries)@[k].at_depth(0),
            forall|k: int| i <= k < entries@.len() ==> #[trigger] entries@[k] == old(entries)@[k],
        decreases entries@.len() - i,
    {
        let mut e = entries[i].duplicate();
        e.tree_depth = 0;
        entries.set(i, e);
        i += 1;
    }
}

} // verus!
