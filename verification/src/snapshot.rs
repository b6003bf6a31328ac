//! Ordering VM snapshots newest first and choosing which ones a prune
//! deletes.

use vstd::prelude::*;

verus! {

/// A VM snapshot as listings and pruning see it.
#[derive(Debug, Clone)]
pub struct SnapshotRecord {
    /// Snapshot ID.
    pub id: String,
    /// Creation time, as a timestamp that orders like the creation times.
    pub created: i64,
}

/// Snapshot `i` comes before snapshot `j` in a newest-first listing: it is
/// newer, or as new and listed earlier (the order is stable).
pub open spec fn listed_before(s: Seq<SnapshotRecord>, i: int, j: int) -> bool {
    s[i].created > s[j].created || (s[i].created == s[j].created && i < j)
}

/// `order` lists the indices of `s[0..n]` exactly once each, newest first.
pub open spec fn newest_first_prefix(s: Seq<SnapshotRecord>, n: int, order: Seq<usize>) -> bool {
    &&& order.len() == n
    &&& forall|a: int| 0 <= a < n ==> (#[trigger] order[a] as int) < n
    &&& forall|a: int, b: int| 0 <= a < b < n ==> order[a] != order[b]
    &&& forall|a: int, b: int|
        0 <= a < b < n ==> listed_before(s, #[trigger] order[a] as int, #[trigger] order[b] as int)
}

/// `order` lists every snapshot of `s` exactly once, newest first.
pub open spec fn newest_first(s: Seq<SnapshotRecord>, order: Seq<usize>) -> bool {
    newest_first_prefix(s, s.len() as int, order)
}

fn insert_position(s: &Vec<SnapshotRecord>, order: &Vec<usize>, i: usize) -> (k: usize)
    requires
        i < s@.len(),
        forall|a: int| 0 <= a < order@.len() ==> (#[trigger] order@[a] as int) < i,
    ensures
        k <= order@.len(),
        forall|a: int| 0 <= a < k ==> s@[#[trigger] order@[a] as int].created >= s@[i as int].created,
        k < order@.len() ==> s@[order@[k as int] as int].created < s@[i as int].created,
{
    let mut k: usize = 0;
    while k < order.len()
        invariant
            i < s@.len(),
            forall|a: int| 0 <= a < order@.len() ==> (#[trigger] order@[a] as int) < i,
            k <= order@.len(),
            forall|a: int|
                0 <= a < k ==> s@[#[trigger] order@[a] as int].created >= s@[i as int].created,
        decreases order@.len() - k,
    {
        if s[order[k]].created < s[i].created {
            return k;
        }
        k = k + 1;
    }
    k
}

/// Orders snapshots newest first (as new snapshots keep their listing
/// order): the indices of the snapshots, in that order.
pub fn order_newest_first(snapshots: &Vec<SnapshotRecord>) -> (order: Vec<usize>)
    ensures
        newest_first(snapshots@, order@),
{
    let n = snapshots.len();
    let mut order: Vec<usize> = Vec::new();
    let mut i: usize = 0;
    while i < n
        invariant
            n == snapshots@.len(),
            i <= n,
            newest_first_prefix(snapshots@, i as int, order@),
        decreases n - i,
    {
        let k = insert_position(snapshots, &order, i);
        let ghost old_order = order@;
        order.insert(k, i);
        proof {
            let s = snapshots@;
            assert forall|a: int| 0 <= a < i + 1 implies (#[trigger] order@[a] as int) < i + 1 by {
                if a < k {
                    assert(order@[a] == old_order[a]);
                } else if a > k {
                    assert(order@[a] == old_order[a - 1]);
                }
            }
            assert forall|a: int, b: int| 0 <= a < b < i + 1 implies order@[a] != order@[b] by {
                if b < k {
                    assert(order@[a] == old_order[a] && order@[b] == old_order[b]);
                } else if b == k {
                    assert(order@[a] == old_order[a]);
                } else if a < k {
                    assert(order@[a] == old_order[a] && order@[b] == old_order[b - 1]);
                } else if a == k {
                    assert(order@[b] == old_order[b - 1]);
                } else {
                    assert(order@[a] == old_order[a - 1] && order@[b] == old_order[b - 1]);
                }
            }
            assert forall|a: int, b: int| 0 <= a < b < i + 1 implies listed_before(
                s,
                #[trigger] order@[a] as int,
                #[trigger] order@[b] as int,
            ) by {
                if b < k {
                    assert(order@[a] == old_order[a] && order@[b] == old_order[b]);
                } else if b == k {
                    assert(order@[a] == old_order[a]);
                    assert(s[old_order[a] as int].created >= s[i as int].created);
                } else if a < k {
                    assert(order@[a] == old_order[a] && order@[b] == old_order[b - 1]);
                } else if a == k {
                    assert(order@[b] == old_order[b - 1]);
                    if b - 1 > k {
                        assert(listed_before(s, old_order[k as int] as int, old_order[b - 1] as int));
                    }
                    assert(s[old_order[k as int] as int].created < s[i as int].created);
                } else {
                    assert(order@[a] == old_order[a - 1] && order@[b] == old_order[b - 1]);
                }
            }
        }
        i = i + 1;
    }
    order
}

/// The IDs of the snapshots a prune deletes, given a newest-first order:
/// all but the `keep` newest, newest first.
pub open spec fn pruned_ids(s: Seq<SnapshotRecord>, order: Seq<usize>, keep: int) -> Seq<Seq<char>> {
    order.skip(keep).map_values(|i: usize| s[i as int].id@)
}

/// Chooses the snapshots a prune deletes: none when there are no more than
/// `keep`; otherwise all but the `keep` newest, newest first.
pub fn prune_plan(snapshots: &Vec<SnapshotRecord>, keep: usize) -> (ids: Vec<String>)
    ensures
        snapshots@.len() <= keep ==> ids@.len() == 0,
        snapshots@.len() > keep ==> exists|order: Seq<usize>|
            newest_first(snapshots@, order) && ids@.map_values(|t: String| t@) == #[trigger] pruned_ids(
                snapshots@,
                order,
                keep as int,
            ),
{
    let mut ids: Vec<String> = Vec::new();
    if snapshots.len() <= keep {
        return ids;
    }
    let order = order_newest_first(snapshots);
    let mut a: usize = keep;
    while a < order.len()
        invariant
            newest_first(snapshots@, order@),
            keep <= a <= order@.len(),
            ids@.map_values(|t: String| t@) == order@.subrange(keep as int, a as int).map_values(
                |i: usize| snapshots@[i as int].id@,
            ),
        decreases order@.len() - a,
    {
        let ghost before = ids@;
        ids.push(snapshots[order[a]].id.clone());
        proof {
            assert(ids@.map_values(|t: String| t@) =~= before.map_values(|t: String| t@).push(
                snapshots@[order@[a as int] as int].id@,
            ));
            assert(order@.subrange(keep as int, a + 1).map_values(
                |i: usize| snapshots@[i as int].id@,
            ) =~= order@.subrange(keep as int, a as int).map_values(
                |i: usize| snapshots@[i as int].id@,
            ).push(snapshots@[order@[a as int] as int].id@));
        }
        a = a + 1;
    }
    proof {
        assert(order@.subrange(keep as int, order@.len() as int) =~= order@.skip(keep as int));
        assert(ids@.map_values(|t: String| t@) == pruned_ids(snapshots@, order@, keep as int));
    }
    ids
}

} // verus!
