//! Broad phase: one-axis sweep-and-prune over inflated bounding boxes.
//!
//! The contract is exact: a canonical pair `(i, j)` with `i < j` is reported
//! precisely when the two bodies' inflated boxes overlap on both axes. The
//! sweep sorts entries by the low x edge, walks them keeping an active list,
//! evicts entries that end before the current one begins, and emits a pair
//! for every active entry that still overlaps the current one.

use vstd::prelude::*;

use crate::engine::body::rigid_body::RigidBody;
use crate::engine::collision::shape::{aabb_overlaps_spec, collider_aabb_spec, Aabb};
use crate::engine::params::SimParams;
use crate::math::vec::{vadd_spec, vsub_spec, Vec2};

verus! {

/// One sweep entry: a body index and its inflated bounding box.
#[derive(Debug, Clone, Copy, PartialEq, Eq, Structural)]
struct SweepEntry {
    index: usize,
    aabb: Aabb,
}

/// The fattened query box of one body: its shape's world box grown by the
/// speculative distance on every side, or a centimetre box around the
/// position for a shapeless body.
pub open spec fn entity_aabb_spec(e: RigidBody, params: SimParams) -> Aabb {
    match e.collider {
        Some(col) => {
            let base = collider_aabb_spec(col, e.pos, e.angle as int);
            let ext = Vec2 { x: params.speculative_distance, y: params.speculative_distance };
            Aabb { min: vsub_spec(base.min, ext), max: vadd_spec(base.max, ext) }
        },
        None => {
            let ext = Vec2 { x: 10_000i64, y: 10_000i64 };
            Aabb { min: vsub_spec(e.pos, ext), max: vadd_spec(e.pos, ext) }
        },
    }
}

/// Whether the fattened boxes of bodies `i` and `j` overlap: the exact
/// membership condition for the broad phase's output.
pub open spec fn pair_in_range_spec(bodies: Seq<RigidBody>, params: SimParams, i: int, j: int) -> bool {
    aabb_overlaps_spec(
        entity_aabb_spec(bodies[i], params),
        entity_aabb_spec(bodies[j], params),
    )
}

/// Whether the pair list holds `(i, j)`.
pub open spec fn pair_reported(pairs: Seq<(usize, usize)>, i: int, j: int) -> bool {
    exists|k: int| 0 <= k < pairs.len() && (#[trigger] pairs[k]).0 == i && pairs[k].1 == j
}

/// Every listed pair is canonical and in bounds.
pub open spec fn pairs_wf(pairs: Seq<(usize, usize)>, n: int) -> bool {
    forall|k: int| 0 <= k < pairs.len() ==> (#[trigger] pairs[k]).0 < pairs[k].1 && (pairs[k].1 as int) < n
}

spec fn entry_wf(e: SweepEntry, bodies: Seq<RigidBody>, params: SimParams) -> bool {
    (e.index as int) < bodies.len() && e.aabb == entity_aabb_spec(bodies[e.index as int], params)
}

spec fn entries_wf(s: Seq<SweepEntry>, bodies: Seq<RigidBody>, params: SimParams) -> bool {
    forall|k: int| 0 <= k < s.len() ==> entry_wf(#[trigger] s[k], bodies, params)
}

spec fn has_index(s: Seq<SweepEntry>, i: int) -> bool {
    exists|p: int| 0 <= p < s.len() && (#[trigger] s[p]).index == i
}

spec fn all_present(s: Seq<SweepEntry>, n: int) -> bool {
    forall|i: int| 0 <= i < n ==> has_index(s, i)
}

spec fn sorted_by_min_x(s: Seq<SweepEntry>) -> bool {
    forall|p: int, q: int| 0 <= p < q < s.len() ==> (#[trigger] s[p]).aabb.min.x <= (#[trigger] s[q]).aabb.min.x
}

spec fn in_prefix(s: Seq<SweepEntry>, t: int, i: int) -> bool {
    exists|p: int| 0 <= p < t && p < s.len() && (#[trigger] s[p]).index == i
}

spec fn prefix_has(s: Seq<SweepEntry>, t: int, e: SweepEntry) -> bool {
    exists|p: int| 0 <= p < t && p < s.len() && (#[trigger] s[p]) == e
}

/// The running pair list is exactly the in-range pairs whose indices have
/// both been swept already.
spec fn pairs_exact(
    pairs: Seq<(usize, usize)>,
    bodies: Seq<RigidBody>,
    params: SimParams,
    s: Seq<SweepEntry>,
    t: int,
) -> bool {
    forall|i: int, j: int| 0 <= i < j < bodies.len() ==> (#[trigger] pair_reported(pairs, i, j) <==> (
        pair_in_range_spec(bodies, params, i, j) && in_prefix(s, t, i) && in_prefix(s, t, j)
    ))
}

spec fn entry_matches(e: SweepEntry, cur: SweepEntry, i: int, j: int) -> bool {
    e.index != cur.index && aabb_overlaps_spec(e.aabb, cur.aabb) && ((e.index == i && cur.index == j)
        || (e.index == j && cur.index == i))
}

spec fn emitted_match(act: Seq<SweepEntry>, cur: SweepEntry, k: int, i: int, j: int) -> bool {
    exists|m: int| 0 <= m < k && entry_matches(#[trigger] act[m], cur, i, j)
}

proof fn lemma_reported_push(pairs: Seq<(usize, usize)>, p: (usize, usize), i: int, j: int)
    ensures
        pair_reported(pairs.push(p), i, j) <==> (pair_reported(pairs, i, j) || (p.0 == i && p.1 == j)),
{
    let s2 = pairs.push(p);
    if pair_reported(pairs, i, j) {
        let k = choose|k: int| 0 <= k < pairs.len() && (#[trigger] pairs[k]).0 == i && pairs[k].1 == j;
        assert(s2[k].0 == i && s2[k].1 == j);
        assert(pair_reported(s2, i, j));
    }
    if p.0 == i && p.1 == j {
        assert(s2[pairs.len() as int].0 == i && s2[pairs.len() as int].1 == j);
        assert(pair_reported(s2, i, j));
    }
    if pair_reported(s2, i, j) {
        let k = choose|k: int| 0 <= k < s2.len() && (#[trigger] s2[k]).0 == i && s2[k].1 == j;
        if k < pairs.len() {
            assert(pairs[k].0 == i && pairs[k].1 == j);
            assert(pair_reported(pairs, i, j));
        }
    }
}

proof fn lemma_pair_round(
    pairs: Seq<(usize, usize)>,
    pre_pairs: Seq<(usize, usize)>,
    bodies: Seq<RigidBody>,
    params: SimParams,
    s: Seq<SweepEntry>,
    ta: int,
    act: Seq<SweepEntry>,
    cur: SweepEntry,
    i: int,
    j: int,
)
    requires
        0 <= i < j < bodies.len(),
        1 <= ta <= s.len(),
        s.len() == bodies.len(),
        entries_wf(s, bodies, params),
        sorted_by_min_x(s),
        cur == s[ta - 1],
        pairs_exact(pre_pairs, bodies, params, s, ta - 1),
        forall|m: int| 0 <= m < act.len() ==> prefix_has(s, ta - 1, #[trigger] act[m])
            && act[m].aabb.max.x >= s[ta - 1].aabb.min.x,
        forall|e: SweepEntry| prefix_has(s, ta - 1, e) && e.aabb.max.x >= s[ta - 1].aabb.min.x
            ==> #[trigger] act.contains(e),
        forall|ii: int, jj: int| 0 <= ii < jj < bodies.len() ==> (#[trigger] pair_reported(pairs, ii, jj) <==> (
            pair_reported(pre_pairs, ii, jj) || emitted_match(act, cur, act.len() as int, ii, jj)
        )),
    ensures
        pair_reported(pairs, i, j) <==> (pair_in_range_spec(bodies, params, i, j) && in_prefix(s, ta, i)
            && in_prefix(s, ta, j)),
{
    let box_i = entity_aabb_spec(bodies[i], params);
    let box_j = entity_aabb_spec(bodies[j], params);
    // Forward: a reported pair is in range with both indices swept.
    if pair_reported(pairs, i, j) {
        if pair_reported(pre_pairs, i, j) {
            assert(pair_in_range_spec(bodies, params, i, j) && in_prefix(s, ta - 1, i) && in_prefix(s, ta - 1, j));
            let p = choose|p: int| 0 <= p < ta - 1 && p < s.len() && (#[trigger] s[p]).index == i;
            assert(0 <= p < ta && p < s.len() && s[p].index == i);
            let q = choose|q: int| 0 <= q < ta - 1 && q < s.len() && (#[trigger] s[q]).index == j;
            assert(0 <= q < ta && q < s.len() && s[q].index == j);
        } else {
            let m = choose|m: int| 0 <= m < act.len() && entry_matches(#[trigger] act[m], cur, i, j);
            let e = act[m];
            assert(prefix_has(s, ta - 1, e));
            let p = choose|p: int| 0 <= p < ta - 1 && p < s.len() && (#[trigger] s[p]) == e;
            assert(entry_wf(s[p], bodies, params));
            assert(entry_wf(s[ta - 1], bodies, params));
            if e.index == i && cur.index == j {
                assert(e.aabb == box_i && cur.aabb == box_j);
                assert(s[p].index == i);
                assert(s[ta - 1].index == j);
            } else {
                assert(e.aabb == box_j && cur.aabb == box_i);
                assert(s[p].index == j);
                assert(s[ta - 1].index == i);
            }
        }
    }
    // Backward: an in-range pair with both indices swept is reported.
    if pair_in_range_spec(bodies, params, i, j) && in_prefix(s, ta, i) && in_prefix(s, ta, j) {
        let p = choose|p: int| 0 <= p < ta && p < s.len() && (#[trigger] s[p]).index == i;
        let q = choose|q: int| 0 <= q < ta && q < s.len() && (#[trigger] s[q]).index == j;
        assert(entry_wf(s[p], bodies, params));
        assert(entry_wf(s[q], bodies, params));
        if p < ta - 1 && q < ta - 1 {
            assert(in_prefix(s, ta - 1, i));
            assert(in_prefix(s, ta - 1, j));
            assert(pair_reported(pre_pairs, i, j));
        } else if p == ta - 1 && q == ta - 1 {
            // One sweep position cannot carry both distinct indices.
            assert(false);
        } else if q == ta - 1 {
            // Partner `i` was swept earlier and its box reaches the line.
            let e = s[p];
            assert(prefix_has(s, ta - 1, e));
            assert(e.aabb == box_i);
            assert(s[ta - 1].aabb == box_j);
            assert(e.aabb.max.x >= s[ta - 1].aabb.min.x);
            assert(act.contains(e));
            let m = choose|m: int| 0 <= m < act.len() && (#[trigger] act[m]) == e;
            assert(entry_matches(act[m], cur, i, j));
            assert(emitted_match(act, cur, act.len() as int, i, j));
        } else {
            // Symmetric: partner `j` was swept earlier.
            assert(p == ta - 1);
            let e = s[q];
            assert(prefix_has(s, ta - 1, e));
            assert(e.aabb == box_j);
            assert(s[ta - 1].aabb == box_i);
            assert(e.aabb.max.x >= s[ta - 1].aabb.min.x);
            assert(act.contains(e));
            let m = choose|m: int| 0 <= m < act.len() && (#[trigger] act[m]) == e;
            assert(entry_matches(act[m], cur, i, j));
            assert(emitted_match(act, cur, act.len() as int, i, j));
        }
    }
}

fn entity_aabb(e: &RigidBody, params: SimParams) -> (r: Aabb)
    ensures
        r == entity_aabb_spec(*e, params),
{
    match &e.collider {
        Some(col) => {
            let base = col.aabb(&e.pos, e.angle);
            let ext = Vec2 { x: params.speculative_distance, y: params.speculative_distance };
            Aabb { min: base.min.sub(ext), max: base.max.add(ext) }
        },
        None => {
            let ext = Vec2 { x: 10_000, y: 10_000 };
            Aabb { min: e.pos.sub(ext), max: e.pos.add(ext) }
        },
    }
}

/// Sweep-and-prune pair pruning: returns every canonical index pair whose
/// inflated bounding boxes overlap, and no other.
pub fn detect_sap(entities: &Vec<RigidBody>, params: SimParams) -> (pairs: Vec<(usize, usize)>)
    ensures
        pairs_wf(pairs@, entities@.len() as int),
        forall|i: int, j: int| 0 <= i < j < entities@.len() ==> (#[trigger] pair_reported(pairs@, i, j)
            <==> pair_in_range_spec(entities@, params, i, j)),
{
    let n = entities.len();
    let ghost bodies = entities@;

    // Build one entry per body.
    let mut entries: Vec<SweepEntry> = Vec::new();
    let mut bi: usize = 0;
    while bi < n
        invariant
            n == bodies.len(),
            bodies == entities@,
            entries@.len() == bi as int,
            bi <= n,
            forall|k: int| 0 <= k < bi as int ==> (#[trigger] entries@[k]).index == k
                && entries@[k].aabb == entity_aabb_spec(bodies[k], params),
        decreases n - bi,
    {
        entries.push(SweepEntry { index: bi, aabb: entity_aabb(&entities[bi], params) });
        bi += 1;
    }
    proof {
        assert(entries_wf(entries@, bodies, params));
        assert forall|i: int| 0 <= i < n as int implies has_index(entries@, i) by {
            assert((entries@[i]).index == i);
        }
        assert(all_present(entries@, n as int));
    }

    // Insertion sort by the low x edge.
    let mut si: usize = 1;
    while si < entries.len()
        invariant
            entries@.len() == n as int,
            n == bodies.len(),
            1 <= si as int,
            entries_wf(entries@, bodies, params),
            all_present(entries@, n as int),
            forall|p: int, q: int| 0 <= p < q < si as int ==> (#[trigger] entries@[p]).aabb.min.x
                <= (#[trigger] entries@[q]).aabb.min.x,
        decreases entries@.len() - si as int,
    {
        let mut sj: usize = si;
        while sj > 0 && entries[sj - 1].aabb.min.x > entries[sj].aabb.min.x
            invariant
                entries@.len() == n as int,
                n == bodies.len(),
                sj <= si,
                si < n,
                entries_wf(entries@, bodies, params),
                all_present(entries@, n as int),
                forall|p: int, q: int| 0 <= p < q <= si as int && q != sj as int ==> (#[trigger] entries@[p]).aabb.min.x
                    <= (#[trigger] entries@[q]).aabb.min.x,
            decreases sj,
        {
            let ghost pre = entries@;
            let ea = entries[sj - 1];
            let eb = entries[sj];
            entries.set(sj - 1, eb);
            entries.set(sj, ea);
            proof {
                assert forall|i: int| 0 <= i < n as int implies has_index(entries@, i) by {
                    assert(has_index(pre, i));
                    let p = choose|p: int| 0 <= p < pre.len() && (#[trigger] pre[p]).index == i;
                    if p == sj as int - 1 {
                        assert((entries@[sj as int]).index == i);
                    } else if p == sj as int {
                        assert((entries@[sj as int - 1]).index == i);
                    } else {
                        assert((entries@[p]).index == i);
                    }
                }
            }
            sj -= 1;
        }
        si += 1;
    }
    let ghost s = entries@;
    proof {
        if n as int > 1 {
            assert(sorted_by_min_x(s));
        } else {
            assert(sorted_by_min_x(s));
        }
    }

    // Sweep with an active list.
    let mut active: Vec<SweepEntry> = Vec::new();
    let mut pairs: Vec<(usize, usize)> = Vec::new();
    let mut t: usize = 0;
    while t < entries.len()
        invariant
            entries@ == s,
            s.len() == n as int,
            n == bodies.len(),
            entries_wf(s, bodies, params),
            all_present(s, n as int),
            sorted_by_min_x(s),
            t <= n,
            pairs_wf(pairs@, n as int),
            pairs_exact(pairs@, bodies, params, s, t as int),
            t as int == 0 ==> active@.len() == 0,
            t as int >= 1 ==> forall|e: SweepEntry| #[trigger] active@.contains(e) <==> (
                prefix_has(s, t as int, e) && (e == s[t as int - 1] || e.aabb.max.x >= s[t as int - 1].aabb.min.x)
            ),
        decreases s.len() - t as int,
    {
        let ghost ta = t as int;
        let cur = entries[t];
        proof {
            assert(entry_wf(s[ta], bodies, params));
        }

        // Evict entries whose boxes end before the current one begins.
        let ghost act0 = active@;
        let mut kept: Vec<SweepEntry> = Vec::new();
        let mut ai: usize = 0;
        while ai < active.len()
            invariant
                active@ == act0,
                ai <= act0.len(),
                cur == s[ta],
                forall|e: SweepEntry| #[trigger] kept@.contains(e) <==> (
                    act0.subrange(0, ai as int).contains(e) && e.aabb.max.x >= cur.aabb.min.x
                ),
            decreases act0.len() - ai as int,
        {
            let ghost pre_kept = kept@;
            let e = active[ai];
            if e.aabb.max.x >= cur.aabb.min.x {
                kept.push(e);
            }
            proof {
                let sub1 = act0.subrange(0, ai as int + 1);
                assert(sub1[ai as int] == e);
                assert forall|x: SweepEntry| #[trigger] kept@.contains(x) implies (
                    sub1.contains(x) && x.aabb.max.x >= cur.aabb.min.x
                ) by {
                    let p = choose|p: int| 0 <= p < kept@.len() && (#[trigger] kept@[p]) == x;
                    if p < pre_kept.len() {
                        assert(pre_kept[p] == x);
                        assert(pre_kept.contains(x));
                        let q = choose|q: int| 0 <= q < ai as int && (#[trigger] act0.subrange(0, ai as int)[q]) == x;
                        assert(sub1[q] == x);
                    } else {
                        assert(x == e);
                    }
                }
                assert forall|x: SweepEntry| sub1.contains(x) && x.aabb.max.x >= cur.aabb.min.x
                    implies #[trigger] kept@.contains(x) by {
                    let q = choose|q: int| 0 <= q < sub1.len() && (#[trigger] sub1[q]) == x;
                    if q < ai as int {
                        assert(act0.subrange(0, ai as int)[q] == x);
                        assert(act0.subrange(0, ai as int).contains(x));
                        assert(pre_kept.contains(x));
                        let p = choose|p: int| 0 <= p < pre_kept.len() && (#[trigger] pre_kept[p]) == x;
                        assert(kept@[p] == x);
                    } else {
                        assert(x == e);
                        assert(kept@[kept@.len() - 1] == x);
                    }
                }
            }
            ai += 1;
        }
        active = kept;
        let ghost act = active@;
        proof {
            assert(act0.subrange(0, act0.len() as int) =~= act0);
            // The active list now holds exactly the swept entries that reach
            // the current entry's low edge.
            assert forall|e: SweepEntry| #[trigger] act.contains(e) implies (
                prefix_has(s, ta, e) && e.aabb.max.x >= s[ta].aabb.min.x
            ) by {
                assert(act0.contains(e));
            }
            assert forall|e: SweepEntry| prefix_has(s, ta, e) && e.aabb.max.x >= s[ta].aabb.min.x
                implies #[trigger] act.contains(e) by {
                assert(ta >= 1);
                if e == s[ta - 1] {
                    assert(act0.contains(e));
                } else {
                    assert(s[ta - 1].aabb.min.x <= s[ta].aabb.min.x);
                    assert(act0.contains(e));
                }
            }
            assert forall|m: int| 0 <= m < act.len() implies prefix_has(s, ta, #[trigger] act[m])
                && act[m].aabb.max.x >= s[ta].aabb.min.x by {
                assert(act.contains(act[m]));
            }
        }

        // Emit a pair for every remaining active entry that overlaps.
        let mut k: usize = 0;
        let ghost pre_pairs = pairs@;
        while k < active.len()
            invariant
                active@ == act,
                k <= act.len(),
                entries@ == s,
                s.len() == n as int,
                n == bodies.len(),
                entries_wf(s, bodies, params),
                cur == s[ta],
                0 <= ta < n as int,
                forall|m: int| 0 <= m < act.len() ==> prefix_has(s, ta, #[trigger] act[m])
                    && act[m].aabb.max.x >= s[ta].aabb.min.x,
                pairs_wf(pairs@, n as int),
                forall|i: int, j: int| 0 <= i < j < n as int ==> (#[trigger] pair_reported(pairs@, i, j) <==> (
                    pair_reported(pre_pairs, i, j) || emitted_match(act, cur, k as int, i, j)
                )),
            decreases act.len() - k as int,
        {
            let e = active[k];
            proof {
                assert(prefix_has(s, ta, act[k as int]));
                let p = choose|p: int| 0 <= p < ta && p < s.len() && (#[trigger] s[p]) == act[k as int];
                assert(entry_wf(s[p], bodies, params));
            }
            let ghost pairs_before = pairs@;
            let emit = e.index != cur.index && e.aabb.overlaps(&cur.aabb);
            if emit {
                if e.index < cur.index {
                    pairs.push((e.index, cur.index));
                } else {
                    pairs.push((cur.index, e.index));
                }
            }
            proof {
                assert forall|i: int, j: int| 0 <= i < j < n as int implies (#[trigger] pair_reported(pairs@, i, j) <==> (
                    pair_reported(pre_pairs, i, j) || emitted_match(act, cur, k as int + 1, i, j)
                )) by {
                    if emit {
                        let pr: (usize, usize) = if e.index < cur.index {
                            (e.index, cur.index)
                        } else {
                            (cur.index, e.index)
                        };
                        lemma_reported_push(pairs_before, pr, i, j);
                    }
                    if emitted_match(act, cur, k as int + 1, i, j) && !emitted_match(act, cur, k as int, i, j) {
                        let m = choose|m: int| 0 <= m < k as int + 1 && entry_matches(#[trigger] act[m], cur, i, j);
                        assert(m == k as int);
                        assert(entry_matches(e, cur, i, j));
                    }
                    if emitted_match(act, cur, k as int, i, j) {
                        let m = choose|m: int| 0 <= m < k as int && entry_matches(#[trigger] act[m], cur, i, j);
                        assert(emitted_match(act, cur, k as int + 1, i, j));
                    }
                }
            }
            k += 1;
        }
        active.push(cur);
        t += 1;
        proof {
            let tb = t as int;
            assert(tb == ta + 1);
            assert(active@ == act.push(cur));
            // Restore the active-list characterization for the next round.
            assert forall|e: SweepEntry| #[trigger] active@.contains(e) implies (
                prefix_has(s, tb, e) && (e == s[tb - 1] || e.aabb.max.x >= s[tb - 1].aabb.min.x)
            ) by {
                let q = choose|q: int| 0 <= q < active@.len() && (#[trigger] active@[q]) == e;
                if q < act.len() {
                    assert(act[q] == e);
                    assert(act.contains(e));
                    assert(prefix_has(s, ta, e) && e.aabb.max.x >= s[ta].aabb.min.x);
                    let pp = choose|p: int| 0 <= p < ta && p < s.len() && (#[trigger] s[p]) == e;
                    assert(0 <= pp < tb && pp < s.len() && s[pp] == e);
                } else {
                    assert(e == cur);
                    assert(s[tb - 1] == e);
                    assert(prefix_has(s, tb, e));
                }
            }
            assert forall|e: SweepEntry| prefix_has(s, tb, e) && (e == s[tb - 1] || e.aabb.max.x >= s[tb - 1].aabb.min.x)
                implies #[trigger] active@.contains(e) by {
                if e == s[tb - 1] {
                    assert(active@[active@.len() - 1] == cur);
                } else {
                    let p = choose|p: int| 0 <= p < tb && p < s.len() && (#[trigger] s[p]) == e;
                    if p == tb - 1 {
                        assert(active@[active@.len() - 1] == e);
                    } else {
                        assert(prefix_has(s, ta, e));
                        assert(act.contains(e));
                        let q = choose|q: int| 0 <= q < act.len() && (#[trigger] act[q]) == e;
                        assert(active@[q] == e);
                    }
                }
            }
            // Restore the pair characterization for the swept prefix.
            assert forall|i: int, j: int| 0 <= i < j < n as int implies (#[trigger] pair_reported(pairs@, i, j) <==> (
                pair_in_range_spec(bodies, params, i, j) && in_prefix(s, tb, i) && in_prefix(s, tb, j)
            )) by {
                lemma_pair_round(pairs@, pre_pairs, bodies, params, s, tb, act, cur, i, j);
            }
        }
    }
    proof {
        assert forall|i: int, j: int| 0 <= i < j < n as int implies (#[trigger] pair_reported(pairs@, i, j)
            <==> pair_in_range_spec(bodies, params, i, j)) by {
            assert(has_index(s, i));
            let p = choose|p: int| 0 <= p < s.len() && (#[trigger] s[p]).index == i;
            assert(in_prefix(s, n as int, i));
            assert(has_index(s, j));
            let q = choose|q: int| 0 <= q < s.len() && (#[trigger] s[q]).index == j;
            assert(in_prefix(s, n as int, j));
        }
    }
    pairs
}


/// The bodies reindexed through a permutation: position `k` holds the body
/// that `perm[k]` named before.
pub open spec fn permuted_bodies(bodies: Seq<RigidBody>, perm: Seq<int>) -> Seq<RigidBody> {
    Seq::new(bodies.len(), |k: int| bodies[perm[k]])
}

/// The broad phase is order-independent modulo pair-set equality: permuting
/// body indices and re-running it reports a canonical pair exactly when the
/// original run reported the canonical image of that pair. Stated for any
/// two lists that satisfy `detect_sap`'s contract on the original and the
/// permuted bodies.
pub proof fn lemma_detect_sap_order_independent(
    bodies: Seq<RigidBody>,
    params: SimParams,
    perm: Seq<int>,
    pairs_orig: Seq<(usize, usize)>,
    pairs_perm: Seq<(usize, usize)>,
    i: int,
    j: int,
)
    requires
        perm.len() == bodies.len(),
        forall|k: int| 0 <= k < perm.len() ==> 0 <= #[trigger] perm[k] < bodies.len(),
        0 <= i < j < bodies.len(),
        perm[i] != perm[j],
        forall|a: int, b: int| 0 <= a < b < bodies.len() ==> (#[trigger] pair_reported(pairs_orig, a, b)
            <==> pair_in_range_spec(bodies, params, a, b)),
        forall|a: int, b: int| 0 <= a < b < bodies.len() ==> (#[trigger] pair_reported(pairs_perm, a, b)
            <==> pair_in_range_spec(permuted_bodies(bodies, perm), params, a, b)),
    ensures
        pair_reported(pairs_perm, i, j) <==> pair_reported(
            pairs_orig,
            if perm[i] < perm[j] { perm[i] } else { perm[j] },
            if perm[i] < perm[j] { perm[j] } else { perm[i] },
        ),
{
    let pb = permuted_bodies(bodies, perm);
    assert(pb[i] == bodies[perm[i]]);
    assert(pb[j] == bodies[perm[j]]);
    let lo = if perm[i] < perm[j] { perm[i] } else { perm[j] };
    let hi = if perm[i] < perm[j] { perm[j] } else { perm[i] };
    assert(pair_in_range_spec(pb, params, i, j) == pair_in_range_spec(bodies, params, lo, hi));
    assert(pair_reported(pairs_orig, lo, hi) <==> pair_in_range_spec(bodies, params, lo, hi));
}

} // verus!
