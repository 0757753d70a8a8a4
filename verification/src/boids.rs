//! Ids of the boids simulation's entities, grouping of boids into flocks,
//! and the decisions the simulation's view makes on user input.

use vstd::prelude::*;
use crate::ecs::{Entity, Increment, Index, System};

verus! {

/// Id of a boid: the index of its slot.
#[derive(Clone, Copy, Debug, PartialEq, Eq, Structural, PartialOrd, Ord, Default)]
pub struct BoidId(pub u16);

/// Id of an obstacle: the index of its slot.
#[derive(Clone, Copy, Debug, PartialEq, Eq, Structural, PartialOrd, Ord, Default)]
pub struct ObsticleId(pub u16);

/// The successor of a 16-bit id number, wrapping to 0 after the largest.
pub open spec fn next_id_number(n: u16) -> u16 {
    if n == u16::MAX {
        0
    } else {
        (n + 1) as u16
    }
}

impl Increment for BoidId {
    open spec fn spec_increment(&self) -> Self {
        BoidId(next_id_number(self.0))
    }

    fn increment(&self) -> (r: Self) {
        if self.0 == u16::MAX {
            BoidId(0)
        } else {
            BoidId(self.0 + 1)
        }
    }
}

impl Index for BoidId {
    open spec fn index_of(&self) -> int {
        self.0 as int
    }

    open spec fn index_limit() -> int {
        0x1_0000
    }

    open spec fn spec_from_index(index: int) -> Self {
        BoidId(index as u16)
    }

    fn as_index(&self) -> (r: usize) {
        self.0 as usize
    }

    fn from_index(index: usize) -> (r: Self) {
        BoidId(index as u16)
    }

    proof fn lemma_from_index_inverse(index: int) {
    }

    proof fn lemma_index_of_nonnegative(&self) {
    }

    proof fn lemma_same_slot_same_id(a: &Self, b: &Self) {
    }
}

impl Increment for ObsticleId {
    open spec fn spec_increment(&self) -> Self {
        ObsticleId(next_id_number(self.0))
    }

    fn increment(&self) -> (r: Self) {
        if self.0 == u16::MAX {
            ObsticleId(0)
        } else {
            ObsticleId(self.0 + 1)
        }
    }
}

impl Index for ObsticleId {
    open spec fn index_of(&self) -> int {
        self.0 as int
    }

    open spec fn index_limit() -> int {
        0x1_0000
    }

    open spec fn spec_from_index(index: int) -> Self {
        ObsticleId(index as u16)
    }

    fn as_index(&self) -> (r: usize) {
        self.0 as usize
    }

    fn from_index(index: usize) -> (r: Self) {
        ObsticleId(index as u16)
    }

    proof fn lemma_from_index_inverse(index: int) {
    }

    proof fn lemma_index_of_nonnegative(&self) {
    }

    proof fn lemma_same_slot_same_id(a: &Self, b: &Self) {
    }
}

/// Whether boid `x` is near some member of `flock`; `near[a][b]` says that
/// boid `a` is within flocking distance of boid `b`.
pub open spec fn joins(near: Seq<Vec<bool>>, flock: Seq<usize>, x: usize) -> bool {
    exists|m: int| 0 <= m < flock.len() && near[x as int]@[flock[m] as int]
}

/// The first flock from the `i`-th on that `x` may join, or the number of
/// flocks when there is none.
pub open spec fn first_joinable(near: Seq<Vec<bool>>, flocks: Seq<Seq<usize>>, x: usize, i: int) -> int
    decreases flocks.len() - i,
{
    if i < 0 || i >= flocks.len() {
        flocks.len() as int
    } else if joins(near, flocks[i], x) {
        i
    } else {
        first_joinable(near, flocks, x, i + 1)
    }
}

/// The flocks after boid `x` joins the first flock it is near, or starts a
/// flock of its own.
pub open spec fn place(near: Seq<Vec<bool>>, flocks: Seq<Seq<usize>>, x: usize) -> Seq<Seq<usize>> {
    let j = first_joinable(near, flocks, x, 0);
    if j < flocks.len() {
        flocks.update(j, flocks[j].push(x))
    } else {
        flocks.push(seq![x])
    }
}

/// The flocks formed by the boids `n - 1` down to `k`, placed in that order.
pub open spec fn grouped(near: Seq<Vec<bool>>, n: int, k: int) -> Seq<Seq<usize>>
    decreases n - k,
{
    if k >= n || k < 0 {
        Seq::<Seq<usize>>::empty()
    } else {
        place(near, grouped(near, n, k + 1), k as usize)
    }
}

/// A flock has more than one boid.
pub open spec fn is_flock(f: Seq<usize>) -> bool {
    f.len() > 1
}

/// The ids of the boids at these positions.
pub open spec fn ids_at(ids: Seq<BoidId>, f: Seq<usize>) -> Seq<BoidId> {
    f.map_values(|i: usize| ids[i as int])
}

/// The flocks of the boids `ids` with nearness `near`: the groups of more
/// than one boid, each as the ids of its members in the order they joined.
pub open spec fn flocks_of(ids: Seq<BoidId>, near: Seq<Vec<bool>>) -> Seq<Seq<BoidId>> {
    grouped(near, ids.len() as int, 0).filter(|f: Seq<usize>| is_flock(f)).map_values(
        |f: Seq<usize>| ids_at(ids, f),
    )
}

/// `near` says for every pair of the `n` boids whether they are near.
pub open spec fn is_nearness(near: Seq<Vec<bool>>, n: int) -> bool {
    near.len() == n && forall|i: int| 0 <= i < n ==> (#[trigger] near[i])@.len() == n
}

/// A group of boids that fly together.
#[derive(Debug)]
pub struct Flock {
    pub boids: Vec<BoidId>,
}

/// The member lists of some flocks.
pub open spec fn flock_members(fs: Seq<Flock>) -> Seq<Seq<BoidId>> {
    fs.map_values(|f: Flock| f.boids@)
}

/// The views of lists of positions.
pub open spec fn position_lists(fs: Seq<Vec<usize>>) -> Seq<Seq<usize>> {
    fs.map_values(|f: Vec<usize>| f@)
}

fn joins_flock(near: &Vec<Vec<bool>>, flock: &Vec<usize>, x: usize) -> (r: bool)
    requires
        is_nearness(near@, near@.len() as int),
        x < near@.len(),
        forall|m: int| 0 <= m < flock@.len() ==> flock@[m] < near@.len(),
    ensures
        r == joins(near@, flock@, x),
{
    let mut m: usize = 0;
    while m < flock.len()
        invariant
            is_nearness(near@, near@.len() as int),
            x < near@.len(),
            forall|i: int| 0 <= i < flock@.len() ==> flock@[i] < near@.len(),
            m <= flock@.len(),
            forall|i: int| 0 <= i < m ==> !near@[x as int]@[flock@[i] as int],
        decreases flock@.len() - m,
    {
        let b = flock[m];
        if near[x][b] {
            return true;
        }
        m = m + 1;
    }
    false
}

fn first_joinable_flock(near: &Vec<Vec<bool>>, flocks: &Vec<Vec<usize>>, x: usize) -> (r: usize)
    requires
        is_nearness(near@, near@.len() as int),
        x < near@.len(),
        forall|f: int, m: int|
            0 <= f < flocks@.len() && 0 <= m < flocks@[f]@.len() ==> flocks@[f]@[m] < near@.len(),
    ensures
        r == first_joinable(near@, position_lists(flocks@), x, 0),
        r <= flocks@.len(),
{
    let ghost fs = position_lists(flocks@);
    let mut i: usize = 0;
    while i < flocks.len()
        invariant
            fs == position_lists(flocks@),
            is_nearness(near@, near@.len() as int),
            x < near@.len(),
            forall|f: int, m: int|
                0 <= f < flocks@.len() && 0 <= m < flocks@[f]@.len() ==> flocks@[f]@[m]
                    < near@.len(),
            i <= flocks@.len(),
            first_joinable(near@, fs, x, 0) == first_joinable(near@, fs, x, i as int),
        decreases flocks@.len() - i,
    {
        if joins_flock(near, &flocks[i], x) {
            return i;
        }
        i = i + 1;
    }
    i
}

/// Positions in the flocks lie in `[k, n)`.
pub open spec fn positions_within(fs: Seq<Seq<usize>>, k: int, n: int) -> bool {
    forall|f: int, m: int| 0 <= f < fs.len() && 0 <= m < fs[f].len() ==> k <= #[trigger] fs[f][m] < n
}

proof fn lemma_grouped_within(near: Seq<Vec<bool>>, n: int, k: int)
    requires
        0 <= k <= n <= usize::MAX,
    ensures
        positions_within(grouped(near, n, k), k, n),
    decreases n - k,
{
    if k < n {
        lemma_grouped_within(near, n, k + 1);
        let g = grouped(near, n, k + 1);
        let x = k as usize;
        lemma_first_joinable_range(near, g, x, 0);
        let j = first_joinable(near, g, x, 0);
        let h = grouped(near, n, k);
        assert(h == place(near, g, x));
        assert forall|f: int, m: int| 0 <= f < h.len() && 0 <= m < h[f].len() implies k <= #[trigger] h[f][m] < n by {
            if j < g.len() {
                if f == j {
                    if m < g[j].len() {
                        assert(h[f][m] == g[j][m]);
                    } else {
                        assert(h[f][m] == x);
                    }
                } else {
                    assert(h[f] == g[f]);
                }
            } else {
                if f < g.len() {
                    assert(h[f] == g[f]);
                } else {
                    assert(h[f] == seq![x]);
                }
            }
        }
    }
}

proof fn lemma_first_joinable_range(near: Seq<Vec<bool>>, flocks: Seq<Seq<usize>>, x: usize, i: int)
    requires
        0 <= i <= flocks.len(),
    ensures
        i <= first_joinable(near, flocks, x, i) <= flocks.len(),
        first_joinable(near, flocks, x, i) < flocks.len() ==> joins(
            near,
            flocks[first_joinable(near, flocks, x, i)],
            x,
        ),
    decreases flocks.len() - i,
{
    if i < flocks.len() && !joins(near, flocks[i], x) {
        lemma_first_joinable_range(near, flocks, x, i + 1);
    }
}

/// Every group is non-empty and every boid from `k` to `n - 1` is in one.
pub open spec fn covers(g: Seq<Seq<usize>>, k: int, n: int) -> bool {
    &&& forall|f: int| 0 <= f < g.len() ==> (#[trigger] g[f]).len() > 0
    &&& forall|x: int| k <= x < n ==> #[trigger] in_some_group(g, x)
}

/// Boid `x` is in one of the groups.
pub open spec fn in_some_group(g: Seq<Seq<usize>>, x: int) -> bool {
    exists|f: int, m: int| 0 <= f < g.len() && 0 <= m < g[f].len() && #[trigger] g[f][m] == x
}

/// No boid is in two places.
pub open spec fn unique_members(g: Seq<Seq<usize>>) -> bool {
    forall|f1: int, m1: int, f2: int, m2: int|
        0 <= f1 < g.len() && 0 <= m1 < g[f1].len() && 0 <= f2 < g.len() && 0 <= m2 < g[f2].len()
            && #[trigger] g[f1][m1] == #[trigger] g[f2][m2] ==> f1 == f2 && m1 == m2
}

/// Every boid after the first of its group is near one that joined before.
pub open spec fn linked(near: Seq<Vec<bool>>, g: Seq<Seq<usize>>) -> bool {
    forall|f: int, m: int| 0 <= f < g.len() && 0 < m < g[f].len() ==> #[trigger] near_earlier(near, g[f], m)
}

/// The `m`-th member of the group is near one of the members before it.
pub open spec fn near_earlier(near: Seq<Vec<bool>>, group: Seq<usize>, m: int) -> bool {
    exists|e: int| 0 <= e < m && near[group[m] as int]@[group[e] as int]
}

proof fn lemma_grouped_invariants(near: Seq<Vec<bool>>, n: int, k: int)
    requires
        0 <= k <= n <= usize::MAX,
    ensures
        covers(grouped(near, n, k), k, n),
        unique_members(grouped(near, n, k)),
        linked(near, grouped(near, n, k)),
    decreases n - k,
{
    if k < n {
        lemma_grouped_invariants(near, n, k + 1);
        lemma_grouped_within(near, n, k + 1);
        let g = grouped(near, n, k + 1);
        let x = k as usize;
        lemma_first_joinable_range(near, g, x, 0);
        let j = first_joinable(near, g, x, 0);
        let h = grouped(near, n, k);
        assert(h == place(near, g, x));
        if j < g.len() {
            assert(h == g.update(j, g[j].push(x)));
            assert forall|f: int, m: int| 0 <= f < h.len() && 0 <= m < h[f].len() implies
                #[trigger] h[f][m] == (if f == j && m == g[j].len() {
                    x
                } else {
                    g[f][m]
                }) by {
                if f == j && m < g[j].len() {
                    assert(h[f][m] == g[j][m]);
                }
            }
            assert forall|f: int| 0 <= f < h.len() implies (#[trigger] h[f]).len() > 0 by {
                if f != j {
                    assert(h[f] == g[f]);
                }
            }
            assert forall|y: int| k <= y < n implies #[trigger] in_some_group(h, y) by {
                if y == k {
                    assert(h[j][g[j].len() as int] == y);
                } else {
                    assert(in_some_group(g, y));
                    let (f, m) = choose|f: int, m: int|
                        0 <= f < g.len() && 0 <= m < g[f].len() && #[trigger] g[f][m] == y;
                    assert(h[f][m] == y);
                }
            }
            assert forall|f1: int, m1: int, f2: int, m2: int|
                0 <= f1 < h.len() && 0 <= m1 < h[f1].len() && 0 <= f2 < h.len() && 0 <= m2
                    < h[f2].len() && #[trigger] h[f1][m1] == #[trigger] h[f2][m2] implies f1 == f2
                && m1 == m2 by {
                let a = h[f1][m1];
                if f1 == j && m1 == g[j].len() {
                    if !(f2 == j && m2 == g[j].len()) {
                        assert(h[f2][m2] == g[f2][m2]);
                        assert(k + 1 <= g[f2][m2]);
                    }
                } else if f2 == j && m2 == g[j].len() {
                    assert(h[f1][m1] == g[f1][m1]);
                    assert(k + 1 <= g[f1][m1]);
                } else {
                    assert(g[f1][m1] == g[f2][m2]);
                }
            }
            assert forall|f: int, m: int| 0 <= f < h.len() && 0 < m < h[f].len() implies #[trigger] near_earlier(near, h[f], m) by {
                if f == j {
                    if m == g[j].len() {
                        let e = choose|e: int| 0 <= e < g[j].len() && near[x as int]@[g[j][e] as int];
                        assert(h[f][e] == g[j][e]);
                        assert(h[f][m] == x);
                        assert(0 <= e < m && near[h[f][m] as int]@[h[f][e] as int]);
                    } else {
                        assert(near_earlier(near, g[f], m));
                        let e = choose|e: int| 0 <= e < m && near[g[f][m] as int]@[g[f][e] as int];
                        assert(h[f][e] == g[f][e]);
                        assert(h[f][m] == g[f][m]);
                        assert(0 <= e < m && near[h[f][m] as int]@[h[f][e] as int]);
                    }
                } else {
                    assert(h[f] == g[f]);
                    assert(near_earlier(near, g[f], m));
                }
            }
        } else {
            assert(h == g.push(seq![x]));
            assert forall|f: int, m: int| 0 <= f < h.len() && 0 <= m < h[f].len() implies
                #[trigger] h[f][m] == (if f == g.len() {
                    x
                } else {
                    g[f][m]
                }) by {
                if f < g.len() {
                    assert(h[f] == g[f]);
                }
            }
            assert forall|f: int| 0 <= f < h.len() implies (#[trigger] h[f]).len() > 0 by {
                if f < g.len() {
                    assert(h[f] == g[f]);
                }
            }
            assert forall|y: int| k <= y < n implies #[trigger] in_some_group(h, y) by {
                if y == k {
                    assert(h[g.len() as int][0] == y);
                } else {
                    assert(in_some_group(g, y));
                    let (f, m) = choose|f: int, m: int|
                        0 <= f < g.len() && 0 <= m < g[f].len() && #[trigger] g[f][m] == y;
                    assert(h[f][m] == y);
                }
            }
            assert forall|f1: int, m1: int, f2: int, m2: int|
                0 <= f1 < h.len() && 0 <= m1 < h[f1].len() && 0 <= f2 < h.len() && 0 <= m2
                    < h[f2].len() && #[trigger] h[f1][m1] == #[trigger] h[f2][m2] implies f1 == f2
                && m1 == m2 by {
                if f1 == g.len() {
                    if f2 != g.len() {
                        assert(k + 1 <= g[f2][m2]);
                    }
                } else if f2 == g.len() {
                    assert(k + 1 <= g[f1][m1]);
                } else {
                    assert(g[f1][m1] == g[f2][m2]);
                }
            }
            assert forall|f: int, m: int| 0 <= f < h.len() && 0 < m < h[f].len() implies #[trigger] near_earlier(near, h[f], m) by {
                assert(f < g.len());
                assert(h[f] == g[f]);
                assert(near_earlier(near, g[f], m));
            }
        }
    }
}

/// No id occurs twice.
pub open spec fn distinct_ids(ids: Seq<BoidId>) -> bool {
    forall|a: int, b: int| 0 <= a < b < ids.len() ==> ids[a] != ids[b]
}

/// No id occurs twice among the flocks, within one flock or across two.
pub open spec fn unique_ids(fs: Seq<Seq<BoidId>>) -> bool {
    forall|f1: int, m1: int, f2: int, m2: int|
        0 <= f1 < fs.len() && 0 <= m1 < fs[f1].len() && 0 <= f2 < fs.len() && 0 <= m2
            < fs[f2].len() && #[trigger] fs[f1][m1] == #[trigger] fs[f2][m2] ==> f1 == f2 && m1
            == m2
}

/// The groups of more than one boid, in order.
pub open spec fn kept(g: Seq<Seq<usize>>) -> Seq<Seq<usize>> {
    g.filter(|f: Seq<usize>| is_flock(f))
}

proof fn lemma_kept_groups(g: Seq<Seq<usize>>, n: int)
    requires
        unique_members(g),
        positions_within(g, 0, n),
    ensures
        unique_members(kept(g)),
        positions_within(kept(g), 0, n),
        forall|i: int|
            0 <= i < kept(g).len() ==> exists|f: int|
                0 <= f < g.len() && #[trigger] kept(g)[i] == g[f],
    decreases g.len(),
{
    reveal_with_fuel(Seq::<_>::filter, 1);
    let pred = |f: Seq<usize>| is_flock(f);
    assert(kept(g) == g.filter(pred));
    if g.len() > 0 {
        let t = g.drop_last();
        assert(unique_members(t)) by {
            assert forall|f1: int, m1: int, f2: int, m2: int|
                0 <= f1 < t.len() && 0 <= m1 < t[f1].len() && 0 <= f2 < t.len() && 0 <= m2
                    < t[f2].len() && #[trigger] t[f1][m1] == #[trigger] t[f2][m2] implies f1 == f2
                && m1 == m2 by {
                assert(g[f1][m1] == g[f2][m2]);
            }
        }
        assert(positions_within(t, 0, n)) by {
            assert forall|f: int, m: int| 0 <= f < t.len() && 0 <= m < t[f].len() implies 0
                <= #[trigger] t[f][m] < n by {
                assert(t[f][m] == g[f][m]);
            }
        }
        lemma_kept_groups(t, n);
        let kt = kept(t);
        assert(kt == t.filter(pred));
        assert forall|i: int| 0 <= i < kt.len() implies exists|f: int|
            0 <= f < g.len() - 1 && #[trigger] kt[i] == g[f] by {
            let f = choose|f: int| 0 <= f < t.len() && kt[i] == t[f];
            assert(kt[i] == g[f]);
        }
        if pred(g.last()) {
            let x = g.last();
            let k = kt.push(x);
            assert(kept(g) == k);
            assert forall|i: int| 0 <= i < k.len() implies exists|f: int|
                0 <= f < g.len() && #[trigger] k[i] == g[f] by {
                if i < kt.len() {
                    let f = choose|f: int| 0 <= f < g.len() - 1 && kt[i] == g[f];
                    assert(k[i] == g[f]);
                } else {
                    assert(k[i] == g[g.len() - 1]);
                }
            }
            assert forall|f: int, m: int| 0 <= f < k.len() && 0 <= m < k[f].len() implies 0
                <= #[trigger] k[f][m] < n by {
                if f < kt.len() {
                    assert(k[f] == kt[f]);
                } else {
                    assert(k[f] == g[g.len() - 1]);
                }
            }
            assert forall|f1: int, m1: int, f2: int, m2: int|
                0 <= f1 < k.len() && 0 <= m1 < k[f1].len() && 0 <= f2 < k.len() && 0 <= m2
                    < k[f2].len() && #[trigger] k[f1][m1] == #[trigger] k[f2][m2] implies f1 == f2
                && m1 == m2 by {
                let last = g.len() - 1;
                if f1 < kt.len() && f2 < kt.len() {
                    assert(k[f1] == kt[f1] && k[f2] == kt[f2]);
                } else if f1 == kt.len() && f2 == kt.len() {
                    assert(g[last][m1] == g[last][m2]);
                } else if f1 < kt.len() {
                    let a = choose|f: int| 0 <= f < g.len() - 1 && kt[f1] == g[f];
                    assert(g[a][m1] == g[last][m2]);
                } else {
                    let a = choose|f: int| 0 <= f < g.len() - 1 && kt[f2] == g[f];
                    assert(g[last][m1] == g[a][m2]);
                }
            }
        } else {
            assert(kept(g) == kt);
        }
    } else {
        assert(kept(g) =~= Seq::<Seq<usize>>::empty());
    }
}

/// Flocking puts every boid into exactly one group, at a position below the
/// number of boids; every boid after the first of its group is near one that
/// joined the group before it; the flocks returned are the groups of more
/// than one boid, each holding ids of the input; and when the input ids are
/// distinct, no id occurs twice among the flocks.
pub proof fn lemma_flocking_partitions(ids: Seq<BoidId>, near: Seq<Vec<bool>>)
    requires
        ids.len() <= usize::MAX,
    ensures
        covers(grouped(near, ids.len() as int, 0), 0, ids.len() as int),
        unique_members(grouped(near, ids.len() as int, 0)),
        positions_within(grouped(near, ids.len() as int, 0), 0, ids.len() as int),
        linked(near, grouped(near, ids.len() as int, 0)),
        forall|i: int| 0 <= i < flocks_of(ids, near).len() ==> (#[trigger] flocks_of(ids, near)[i]).len() > 1,
        forall|i: int, m: int|
            0 <= i < flocks_of(ids, near).len() && 0 <= m < flocks_of(ids, near)[i].len() ==> ids.contains(
                #[trigger] flocks_of(ids, near)[i][m],
            ),
        distinct_ids(ids) ==> unique_ids(flocks_of(ids, near)),
{
    let n = ids.len() as int;
    lemma_grouped_invariants(near, n, 0);
    lemma_grouped_within(near, n, 0);
    let g = grouped(near, n, 0);
    let pred = |f: Seq<usize>| is_flock(f);
    let gf = kept(g);
    lemma_kept_groups(g, n);
    let fs = flocks_of(ids, near);
    broadcast use vstd::seq_lib::group_filter_ensures;
    assert(fs == gf.map_values(|f: Seq<usize>| ids_at(ids, f)));
    assert forall|i: int| 0 <= i < fs.len() implies (#[trigger] fs[i]).len() > 1 by {
        assert(fs[i] == ids_at(ids, gf[i]));
        assert(pred(gf[i]));
    }
    assert forall|i: int, m: int| 0 <= i < fs.len() && 0 <= m < fs[i].len() implies ids.contains(
        #[trigger] fs[i][m],
    ) by {
        assert(fs[i] == ids_at(ids, gf[i]));
        assert(fs[i][m] == ids[gf[i][m] as int]);
        assert(0 <= gf[i][m] < n);
    }
    if distinct_ids(ids) {
        assert forall|f1: int, m1: int, f2: int, m2: int|
            0 <= f1 < fs.len() && 0 <= m1 < fs[f1].len() && 0 <= f2 < fs.len() && 0 <= m2
                < fs[f2].len() && #[trigger] fs[f1][m1] == #[trigger] fs[f2][m2] implies f1 == f2
            && m1 == m2 by {
            assert(fs[f1] == ids_at(ids, gf[f1]));
            assert(fs[f2] == ids_at(ids, gf[f2]));
            let p1 = gf[f1][m1] as int;
            let p2 = gf[f2][m2] as int;
            assert(fs[f1][m1] == ids[p1]);
            assert(fs[f2][m2] == ids[p2]);
            assert(0 <= p1 < n && 0 <= p2 < n);
            if p1 < p2 {
                assert(ids[p1] != ids[p2]);
            } else if p2 < p1 {
                assert(ids[p2] != ids[p1]);
            }
            assert(gf[f1][m1] == gf[f2][m2]);
        }
    }
}

impl Flock {
    /// Groups the boids `ids` into flocks, where `near[a][b]` says that the
    /// boid at position `a` is within flocking distance of the one at `b`.
    /// The boids are taken from the last to the first; each joins the first
    /// flock (in the order flocks were started) that has a member it is
    /// near, or starts a new one. Groups of one boid are dropped.
    pub fn create_flocks(ids: &Vec<BoidId>, near: &Vec<Vec<bool>>) -> (r: Vec<Flock>)
        requires
            is_nearness(near@, ids@.len() as int),
        ensures
            flock_members(r@) == flocks_of(ids@, near@),
    {
        let n = ids.len();
        let mut flocks: Vec<Vec<usize>> = Vec::new();
        let mut k: usize = n;
        proof {
            assert(position_lists(flocks@) =~= grouped(near@, n as int, n as int));
        }
        while k > 0
            invariant
                n == ids@.len(),
                is_nearness(near@, n as int),
                k <= n,
                position_lists(flocks@) == grouped(near@, n as int, k as int),
            decreases k,
        {
            k = k - 1;
            proof {
                lemma_grouped_within(near@, n as int, k as int + 1);
                let g = position_lists(flocks@);
                assert forall|f: int, m: int|
                    0 <= f < flocks@.len() && 0 <= m < flocks@[f]@.len() implies flocks@[f]@[m]
                    < near@.len() by {
                    assert(g[f] == flocks@[f]@);
                    assert(k + 1 <= g[f][m] < n);
                }
            }
            let j = first_joinable_flock(near, &flocks, k);
            let ghost before = position_lists(flocks@);
            if j < flocks.len() {
                let mut f = flocks[j].clone();
                assert(f@ =~= flocks@[j as int]@);
                f.push(k);
                flocks.set(j, f);
                assert(position_lists(flocks@) =~= before.update(j as int, before[j as int].push(k)));
            } else {
                let mut single: Vec<usize> = Vec::new();
                single.push(k);
                assert(single@ =~= seq![k]);
                flocks.push(single);
                assert(position_lists(flocks@) =~= before.push(seq![k]));
            }
        }
        proof {
            lemma_grouped_within(near@, n as int, 0);
        }
        let ghost all = grouped(near@, n as int, 0);
        let mut out: Vec<Flock> = Vec::new();
        let mut i: usize = 0;
        while i < flocks.len()
            invariant
                n == ids@.len(),
                all == position_lists(flocks@),
                positions_within(all, 0, n as int),
                i <= flocks@.len(),
                flock_members(out@) == all.take(i as int).filter(|f: Seq<usize>| is_flock(f)).map_values(
                    |f: Seq<usize>| ids_at(ids@, f),
                ),
            decreases flocks@.len() - i,
        {
            proof {
                reveal_with_fuel(Seq::<_>::filter, 1);
                assert(all.take(i as int + 1).drop_last() =~= all.take(i as int));
            }
            if flocks[i].len() > 1 {
                let mut boids: Vec<BoidId> = Vec::new();
                let mut m: usize = 0;
                while m < flocks[i].len()
                    invariant
                        n == ids@.len(),
                        all == position_lists(flocks@),
                        positions_within(all, 0, n as int),
                        i < flocks@.len(),
                        m <= flocks@[i as int]@.len(),
                        boids@ == ids_at(ids@, flocks@[i as int]@.take(m as int)),
                    decreases flocks@[i as int]@.len() - m,
                {
                    let p = flocks[i][m];
                    assert(all[i as int] == flocks@[i as int]@);
                    assert(0 <= all[i as int][m as int] < n);
                    boids.push(ids[p]);
                    m = m + 1;
                    assert(boids@ =~= ids_at(ids@, flocks@[i as int]@.take(m as int)));
                }
                assert(flocks@[i as int]@.take(m as int) =~= flocks@[i as int]@);
                let ghost prev = flock_members(out@);
                out.push(Flock { boids });
                assert(flock_members(out@) =~= prev.push(ids_at(ids@, all[i as int])));
            }
            i = i + 1;
        }
        assert(all.take(flocks@.len() as int) =~= all);
        out
    }
}

/// What a click on the simulation does, by the editing mode.
#[derive(Clone, Copy, Debug, PartialEq, Eq, Structural)]
pub enum EditingMode {
    AddBoid,
    AddObsticle,
    Remove,
    Idle,
}

/// The change a click makes to the simulation.
#[derive(Clone, Copy, Debug, PartialEq, Eq, Structural)]
pub enum ClickAction {
    AddBoidAt,
    AddObsticleAt,
    RemoveNear,
    Nothing,
}

impl EditingMode {
    /// What a click does in this mode.
    pub open spec fn spec_click_action(&self) -> ClickAction {
        match *self {
            EditingMode::AddBoid => ClickAction::AddBoidAt,
            EditingMode::AddObsticle => ClickAction::AddObsticleAt,
            EditingMode::Remove => ClickAction::RemoveNear,
            EditingMode::Idle => ClickAction::Nothing,
        }
    }

    /// What a click at some point does in this mode.
    pub fn click_action(&self) -> (r: ClickAction)
        ensures
            r == self.spec_click_action(),
    {
        match self {
            EditingMode::AddBoid => ClickAction::AddBoidAt,
            EditingMode::AddObsticle => ClickAction::AddObsticleAt,
            EditingMode::Remove => ClickAction::RemoveNear,
            EditingMode::Idle => ClickAction::Nothing,
        }
    }
}

/// What the boids page reacts to; the new values of the simulation's
/// settings travel beside `UpdateSetting`.
#[derive(Clone, Copy, Debug, PartialEq, Eq, Structural)]
pub enum BoidsEvent {
    SetUp,
    Tick,
    AddRandomBoid,
    AddRandomObsticle,
    Clear,
    Resize,
    UpdateSetting,
    Clicked,
    SetEditingMode(EditingMode),
}

/// The state of the boids page's controls.
#[derive(Debug)]
pub struct BoidsControls {
    pub editing_mode: EditingMode,
}

impl BoidsControls {
    /// Controls in which a click does nothing.
    pub fn create() -> (r: BoidsControls)
        ensures
            r.editing_mode == EditingMode::Idle,
    {
        BoidsControls { editing_mode: EditingMode::Idle }
    }

    /// Reacts to `event`: whether the page is drawn again, and what a click
    /// does to the simulation. Setting up, resizing, changing a setting and
    /// choosing a mode redraw the page; a click acts by the mode.
    pub fn update(&mut self, event: BoidsEvent) -> (r: (bool, Option<ClickAction>))
        ensures
            match event {
                BoidsEvent::SetEditingMode(mode) => final(self).editing_mode == mode && r == (
                    true,
                    None::<ClickAction>,
                ),
                BoidsEvent::Clicked => final(self).editing_mode == old(self).editing_mode && r == (
                    false,
                    Some(old(self).editing_mode.spec_click_action()),
                ),
                _ => final(self).editing_mode == old(self).editing_mode && r.1 is None && r.0 == (
                event is SetUp || event is Resize || event is UpdateSetting),
            },
    {
        match event {
            BoidsEvent::SetEditingMode(mode) => {
                self.editing_mode = mode;
                (true, None)
            },
            BoidsEvent::Clicked => (false, Some(self.editing_mode.click_action())),
            BoidsEvent::SetUp => (true, None),
            BoidsEvent::Resize => (true, None),
            BoidsEvent::UpdateSetting => (true, None),
            _ => (false, None),
        }
    }
}

/// Registers for the window's resize events; the page does the
/// registration with the browser.
#[derive(Debug)]
pub struct ResizeService {}

impl ResizeService {
    /// A new service.
    pub fn new() -> (r: ResizeService) {
        ResizeService {  }
    }
}

/// Removes the entities with the listed ids (those found near a point).
pub fn remove_listed<T: Entity>(system: &mut System<T>, ids: &Vec<T::Id>)
    requires
        forall|k: int| 0 <= k < ids@.len() ==> (#[trigger] ids@[k]).index_of() < old(system)@.len(),
    ensures
        final(system)@.len() == old(system)@.len(),
        forall|i: int|
            0 <= i < old(system)@.len() ==> #[trigger] final(system)@[i] == if exists|k: int|
                0 <= k < ids@.len() && ids@[k].index_of() == i {
                None
            } else {
                old(system)@[i]
            },
{
    let mut k: usize = 0;
    while k < ids.len()
        invariant
            k <= ids@.len(),
            system@.len() == old(system)@.len(),
            forall|j: int| 0 <= j < ids@.len() ==> (#[trigger] ids@[j]).index_of() < old(system)@.len(),
            forall|i: int|
                0 <= i < old(system)@.len() ==> #[trigger] system@[i] == if exists|j: int|
                    0 <= j < k && ids@[j].index_of() == i {
                    None
                } else {
                    old(system)@[i]
                },
        decreases ids@.len() - k,
    {
        let ghost before = system@;
        let id = &ids[k];
        proof {
            id.lemma_index_of_nonnegative();
        }
        system.remove(id);
        proof {
            assert forall|i: int| 0 <= i < old(system)@.len() implies #[trigger] system@[i] == if exists|j: int|
                0 <= j < k + 1 && ids@[j].index_of() == i {
                None
            } else {
                old(system)@[i]
            } by {
                if ids@[k as int].index_of() == i {
                    assert(exists|j: int| 0 <= j < k + 1 && ids@[j].index_of() == i);
                } else {
                    assert(system@[i] == before[i]);
                    if exists|j: int| 0 <= j < k + 1 && ids@[j].index_of() == i {
                        let j = choose|j: int| 0 <= j < k + 1 && ids@[j].index_of() == i;
                        assert(j < k);
                    }
                }
            }
        }
        k = k + 1;
    }
}

/// Past flocks that `x` is near no member of, the search for a flock to
/// join goes on.
proof fn lemma_first_joinable_skips(near: Seq<Vec<bool>>, g: Seq<Seq<usize>>, x: usize, i: int, j: int)
    requires
        0 <= i <= j <= g.len(),
        forall|k: int, n: int|
            i <= k < j && 0 <= n < g[k].len() ==> !near[x as int]@[#[trigger] g[k][n] as int],
    ensures
        first_joinable(near, g, x, i) == first_joinable(near, g, x, j),
    decreases j - i,
{
    if i < j {
        assert(!joins(near, g[i], x));
        lemma_first_joinable_skips(near, g, x, i + 1, j);
    }
}

/// A boid joins the first flock that holds a boid it is near, whichever
/// member of that flock it is near: it goes after that flock's members and
/// no flock is started.
pub proof fn lemma_boid_joins_first_flock_it_is_near(
    near: Seq<Vec<bool>>,
    g: Seq<Seq<usize>>,
    x: usize,
    j: int,
    m: int,
)
    requires
        0 <= j < g.len(),
        0 <= m < g[j].len(),
        near[x as int]@[g[j][m] as int],
        forall|k: int, n: int|
            0 <= k < j && 0 <= n < g[k].len() ==> !near[x as int]@[#[trigger] g[k][n] as int],
    ensures
        place(near, g, x) == g.update(j, g[j].push(x)),
{
    lemma_first_joinable_skips(near, g, x, 0, j);
    assert(joins(near, g[j], x));
}

/// A boid near no member of any flock starts a flock of its own, after the
/// others.
pub proof fn lemma_boid_near_no_flock_starts_one(near: Seq<Vec<bool>>, g: Seq<Seq<usize>>, x: usize)
    requires
        forall|k: int, n: int|
            0 <= k < g.len() && 0 <= n < g[k].len() ==> !near[x as int]@[#[trigger] g[k][n] as int],
    ensures
        place(near, g, x) == g.push(seq![x]),
{
    lemma_first_joinable_skips(near, g, x, 0, g.len() as int);
}

} // verus!
