//! Cooperative initialization of a shared array across a hierarchy of
//! parallel execution units.
//!
//! A single array, visible to every unit of an execution scope, is divided
//! among those units by an axis projection whose partition of the array's
//! axes is proven exhaustive and non-overlapping, written cooperatively, and
//! promoted to a globally readable state only once a collective barrier has
//! been crossed.
//!
//! The backing memory is external: handles carry only a bounds-checked
//! strided mapping into an arena the caller owns, and hardware state (axis
//! sizes and this unit's position) is supplied by the execution environment
//! as a plain value.

use vstd::prelude::*;

mod archs;
mod init_state;
mod size_type;
mod strided;
pub(crate) mod util;

pub use archs::nvptx;
pub use archs::{lemma_mixed_radix, lemma_partition1, lemma_partition2, lemma_partition3,
    spans_disjoint, spans_partition, spans_union, Arch, AxisSpan, AxisSymbol, BarrierTally,
    HwState, Projection, ProjectionSet, ProjectionSetDim0, Scope, SyncableScope, UnitScope};
pub use init_state::{FinallySplit, Init, Splitable, State, Uninit, Viewable};
pub use size_type::{AsIsize, AsUsize, Size, SizeType, _16Bit, _32Bit, _64Bit, _8Bit};
pub use strided::{cap_usize, lemma_split_owns_each_element_once, lemma_strided_count_bounds,
    lemma_strided_index_complete, lemma_strided_index_in, lemma_strided_index_mono, lemma_sub_map,
    mul_capped, on_stride, strided_count, sub_map, written_position, StridedMap};

verus! {

use core::marker::PhantomData;

use crate::strided::{lemma_strided_count_bounds as count_bounds,
    lemma_strided_index_complete as index_complete, lemma_strided_index_in as index_in,
    lemma_strided_index_mono as index_mono, lemma_sub_map as sub_map_facts};

/// A backing position already written by the first k owned elements of the
/// split anchored at x with step d.
spec fn written_below(m: StridedMap, x: int, d: int, kbound: int, p: int) -> bool {
    exists|k: int| 0 <= k < kbound && p == #[trigger] m.index_spec(x + k * d)
}

/// A handle to an array that is physically resident in memory shared by
/// every unit of scope Sc. The handle owns no memory: it records the strided
/// mapping of its elements into an external arena, while the lifecycle state
/// I governs which operations are legal.
pub struct SimtArray<T, Sc, I> {
    map: StridedMap,
    _elem: PhantomData<T>,
    _scope: PhantomData<Sc>,
    _state: PhantomData<I>,
}

/// An exclusive strided sub-view handed to one unit for mutation. Releasing
/// it crosses the scope's collective barrier, so by the time any unit
/// observes the release, every unit's writes are visible. A unit excluded
/// from the partition holds a sub-view with no range but must still release
/// it, keeping control flow uniform across units.
pub struct SimtArrayMutRef<T, Sc> {
    view: Option<StridedMap>,
    _elem: PhantomData<T>,
    _scope: PhantomData<Sc>,
}

impl<T, Sc: Scope, I: State> SimtArray<T, Sc, I> {
    /// The strided mapping of this handle's elements into the arena.
    pub closed spec fn mapping(self) -> StridedMap {
        self.map
    }

    pub open spec fn wf(self) -> bool {
        self.mapping().wf()
    }

    /// Trust-me constructor: the caller asserts that an arena of
    /// mapping.space elements shared by every unit in Sc exists and is in
    /// lifecycle state I.
    pub fn new_unchecked(mapping: StridedMap) -> (r: SimtArray<T, Sc, I>)
        requires
            mapping.wf(),
        ensures
            r.mapping() == mapping,
            r.wf(),
    {
        SimtArray { map: mapping, _elem: PhantomData, _scope: PhantomData, _state: PhantomData }
    }
}

impl<T, Sc: Scope, I: Viewable> SimtArray<T, Sc, I> {
    /// A read view of every element the handle's mapping selects: legal only
    /// in states whose scope of validity is certain.
    pub fn expr(&self) -> (r: StridedMap)
        ensures
            r == self.mapping(),
    {
        self.map
    }
}

impl<T, Sc: Scope, I: State> SimtArray<T, Sc, I> {
    /// The sub-map selecting every d-th logical element from x onward,
    /// computed executably.
    fn restrict(&self, x: usize, d: usize) -> (r: StridedMap)
        requires
            self.wf(),
            1 <= d,
            x <= self.mapping().count,
        ensures
            r == sub_map(self.mapping(), x as int, d as int),
            r.wf(),
    {
        let m = self.map;
        proof {
            count_bounds(x as int, d as int, m.count as int);
            sub_map_facts(m, x as int, d as int);
        }
        if x >= m.count {
            StridedMap { start: m.space, stride: 1, count: 0, space: m.space }
        } else {
            let c: usize = (m.count - 1 - x) / d + 1;
            proof {
                index_in(x as int, d as int, m.count as int, 0);
                m.lemma_index_in_space(x as int);
            }
            let start = m.start + x * m.stride;
            let stride = mul_capped(m.stride, d);
            StridedMap { start, stride, count: c, space: m.space }
        }
    }
}

impl<T, Sc: Scope, I: Viewable> SimtArray<T, Sc, I> {
    /// A read view of this unit's partition under Ps: every d-th element
    /// starting at the unit's offset x, where d and x are the extent and
    /// offset of Ps's leading axis. A unit whose offset exceeds the handle's
    /// extent receives no view.
    pub fn view<E, Ps>(&self, hw: &HwState) -> (r: Option<StridedMap>)
        where E: Scope<Arch = Sc::Arch>, Ps: ProjectionSetDim0<E, Sc>,
        requires
            self.wf(),
            hw.wf(),
        ensures
            r is None <==> Ps::idx0_spec(*hw) > self.mapping().count,
            r is Some ==> r == Some(
                sub_map(self.mapping(), Ps::idx0_spec(*hw), Ps::dim0_spec(*hw)),
            ) && r.unwrap().wf(),
    {
        proof {
            Ps::lemma_dim0_in_range(*hw);
        }
        let d: usize = Ps::dim0(hw).as_();
        let x: usize = Ps::idx0(hw).as_();
        if x > self.map.count {
            return None;
        }
        Some(self.restrict(x, d))
    }

    /// Like view, but additionally caps how many units take part: a unit
    /// whose offset is at least `quantity` receives no view, and the
    /// partition step of the others is the capped unit count, not the full
    /// extent of the leading axis.
    pub fn view_with_limited_quantity<E, Ps>(&self, hw: &HwState, quantity: u32) -> (r: Option<
        StridedMap>)
        where E: Scope<Arch = Sc::Arch>, Ps: ProjectionSetDim0<E, Sc>,
        requires
            self.wf(),
            hw.wf(),
        ensures
            r is None <==> (Ps::idx0_spec(*hw) > self.mapping().count || Ps::idx0_spec(*hw)
                >= quantity),
            r is Some ==> r == Some(
                sub_map(
                    self.mapping(),
                    Ps::idx0_spec(*hw),
                    if Ps::dim0_spec(*hw) <= quantity { Ps::dim0_spec(*hw) } else { quantity as int },
                ),
            ) && r.unwrap().wf(),
    {
        proof {
            Ps::lemma_dim0_in_range(*hw);
        }
        let d0: u32 = Ps::dim0(hw);
        let x0: u32 = Ps::idx0(hw);
        let x: usize = x0.as_();
        if x > self.map.count {
            return None;
        }
        if x0 >= quantity {
            return None;
        }
        let q: u32 = if d0 <= quantity {
            d0
        } else {
            quantity
        };
        Some(self.restrict(x, q.as_()))
    }
}

impl<T, Sc: SyncableScope, I: Viewable> SimtArray<T, Sc, I> {
    /// An exclusive strided sub-view of this unit's partition under Ps. A
    /// unit whose offset exceeds the handle's extent receives a sub-view
    /// with no range; either way the sub-view must be released, which
    /// crosses the scope's barrier.
    pub fn view_mut<E, Ps>(&mut self, hw: &HwState) -> (r: SimtArrayMutRef<T, Sc>)
        where E: UnitScope<Arch = Sc::Arch>, Ps: ProjectionSetDim0<E, Sc>,
        requires
            old(self).wf(),
            hw.wf(),
        ensures
            *final(self) == *old(self),
            r.view_of() is None <==> Ps::idx0_spec(*hw) > old(self).mapping().count,
            r.view_of() is Some ==> r.view_of() == Some(
                sub_map(old(self).mapping(), Ps::idx0_spec(*hw), Ps::dim0_spec(*hw)),
            ) && r.view_of().unwrap().wf(),
    {
        proof {
            Ps::lemma_dim0_in_range(*hw);
        }
        let d: usize = Ps::dim0(hw).as_();
        let x: usize = Ps::idx0(hw).as_();
        if x > self.map.count {
            return SimtArrayMutRef { view: None, _elem: PhantomData, _scope: PhantomData };
        }
        let sub = self.restrict(x, d);
        SimtArrayMutRef { view: Some(sub), _elem: PhantomData, _scope: PhantomData }
    }

    /// Like view_mut, but additionally caps how many units take part, as
    /// view_with_limited_quantity does.
    pub fn view_mut_with_limited_quantity<E, Ps>(&mut self, hw: &HwState, quantity: u32) -> (r:
        SimtArrayMutRef<T, Sc>)
        where E: UnitScope<Arch = Sc::Arch>, Ps: ProjectionSetDim0<E, Sc>,
        requires
            old(self).wf(),
            hw.wf(),
        ensures
            *final(self) == *old(self),
            r.view_of() is None <==> (Ps::idx0_spec(*hw) > old(self).mapping().count
                || Ps::idx0_spec(*hw) >= quantity),
            r.view_of() is Some ==> r.view_of() == Some(
                sub_map(
                    old(self).mapping(),
                    Ps::idx0_spec(*hw),
                    if Ps::dim0_spec(*hw) <= quantity { Ps::dim0_spec(*hw) } else { quantity as int },
                ),
            ) && r.view_of().unwrap().wf(),
    {
        proof {
            Ps::lemma_dim0_in_range(*hw);
        }
        let d0: u32 = Ps::dim0(hw);
        let x0: u32 = Ps::idx0(hw);
        let x: usize = x0.as_();
        if x > self.map.count || x0 >= quantity {
            return SimtArrayMutRef { view: None, _elem: PhantomData, _scope: PhantomData };
        }
        let q: u32 = if d0 <= quantity {
            d0
        } else {
            quantity
        };
        let sub = self.restrict(x, q.as_());
        SimtArrayMutRef { view: Some(sub), _elem: PhantomData, _scope: PhantomData }
    }
}

impl<T, Sc: Scope, I: Splitable> SimtArray<T, Sc, I> {
    /// Cooperative write. Must be reached by every unit in the scope
    /// (uniform control flow). The calling unit writes exactly its own
    /// strided sub-range — every d-th logical element starting at its
    /// offset x under Ps — by invoking the writer once per owned element
    /// with that element's logical index, and receives a handle restricted
    /// to the sub-range it wrote, not yet synchronized. A unit whose offset
    /// exceeds the handle's extent writes nothing and receives no handle.
    pub fn write_once<E, Ps, F>(self, arena: &mut Vec<T>, hw: &HwState, f: F) -> (r: Option<
        SimtArray<T, Sc, FinallySplit>>)
        where
            E: UnitScope<Arch = Sc::Arch>,
            Ps: ProjectionSetDim0<E, Sc>,
            F: Fn(usize) -> T,
        requires
            self.wf(),
            hw.wf(),
            old(arena).len() == self.mapping().space,
            forall|j: usize| j < self.mapping().count ==> #[trigger] f.requires((j,)),
        ensures
            final(arena).len() == old(arena).len(),
            Ps::idx0_spec(*hw) > self.mapping().count ==> r is None && final(arena)@ == old(
                arena,
            )@,
            Ps::idx0_spec(*hw) <= self.mapping().count ==> r is Some && r.unwrap().wf()
                && r.unwrap().mapping() == sub_map(
                self.mapping(),
                Ps::idx0_spec(*hw),
                Ps::dim0_spec(*hw),
            ),
            forall|j: int|
                0 <= j < self.mapping().count && #[trigger] on_stride(
                    Ps::idx0_spec(*hw),
                    Ps::dim0_spec(*hw),
                    j,
                ) ==> f.ensures((j as usize,), final(arena)@[self.mapping().index_spec(j)]),
            forall|p: int|
                0 <= p < old(arena).len() && !#[trigger] written_position(
                    self.mapping(),
                    Ps::idx0_spec(*hw),
                    Ps::dim0_spec(*hw),
                    p,
                ) ==> final(arena)@[p] == old(arena)@[p],
    {
        self.write_once_inner::<E, Ps, F>(arena, hw, f)
    }

    /// Performs write_once, then crosses the scope's collective barrier,
    /// then returns a handle to the original, unrestricted shape in the
    /// fully initialized state — valid because after the barrier every
    /// unit's disjoint contribution is complete and visible. Must be
    /// reached by every unit in the scope (uniform control flow).
    pub fn init_with<E, Ps, F>(
        self,
        arena: &mut Vec<T>,
        hw: &HwState,
        tally: &mut BarrierTally,
        f: F,
    ) -> (r: SimtArray<T, Sc, Init>)
        where
            Sc: SyncableScope,
            E: UnitScope<Arch = Sc::Arch>,
            Ps: ProjectionSetDim0<E, Sc>,
            F: Fn(usize) -> T,
        requires
            self.wf(),
            hw.wf(),
            old(arena).len() == self.mapping().space,
            old(tally).count < u64::MAX,
            forall|j: usize| j < self.mapping().count ==> #[trigger] f.requires((j,)),
        ensures
            r.wf(),
            r.mapping() == self.mapping(),
            final(tally).count == old(tally).count + 1,
            final(arena).len() == old(arena).len(),
            Ps::idx0_spec(*hw) > self.mapping().count ==> final(arena)@ == old(arena)@,
            forall|j: int|
                0 <= j < self.mapping().count && #[trigger] on_stride(
                    Ps::idx0_spec(*hw),
                    Ps::dim0_spec(*hw),
                    j,
                ) ==> f.ensures((j as usize,), final(arena)@[self.mapping().index_spec(j)]),
            forall|p: int|
                0 <= p < old(arena).len() && !#[trigger] written_position(
                    self.mapping(),
                    Ps::idx0_spec(*hw),
                    Ps::dim0_spec(*hw),
                    p,
                ) ==> final(arena)@[p] == old(arena)@[p],
    {
        let out = SimtArray {
            map: self.map,
            _elem: PhantomData,
            _scope: PhantomData,
            _state: PhantomData,
        };
        let _ = self.write_once_inner::<E, Ps, F>(arena, hw, f);
        Sc::sync(tally);
        out
    }

    fn write_once_inner<E, Ps, F>(self, arena: &mut Vec<T>, hw: &HwState, f: F) -> (r: Option<
        SimtArray<T, Sc, FinallySplit>>)
        where
            E: UnitScope<Arch = Sc::Arch>,
            Ps: ProjectionSetDim0<E, Sc>,
            F: Fn(usize) -> T,
        requires
            self.wf(),
            hw.wf(),
            old(arena).len() == self.mapping().space,
            forall|j: usize| j < self.mapping().count ==> #[trigger] f.requires((j,)),
        ensures
            final(arena).len() == old(arena).len(),
            Ps::idx0_spec(*hw) > self.mapping().count ==> r is None && final(arena)@ == old(
                arena,
            )@,
            Ps::idx0_spec(*hw) <= self.mapping().count ==> r is Some && r.unwrap().wf()
                && r.unwrap().mapping() == sub_map(
                self.mapping(),
                Ps::idx0_spec(*hw),
                Ps::dim0_spec(*hw),
            ),
            forall|j: int|
                0 <= j < self.mapping().count && #[trigger] on_stride(
                    Ps::idx0_spec(*hw),
                    Ps::dim0_spec(*hw),
                    j,
                ) ==> f.ensures((j as usize,), final(arena)@[self.mapping().index_spec(j)]),
            forall|p: int|
                0 <= p < old(arena).len() && !#[trigger] written_position(
                    self.mapping(),
                    Ps::idx0_spec(*hw),
                    Ps::dim0_spec(*hw),
                    p,
                ) ==> final(arena)@[p] == old(arena)@[p],
    {
        let ghost m = self.map;
        let ghost xg = Ps::idx0_spec(*hw);
        let ghost dg = Ps::dim0_spec(*hw);
        proof {
            Ps::lemma_dim0_in_range(*hw);
        }
        let d: usize = Ps::dim0(hw).as_();
        let x: usize = Ps::idx0(hw).as_();
        if x > self.map.count {
            proof {
                lemma_no_written_positions(m, xg, dg);
            }
            return None;
        }
        let sub = self.restrict(x, d);
        proof {
            sub_map_facts(m, xg, dg);
            count_bounds(xg, dg, m.count as int);
        }
        let c = sub.count;
        let mut k: usize = 0;
        while k < c
            invariant
                m.wf(),
                self.map == m,
                1 <= d,
                x as int == xg,
                d as int == dg,
                x <= m.count,
                k <= c,
                c == strided_count(xg, dg, m.count as int),
                arena.len() == m.space,
                arena.len() == old(arena).len(),
                forall|j: usize| j < m.count ==> #[trigger] f.requires((j,)),
                forall|k2: int|
                    0 <= k2 < k ==> f.ensures(
                        ((xg + k2 * dg) as usize,),
                        arena@[#[trigger] m.index_spec(xg + k2 * dg)],
                    ),
                forall|p: int|
                    0 <= p < arena.len() && !written_below(m, xg, dg, k as int, p)
                        ==> arena@[p] == old(arena)@[p],
            decreases c - k,
        {
            proof {
                index_in(xg, dg, m.count as int, k as int);
                m.lemma_index_in_space(xg + k as int * dg);
            }
            let j: usize = x + k * d;
            let p: usize = self.map.start + j * self.map.stride;
            let v = f(j);
            arena[p] = v;
            proof {
                assert forall|k2: int|
                    0 <= k2 < k + 1 implies f.ensures(
                    ((xg + k2 * dg) as usize,),
                    arena@[#[trigger] m.index_spec(xg + k2 * dg)],
                ) by {
                    index_in(xg, dg, m.count as int, k2);
                    if k2 < k as int {
                        index_mono(xg, dg, k2, k as int);
                        index_mono(m.start as int, m.stride as int, xg + k2 * dg, xg + k as int
                            * dg);
                    }
                }
                assert forall|p2: int|
                    0 <= p2 < arena.len() && !written_below(m, xg, dg, k + 1, p2)
                        implies arena@[p2] == old(arena)@[p2] by {
                    assert(!written_below(m, xg, dg, k as int, p2));
                    assert(p2 != m.index_spec(xg + k as int * dg));
                }
            }
            k = k + 1;
        }
        proof {
            lemma_written_positions_complete(m, xg, dg, c as int);
        }
        Some(SimtArray { map: sub, _elem: PhantomData, _scope: PhantomData, _state: PhantomData })
    }
}

/// When the unit's offset exceeds the handle's extent, no position is
/// written.
proof fn lemma_no_written_positions(m: StridedMap, x: int, d: int)
    requires
        x > m.count,
    ensures
        forall|p: int| !written_position(m, x, d, p),
{
}

/// After the loop has visited every k below the count, the elements written
/// are exactly the owned logical indices, and every owned logical index has
/// received its writer value.
proof fn lemma_written_positions_complete(m: StridedMap, x: int, d: int, c: int)
    requires
        m.wf(),
        0 <= x,
        1 <= d,
        c == strided_count(x, d, m.count as int),
    ensures
        forall|j: int|
            0 <= j < m.count && #[trigger] on_stride(x, d, j) ==> {
                let k = (j - x) / d;
                0 <= k < c && j == x + k * d
            },
        forall|p: int|
            #[trigger] written_position(m, x, d, p) ==> written_below(m, x, d, c, p),
        forall|p: int|
            0 <= p < m.space && !written_position(m, x, d, p) ==> !written_below(m, x, d, c, p),
{
    assert forall|j: int| 0 <= j < m.count && #[trigger] on_stride(x, d, j) implies {
        let k = (j - x) / d;
        0 <= k < c && j == x + k * d
    } by {
        index_complete(x, d, m.count as int, j);
    }
    assert forall|p: int| #[trigger] written_position(m, x, d, p) implies written_below(
        m,
        x,
        d,
        c,
        p,
    ) by {
        let j = choose|j: int| 0 <= j < m.count && on_stride(x, d, j) && p == m.index_spec(j);
        index_complete(x, d, m.count as int, j);
        let k = (j - x) / d;
        assert(p == m.index_spec(x + k * d));
    }
    assert forall|p: int|
        0 <= p < m.space && !written_position(m, x, d, p) implies !written_below(
        m,
        x,
        d,
        c,
        p,
    ) by {
        if written_below(m, x, d, c, p) {
            let k = choose|k: int| 0 <= k < c && p == #[trigger] m.index_spec(x + k * d);
            index_in(x, d, m.count as int, k);
            assert(0 <= x + k * d < m.count && on_stride(x, d, x + k * d));
            assert(written_position(m, x, d, p));
        }
    }
}

impl<T, Sc: SyncableScope> SimtArrayMutRef<T, Sc> {
    /// The strided sub-range this unit may mutate, if it was assigned one.
    pub closed spec fn view_of(self) -> Option<StridedMap> {
        self.view
    }

    /// The writable mapping of this unit's sub-range, or nothing for a unit
    /// the partition excluded.
    pub fn expr_mut(&mut self) -> (r: Option<StridedMap>)
        ensures
            *final(self) == *old(self),
            r == old(self).view_of(),
    {
        self.view
    }

    /// Ends the sub-view's scope: crosses the scope's collective barrier
    /// exactly once, whether or not this unit was assigned a range, so that
    /// by the time any unit observes the release, every unit's mutation
    /// through its own sub-view is visible to the others.
    pub fn release(self, tally: &mut BarrierTally)
        requires
            old(tally).count < u64::MAX,
        ensures
            final(tally).count == old(tally).count + 1,
    {
        Sc::sync(tally);
    }
}

/// Round trip of a cooperative write: element k of the sub-handle that
/// write_once returns addresses exactly the parent element with logical
/// index x + k * d — the k-th element of the strided sub-range predicted by
/// the unit's offset x and extent d — and that position is among the
/// positions write_once reports written. Together with the contracts of
/// write_once and StridedMap::read, reading back the owned sub-range through
/// the returned handle yields exactly the values the writer produced.
pub proof fn lemma_write_once_round_trip(m: StridedMap, x: int, d: int, k: int)
    requires
        m.wf(),
        0 <= x,
        1 <= d,
        0 <= k < sub_map(m, x, d).count,
    ensures
        sub_map(m, x, d).index_spec(k) == m.index_spec(x + k * d),
        0 <= x + k * d < m.count,
        on_stride(x, d, x + k * d),
        written_position(m, x, d, sub_map(m, x, d).index_spec(k)),
{
    sub_map_facts(m, x, d);
    index_in(x, d, m.count as int, k);
    let j = x + k * d;
    assert(0 <= j < m.count && on_stride(x, d, j) && sub_map(m, x, d).index_spec(k)
        == m.index_spec(j));
}

} // verus!
