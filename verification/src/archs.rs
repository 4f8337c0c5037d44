use vstd::prelude::*;

pub mod nvptx;

verus! {

use crate::size_type::SizeType;

/// An architecture: a fixed hierarchy of execution scopes together with the
/// index width its hardware prefers.
pub trait Arch {
    /// The integer width the architecture uses for extents and offsets.
    type IndexSize: SizeType;
}

/// A level of an architecture's execution hierarchy over which a shared view
/// of memory can be defined.
pub trait Scope {
    type Arch: Arch;
}

/// Counts collective barrier crossings. The barrier instruction itself
/// belongs to the hardware; the model records when it is invoked, which is
/// what callers of a syncable scope can observe.
pub struct BarrierTally {
    pub count: u64,
}

impl BarrierTally {
    pub fn new() -> (r: BarrierTally)
        ensures
            r.count == 0,
    {
        BarrierTally { count: 0 }
    }
}

/// A scope whose units can all be synchronized with one another by a
/// collective barrier.
pub trait SyncableScope: Scope {
    /// Crosses the scope's collective barrier once.
    fn sync(tally: &mut BarrierTally)
        requires
            old(tally).count < u64::MAX,
        ensures
            final(tally).count == old(tally).count + 1,
    ;
}

/// The innermost, indivisible scope of an architecture: a single execution
/// unit.
pub trait UnitScope: Scope {

}

/// The per-architecture data source for axis sizes and indices: the sizes of
/// the grid and block along each axis and this unit's position in them, as
/// the hardware reports them. Values are supplied by the execution
/// environment; the projections below are total functions of this state.
#[derive(Clone, Copy, Debug, PartialEq, Eq, Structural)]
pub struct HwState {
    pub grid_dim_x: u32,
    pub grid_dim_y: u32,
    pub grid_dim_z: u32,
    pub block_dim_x: u32,
    pub block_dim_y: u32,
    pub block_dim_z: u32,
    pub block_idx_x: u32,
    pub block_idx_y: u32,
    pub block_idx_z: u32,
    pub thread_idx_x: u32,
    pub thread_idx_y: u32,
    pub thread_idx_z: u32,
}

impl HwState {
    /// Well-formed hardware state: every index lies strictly below its size,
    /// and the total number of units in the grid fits the index width.
    pub open spec fn wf(self) -> bool {
        &&& self.thread_idx_x < self.block_dim_x
        &&& self.thread_idx_y < self.block_dim_y
        &&& self.thread_idx_z < self.block_dim_z
        &&& self.block_idx_x < self.grid_dim_x
        &&& self.block_idx_y < self.grid_dim_y
        &&& self.block_idx_z < self.grid_dim_z
        &&& self.block_dim_x * self.grid_dim_x * self.block_dim_y * self.grid_dim_y
            * self.block_dim_z * self.grid_dim_z <= u32::MAX
    }
}

/// The subset of the hardware's three axes that an axis symbol spans.
#[derive(Clone, Copy, Debug, PartialEq, Eq, Structural)]
pub struct AxisSpan {
    pub x: bool,
    pub y: bool,
    pub z: bool,
}

impl AxisSpan {
    pub open spec fn empty() -> AxisSpan {
        AxisSpan { x: false, y: false, z: false }
    }

    pub open spec fn full() -> AxisSpan {
        AxisSpan { x: true, y: true, z: true }
    }

    pub open spec fn disjoint(self, other: AxisSpan) -> bool {
        &&& !(self.x && other.x)
        &&& !(self.y && other.y)
        &&& !(self.z && other.z)
    }

    pub open spec fn union(self, other: AxisSpan) -> AxisSpan {
        AxisSpan { x: self.x || other.x, y: self.y || other.y, z: self.z || other.z }
    }
}

/// An axis symbol: one of the fixed primitive axes or a compound grouping of
/// them, together with the set of hardware axes it spans.
pub trait AxisSymbol {
    spec fn span() -> AxisSpan;
}

/// No two entries claim a hardware axis twice.
pub open spec fn spans_disjoint(ss: Seq<AxisSpan>) -> bool {
    forall|i: int, j: int| 0 <= i < j < ss.len() ==> #[trigger] ss[i].disjoint(ss[j])
}

/// The union of all entries' spans.
pub open spec fn spans_union(ss: Seq<AxisSpan>) -> AxisSpan
    decreases ss.len(),
{
    if ss.len() == 0 {
        AxisSpan::empty()
    } else {
        spans_union(ss.drop_last()).union(ss.last())
    }
}

/// The entries' spans cover every hardware axis exactly once.
pub open spec fn spans_partition(ss: Seq<AxisSpan>) -> bool {
    spans_disjoint(ss) && spans_union(ss) == AxisSpan::full()
}

pub proof fn lemma_partition1(s0: AxisSpan)
    requires
        s0 == AxisSpan::full(),
    ensures
        spans_partition(seq![s0]),
{
    let ss = seq![s0];
    assert(ss.drop_last() =~= Seq::<AxisSpan>::empty());
    assert(spans_union(ss) == AxisSpan::empty().union(s0));
}

pub proof fn lemma_partition2(s0: AxisSpan, s1: AxisSpan)
    requires
        s0.disjoint(s1),
        s0.union(s1) == AxisSpan::full(),
    ensures
        spans_partition(seq![s0, s1]),
{
    reveal_with_fuel(spans_union, 3);
    let ss = seq![s0, s1];
    assert(ss.drop_last() =~= seq![s0]);
    assert(seq![s0].drop_last() =~= Seq::<AxisSpan>::empty());
    assert(spans_union(ss) == spans_union(seq![s0]).union(s1));
    assert(spans_union(seq![s0]) == spans_union(Seq::<AxisSpan>::empty()).union(s0));
}

pub proof fn lemma_partition3(s0: AxisSpan, s1: AxisSpan, s2: AxisSpan)
    requires
        s0.disjoint(s1),
        s0.disjoint(s2),
        s1.disjoint(s2),
        s0.union(s1).union(s2) == AxisSpan::full(),
    ensures
        spans_partition(seq![s0, s1, s2]),
{
    reveal_with_fuel(spans_union, 4);
    let ss = seq![s0, s1, s2];
    assert(ss.drop_last() =~= seq![s0, s1]);
    assert(seq![s0, s1].drop_last() =~= seq![s0]);
    assert(seq![s0].drop_last() =~= Seq::<AxisSpan>::empty());
    assert(spans_union(ss) == spans_union(seq![s0, s1]).union(s2));
    assert(spans_union(seq![s0, s1]) == spans_union(seq![s0]).union(s1));
    assert(spans_union(seq![s0]) == spans_union(Seq::<AxisSpan>::empty()).union(s0));
}

/// Mixed-radix composition stays in range: with the head axis the
/// fastest-varying component, the composed offset ih + dh * it ranges over
/// [0, dh * dt) when ih ranges over [0, dh) and it over [0, dt).
pub proof fn lemma_mixed_radix(dh: int, ih: int, dt: int, it: int)
    requires
        0 <= ih < dh,
        0 <= it < dt,
    ensures
        0 <= ih + dh * it,
        ih + dh * it < dh * dt,
{
    assert(0 <= ih + dh * it && ih + dh * it < dh * dt) by (nonlinear_arith)
        requires
            0 <= ih < dh,
            0 <= it < dt,
    ;
}

/// A binding of one axis symbol to an (inner scope, outer scope) pair: how
/// many peer units of scope S share this axis inside one O, and which of
/// them this unit is. Compound symbols compose their children left to right
/// with the mixed-radix rule, the head the fastest-varying component.
pub trait Projection<S: Scope, O: Scope>: AxisSymbol {
    type Arch: Arch;

    /// How many peer units share this axis: the per-unit extent.
    spec fn dim_spec(hw: HwState) -> int;

    /// This unit's zero-based position along the axis.
    spec fn idx_spec(hw: HwState) -> int;

    /// On well-formed hardware state the offset lies strictly below the
    /// extent, and the extent fits the index width.
    proof fn lemma_in_range(hw: HwState)
        requires
            hw.wf(),
        ensures
            1 <= Self::dim_spec(hw) <= u32::MAX,
            0 <= Self::idx_spec(hw) < Self::dim_spec(hw),
    ;

    fn dim(hw: &HwState) -> (r: u32)
        requires
            hw.wf(),
        ensures
            r as int == Self::dim_spec(*hw),
    ;

    fn idx(hw: &HwState) -> (r: u32)
        requires
            hw.wf(),
        ensures
            r as int == Self::idx_spec(*hw),
    ;
}

impl AxisSymbol for () {
    open spec fn span() -> AxisSpan {
        AxisSpan::empty()
    }
}

/// The degenerate axis: a unit that does not participate along an axis has
/// extent 1 and offset 0, the identity of mixed-radix composition.
impl<S: Scope, O: Scope> Projection<S, O> for () {
    type Arch = <S as Scope>::Arch;

    open spec fn dim_spec(hw: HwState) -> int {
        1
    }

    open spec fn idx_spec(hw: HwState) -> int {
        0
    }

    proof fn lemma_in_range(hw: HwState) {
    }

    fn dim(hw: &HwState) -> (r: u32) {
        1
    }

    fn idx(hw: &HwState) -> (r: u32) {
        0
    }
}

/// An ordered tuple of projections, one entry per axis of a target shape,
/// whose axis spans cover every hardware axis exactly once. Only tuples
/// declared by an architecture's partition table implement this trait, and
/// every implementation carries the proof of its own validity.
pub trait ProjectionSet<S: Scope, O: Scope> {
    type Arch: Arch;

    /// The axis span claimed by each entry, in order.
    spec fn entry_spans() -> Seq<AxisSpan>;

    /// The spans are pairwise disjoint and their union is all hardware axes.
    proof fn lemma_partitions()
        ensures
            spans_partition(Self::entry_spans()),
    ;
}

/// A projection set that can report the extent and offset of its leading
/// (dimension 0) entry.
pub trait ProjectionSetDim0<S: Scope, O: Scope>: ProjectionSet<S, O> {
    spec fn dim0_spec(hw: HwState) -> int;

    spec fn idx0_spec(hw: HwState) -> int;

    proof fn lemma_dim0_in_range(hw: HwState)
        requires
            hw.wf(),
        ensures
            1 <= Self::dim0_spec(hw) <= u32::MAX,
            0 <= Self::idx0_spec(hw) < Self::dim0_spec(hw),
    ;

    fn dim0(hw: &HwState) -> (r: u32)
        requires
            hw.wf(),
        ensures
            r as int == Self::dim0_spec(*hw),
    ;

    fn idx0(hw: &HwState) -> (r: u32)
        requires
            hw.wf(),
        ensures
            r as int == Self::idx0_spec(*hw),
    ;
}

impl<S: Scope, O: Scope, P0: Projection<S, O>> ProjectionSetDim0<S, O> for (P0,) where
    (P0,): ProjectionSet<S, O>,
 {
    open spec fn dim0_spec(hw: HwState) -> int {
        P0::dim_spec(hw)
    }

    open spec fn idx0_spec(hw: HwState) -> int {
        P0::idx_spec(hw)
    }

    proof fn lemma_dim0_in_range(hw: HwState) {
        P0::lemma_in_range(hw);
    }

    fn dim0(hw: &HwState) -> (r: u32) {
        P0::dim(hw)
    }

    fn idx0(hw: &HwState) -> (r: u32) {
        P0::idx(hw)
    }
}

} // verus!
