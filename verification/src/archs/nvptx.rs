use vstd::prelude::*;

verus! {

use crate::archs::{
    lemma_mixed_radix, lemma_partition1, lemma_partition2, lemma_partition3, Arch, AxisSpan,
    AxisSymbol, BarrierTally, HwState, Projection, ProjectionSet, Scope, SyncableScope, UnitScope,
};
use crate::size_type::_32Bit;

/// The three-level SIMT architecture family: a grid of blocks of threads,
/// each level extending along three axes, indexed with 32-bit integers.
pub struct Nvptx;

impl Arch for Nvptx {
    type IndexSize = _32Bit;
}

pub struct Grid;

pub struct Block;

pub struct Thread;

impl Scope for Grid {
    type Arch = Nvptx;
}

impl Scope for Block {
    type Arch = Nvptx;
}

impl Scope for Thread {
    type Arch = Nvptx;
}

/// A thread is the indivisible execution unit.
impl UnitScope for Thread {

}

/// All threads of one block can be synchronized by the hardware barrier.
/// The model records the crossing in the caller's tally.
impl SyncableScope for Block {
    fn sync(tally: &mut BarrierTally) {
        tally.count = tally.count + 1;
    }
}

pub struct X;

pub struct Y;

pub struct Z;

pub struct Xy;

pub struct Xz;

pub struct Xyz;

pub struct Yz;

impl AxisSymbol for X {
    open spec fn span() -> AxisSpan {
        AxisSpan { x: true, y: false, z: false }
    }
}

impl AxisSymbol for Y {
    open spec fn span() -> AxisSpan {
        AxisSpan { x: false, y: true, z: false }
    }
}

impl AxisSymbol for Z {
    open spec fn span() -> AxisSpan {
        AxisSpan { x: false, y: false, z: true }
    }
}

impl AxisSymbol for Xy {
    open spec fn span() -> AxisSpan {
        AxisSpan { x: true, y: true, z: false }
    }
}

impl AxisSymbol for Xz {
    open spec fn span() -> AxisSpan {
        AxisSpan { x: true, y: false, z: true }
    }
}

impl AxisSymbol for Yz {
    open spec fn span() -> AxisSpan {
        AxisSpan { x: false, y: true, z: true }
    }
}

impl AxisSymbol for Xyz {
    open spec fn span() -> AxisSpan {
        AxisSpan { x: true, y: true, z: true }
    }
}

/// Within a well-formed hardware state every per-axis extent, for every
/// scope pair, multiplies out within the 32-bit index budget: each product
/// below is bounded by the total number of units in the grid.
proof fn lemma_dim_budget(hw: HwState)
    requires
        hw.wf(),
    ensures
        1 <= hw.block_dim_x && 1 <= hw.block_dim_y && 1 <= hw.block_dim_z,
        1 <= hw.grid_dim_x && 1 <= hw.grid_dim_y && 1 <= hw.grid_dim_z,
        hw.block_dim_x * hw.block_dim_y <= u32::MAX,
        hw.block_dim_x * hw.block_dim_z <= u32::MAX,
        hw.block_dim_y * hw.block_dim_z <= u32::MAX,
        hw.block_dim_x * (hw.block_dim_y * hw.block_dim_z) <= u32::MAX,
        hw.grid_dim_x * hw.grid_dim_y <= u32::MAX,
        hw.grid_dim_x * hw.grid_dim_z <= u32::MAX,
        hw.grid_dim_y * hw.grid_dim_z <= u32::MAX,
        hw.grid_dim_x * (hw.grid_dim_y * hw.grid_dim_z) <= u32::MAX,
        hw.block_dim_x * hw.grid_dim_x <= u32::MAX,
        hw.block_dim_y * hw.grid_dim_y <= u32::MAX,
        hw.block_dim_z * hw.grid_dim_z <= u32::MAX,
        (hw.block_dim_x * hw.grid_dim_x) * (hw.block_dim_y * hw.grid_dim_y) <= u32::MAX,
        (hw.block_dim_x * hw.grid_dim_x) * (hw.block_dim_z * hw.grid_dim_z) <= u32::MAX,
        (hw.block_dim_y * hw.grid_dim_y) * (hw.block_dim_z * hw.grid_dim_z) <= u32::MAX,
        (hw.block_dim_x * hw.grid_dim_x) * ((hw.block_dim_y * hw.grid_dim_y) * (hw.block_dim_z
            * hw.grid_dim_z)) <= u32::MAX,
{
    let bx = hw.block_dim_x as int;
    let by = hw.block_dim_y as int;
    let bz = hw.block_dim_z as int;
    let gx = hw.grid_dim_x as int;
    let gy = hw.grid_dim_y as int;
    let gz = hw.grid_dim_z as int;
    let total = bx * gx * by * gy * bz * gz;
    assert(bx * by <= total && bx * bz <= total && by * bz <= total && bx * (by * bz) <= total
        && gx * gy <= total && gx * gz <= total && gy * gz <= total && gx * (gy * gz) <= total
        && bx * gx <= total && by * gy <= total && bz * gz <= total
        && (bx * gx) * (by * gy) <= total && (bx * gx) * (bz * gz) <= total
        && (by * gy) * (bz * gz) <= total && (bx * gx) * ((by * gy) * (bz * gz)) <= total)
        by (nonlinear_arith)
        requires
            1 <= bx,
            1 <= by,
            1 <= bz,
            1 <= gx,
            1 <= gy,
            1 <= gz,
            total == bx * gx * by * gy * bz * gz,
    ;
}

impl Projection<Thread, Block> for X {
    type Arch = Nvptx;

    open spec fn dim_spec(hw: HwState) -> int {
        hw.block_dim_x as int
    }

    open spec fn idx_spec(hw: HwState) -> int {
        hw.thread_idx_x as int
    }

    proof fn lemma_in_range(hw: HwState) {
    }

    fn dim(hw: &HwState) -> (r: u32) {
        hw.block_dim_x
    }

    fn idx(hw: &HwState) -> (r: u32) {
        hw.thread_idx_x
    }
}

impl Projection<Thread, Block> for Y {
    type Arch = Nvptx;

    open spec fn dim_spec(hw: HwState) -> int {
        hw.block_dim_y as int
    }

    open spec fn idx_spec(hw: HwState) -> int {
        hw.thread_idx_y as int
    }

    proof fn lemma_in_range(hw: HwState) {
    }

    fn dim(hw: &HwState) -> (r: u32) {
        hw.block_dim_y
    }

    fn idx(hw: &HwState) -> (r: u32) {
        hw.thread_idx_y
    }
}

impl Projection<Thread, Block> for Z {
    type Arch = Nvptx;

    open spec fn dim_spec(hw: HwState) -> int {
        hw.block_dim_z as int
    }

    open spec fn idx_spec(hw: HwState) -> int {
        hw.thread_idx_z as int
    }

    proof fn lemma_in_range(hw: HwState) {
    }

    fn dim(hw: &HwState) -> (r: u32) {
        hw.block_dim_z
    }

    fn idx(hw: &HwState) -> (r: u32) {
        hw.thread_idx_z
    }
}

impl Projection<Thread, Grid> for X {
    type Arch = Nvptx;

    open spec fn dim_spec(hw: HwState) -> int {
        hw.block_dim_x * hw.grid_dim_x
    }

    open spec fn idx_spec(hw: HwState) -> int {
        hw.block_dim_x * hw.block_idx_x + hw.thread_idx_x
    }

    proof fn lemma_in_range(hw: HwState) {
        lemma_dim_budget(hw);
        lemma_mixed_radix(
            hw.block_dim_x as int,
            hw.thread_idx_x as int,
            hw.grid_dim_x as int,
            hw.block_idx_x as int,
        );
    }

    fn dim(hw: &HwState) -> (r: u32) {
        proof {
            <X as Projection<Thread, Grid>>::lemma_in_range(*hw);
        }
        hw.block_dim_x * hw.grid_dim_x
    }

    fn idx(hw: &HwState) -> (r: u32) {
        proof {
            <X as Projection<Thread, Grid>>::lemma_in_range(*hw);
        }
        hw.block_dim_x * hw.block_idx_x + hw.thread_idx_x
    }
}

impl Projection<Thread, Grid> for Y {
    type Arch = Nvptx;

    open spec fn dim_spec(hw: HwState) -> int {
        hw.block_dim_y * hw.grid_dim_y
    }

    open spec fn idx_spec(hw: HwState) -> int {
        hw.block_dim_y * hw.block_idx_y + hw.thread_idx_y
    }

    proof fn lemma_in_range(hw: HwState) {
        lemma_dim_budget(hw);
        lemma_mixed_radix(
            hw.block_dim_y as int,
            hw.thread_idx_y as int,
            hw.grid_dim_y as int,
            hw.block_idx_y as int,
        );
    }

    fn dim(hw: &HwState) -> (r: u32) {
        proof {
            <Y as Projection<Thread, Grid>>::lemma_in_range(*hw);
        }
        hw.block_dim_y * hw.grid_dim_y
    }

    fn idx(hw: &HwState) -> (r: u32) {
        proof {
            <Y as Projection<Thread, Grid>>::lemma_in_range(*hw);
        }
        hw.block_dim_y * hw.block_idx_y + hw.thread_idx_y
    }
}

impl Projection<Thread, Grid> for Z {
    type Arch = Nvptx;

    open spec fn dim_spec(hw: HwState) -> int {
        hw.block_dim_z * hw.grid_dim_z
    }

    open spec fn idx_spec(hw: HwState) -> int {
        hw.block_dim_z * hw.block_idx_z + hw.thread_idx_z
    }

    proof fn lemma_in_range(hw: HwState) {
        lemma_dim_budget(hw);
        lemma_mixed_radix(
            hw.block_dim_z as int,
            hw.thread_idx_z as int,
            hw.grid_dim_z as int,
            hw.block_idx_z as int,
        );
    }

    fn dim(hw: &HwState) -> (r: u32) {
        proof {
            <Z as Projection<Thread, Grid>>::lemma_in_range(*hw);
        }
        hw.block_dim_z * hw.grid_dim_z
    }

    fn idx(hw: &HwState) -> (r: u32) {
        proof {
            <Z as Projection<Thread, Grid>>::lemma_in_range(*hw);
        }
        hw.block_dim_z * hw.block_idx_z + hw.thread_idx_z
    }
}

impl Projection<Block, Grid> for X {
    type Arch = Nvptx;

    open spec fn dim_spec(hw: HwState) -> int {
        hw.grid_dim_x as int
    }

    open spec fn idx_spec(hw: HwState) -> int {
        hw.block_idx_x as int
    }

    proof fn lemma_in_range(hw: HwState) {
    }

    fn dim(hw: &HwState) -> (r: u32) {
        hw.grid_dim_x
    }

    fn idx(hw: &HwState) -> (r: u32) {
        hw.block_idx_x
    }
}

impl Projection<Block, Grid> for Y {
    type Arch = Nvptx;

    open spec fn dim_spec(hw: HwState) -> int {
        hw.grid_dim_y as int
    }

    open spec fn idx_spec(hw: HwState) -> int {
        hw.block_idx_y as int
    }

    proof fn lemma_in_range(hw: HwState) {
    }

    fn dim(hw: &HwState) -> (r: u32) {
        hw.grid_dim_y
    }

    fn idx(hw: &HwState) -> (r: u32) {
        hw.block_idx_y
    }
}

impl Projection<Block, Grid> for Z {
    type Arch = Nvptx;

    open spec fn dim_spec(hw: HwState) -> int {
        hw.grid_dim_z as int
    }

    open spec fn idx_spec(hw: HwState) -> int {
        hw.block_idx_z as int
    }

    proof fn lemma_in_range(hw: HwState) {
    }

    fn dim(hw: &HwState) -> (r: u32) {
        hw.grid_dim_z
    }

    fn idx(hw: &HwState) -> (r: u32) {
        hw.block_idx_z
    }
}

impl Projection<Thread, Block> for Xy {
    type Arch = Nvptx;

    open spec fn dim_spec(hw: HwState) -> int {
        <X as Projection<Thread, Block>>::dim_spec(hw) * <Y as Projection<Thread, Block>>::dim_spec(hw)
    }

    open spec fn idx_spec(hw: HwState) -> int {
        <X as Projection<Thread, Block>>::idx_spec(hw) + <X as Projection<Thread, Block>>::dim_spec(hw) * <Y as Projection<Thread, Block>>::idx_spec(hw)
    }

    proof fn lemma_in_range(hw: HwState) {
        <X as Projection<Thread, Block>>::lemma_in_range(hw);
        <Y as Projection<Thread, Block>>::lemma_in_range(hw);
        lemma_mixed_radix(
            <X as Projection<Thread, Block>>::dim_spec(hw),
            <X as Projection<Thread, Block>>::idx_spec(hw),
            <Y as Projection<Thread, Block>>::dim_spec(hw),
            <Y as Projection<Thread, Block>>::idx_spec(hw),
        );
        lemma_dim_budget(hw);
    }

    fn dim(hw: &HwState) -> (r: u32) {
        proof {
            <Xy as Projection<Thread, Block>>::lemma_in_range(*hw);
        }
        <X as Projection<Thread, Block>>::dim(hw) * <Y as Projection<Thread, Block>>::dim(hw)
    }

    fn idx(hw: &HwState) -> (r: u32) {
        proof {
            <Xy as Projection<Thread, Block>>::lemma_in_range(*hw);
        }
        <X as Projection<Thread, Block>>::idx(hw) + <X as Projection<Thread, Block>>::dim(hw) * <Y as Projection<Thread, Block>>::idx(hw)
    }
}

impl Projection<Thread, Block> for Xz {
    type Arch = Nvptx;

    open spec fn dim_spec(hw: HwState) -> int {
        <X as Projection<Thread, Block>>::dim_spec(hw) * <Z as Projection<Thread, Block>>::dim_spec(hw)
    }

    open spec fn idx_spec(hw: HwState) -> int {
        <X as Projection<Thread, Block>>::idx_spec(hw) + <X as Projection<Thread, Block>>::dim_spec(hw) * <Z as Projection<Thread, Block>>::idx_spec(hw)
    }

    proof fn lemma_in_range(hw: HwState) {
        <X as Projection<Thread, Block>>::lemma_in_range(hw);
        <Z as Projection<Thread, Block>>::lemma_in_range(hw);
        lemma_mixed_radix(
            <X as Projection<Thread, Block>>::dim_spec(hw),
            <X as Projection<Thread, Block>>::idx_spec(hw),
            <Z as Projection<Thread, Block>>::dim_spec(hw),
            <Z as Projection<Thread, Block>>::idx_spec(hw),
        );
        lemma_dim_budget(hw);
    }

    fn dim(hw: &HwState) -> (r: u32) {
        proof {
            <Xz as Projection<Thread, Block>>::lemma_in_range(*hw);
        }
        <X as Projection<Thread, Block>>::dim(hw) * <Z as Projection<Thread, Block>>::dim(hw)
    }

    fn idx(hw: &HwState) -> (r: u32) {
        proof {
            <Xz as Projection<Thread, Block>>::lemma_in_range(*hw);
        }
        <X as Projection<Thread, Block>>::idx(hw) + <X as Projection<Thread, Block>>::dim(hw) * <Z as Projection<Thread, Block>>::idx(hw)
    }
}

impl Projection<Thread, Block> for Yz {
    type Arch = Nvptx;

    open spec fn dim_spec(hw: HwState) -> int {
        <Y as Projection<Thread, Block>>::dim_spec(hw) * <Z as Projection<Thread, Block>>::dim_spec(hw)
    }

    open spec fn idx_spec(hw: HwState) -> int {
        <Y as Projection<Thread, Block>>::idx_spec(hw) + <Y as Projection<Thread, Block>>::dim_spec(hw) * <Z as Projection<Thread, Block>>::idx_spec(hw)
    }

    proof fn lemma_in_range(hw: HwState) {
        <Y as Projection<Thread, Block>>::lemma_in_range(hw);
        <Z as Projection<Thread, Block>>::lemma_in_range(hw);
        lemma_mixed_radix(
            <Y as Projection<Thread, Block>>::dim_spec(hw),
            <Y as Projection<Thread, Block>>::idx_spec(hw),
            <Z as Projection<Thread, Block>>::dim_spec(hw),
            <Z as Projection<Thread, Block>>::idx_spec(hw),
        );
        lemma_dim_budget(hw);
    }

    fn dim(hw: &HwState) -> (r: u32) {
        proof {
            <Yz as Projection<Thread, Block>>::lemma_in_range(*hw);
        }
        <Y as Projection<Thread, Block>>::dim(hw) * <Z as Projection<Thread, Block>>::dim(hw)
    }

    fn idx(hw: &HwState) -> (r: u32) {
        proof {
            <Yz as Projection<Thread, Block>>::lemma_in_range(*hw);
        }
        <Y as Projection<Thread, Block>>::idx(hw) + <Y as Projection<Thread, Block>>::dim(hw) * <Z as Projection<Thread, Block>>::idx(hw)
    }
}

impl Projection<Thread, Block> for Xyz {
    type Arch = Nvptx;

    open spec fn dim_spec(hw: HwState) -> int {
        <X as Projection<Thread, Block>>::dim_spec(hw) * <Yz as Projection<Thread, Block>>::dim_spec(hw)
    }

    open spec fn idx_spec(hw: HwState) -> int {
        <X as Projection<Thread, Block>>::idx_spec(hw) + <X as Projection<Thread, Block>>::dim_spec(hw) * <Yz as Projection<Thread, Block>>::idx_spec(hw)
    }

    proof fn lemma_in_range(hw: HwState) {
        <X as Projection<Thread, Block>>::lemma_in_range(hw);
        <Yz as Projection<Thread, Block>>::lemma_in_range(hw);
        lemma_mixed_radix(
            <X as Projection<Thread, Block>>::dim_spec(hw),
            <X as Projection<Thread, Block>>::idx_spec(hw),
            <Yz as Projection<Thread, Block>>::dim_spec(hw),
            <Yz as Projection<Thread, Block>>::idx_spec(hw),
        );
        lemma_dim_budget(hw);
    }

    fn dim(hw: &HwState) -> (r: u32) {
        proof {
            <Xyz as Projection<Thread, Block>>::lemma_in_range(*hw);
        }
        <X as Projection<Thread, Block>>::dim(hw) * <Yz as Projection<Thread, Block>>::dim(hw)
    }

    fn idx(hw: &HwState) -> (r: u32) {
        proof {
            <Xyz as Projection<Thread, Block>>::lemma_in_range(*hw);
        }
        <X as Projection<Thread, Block>>::idx(hw) + <X as Projection<Thread, Block>>::dim(hw) * <Yz as Projection<Thread, Block>>::idx(hw)
    }
}

impl Projection<Thread, Grid> for Xy {
    type Arch = Nvptx;

    open spec fn dim_spec(hw: HwState) -> int {
        <X as Projection<Thread, Grid>>::dim_spec(hw) * <Y as Projection<Thread, Grid>>::dim_spec(hw)
    }

    open spec fn idx_spec(hw: HwState) -> int {
        <X as Projection<Thread, Grid>>::idx_spec(hw) + <X as Projection<Thread, Grid>>::dim_spec(hw) * <Y as Projection<Thread, Grid>>::idx_spec(hw)
    }

    proof fn lemma_in_range(hw: HwState) {
        <X as Projection<Thread, Grid>>::lemma_in_range(hw);
        <Y as Projection<Thread, Grid>>::lemma_in_range(hw);
        lemma_mixed_radix(
            <X as Projection<Thread, Grid>>::dim_spec(hw),
            <X as Projection<Thread, Grid>>::idx_spec(hw),
            <Y as Projection<Thread, Grid>>::dim_spec(hw),
            <Y as Projection<Thread, Grid>>::idx_spec(hw),
        );
        lemma_dim_budget(hw);
    }

    fn dim(hw: &HwState) -> (r: u32) {
        proof {
            <Xy as Projection<Thread, Grid>>::lemma_in_range(*hw);
        }
        <X as Projection<Thread, Grid>>::dim(hw) * <Y as Projection<Thread, Grid>>::dim(hw)
    }

    fn idx(hw: &HwState) -> (r: u32) {
        proof {
            <Xy as Projection<Thread, Grid>>::lemma_in_range(*hw);
        }
        <X as Projection<Thread, Grid>>::idx(hw) + <X as Projection<Thread, Grid>>::dim(hw) * <Y as Projection<Thread, Grid>>::idx(hw)
    }
}

impl Projection<Thread, Grid> for Xz {
    type Arch = Nvptx;

    open spec fn dim_spec(hw: HwState) -> int {
        <X as Projection<Thread, Grid>>::dim_spec(hw) * <Z as Projection<Thread, Grid>>::dim_spec(hw)
    }

    open spec fn idx_spec(hw: HwState) -> int {
        <X as Projection<Thread, Grid>>::idx_spec(hw) + <X as Projection<Thread, Grid>>::dim_spec(hw) * <Z as Projection<Thread, Grid>>::idx_spec(hw)
    }

    proof fn lemma_in_range(hw: HwState) {
        <X as Projection<Thread, Grid>>::lemma_in_range(hw);
        <Z as Projection<Thread, Grid>>::lemma_in_range(hw);
        lemma_mixed_radix(
            <X as Projection<Thread, Grid>>::dim_spec(hw),
            <X as Projection<Thread, Grid>>::idx_spec(hw),
            <Z as Projection<Thread, Grid>>::dim_spec(hw),
            <Z as Projection<Thread, Grid>>::idx_spec(hw),
        );
        lemma_dim_budget(hw);
    }

    fn dim(hw: &HwState) -> (r: u32) {
        proof {
            <Xz as Projection<Thread, Grid>>::lemma_in_range(*hw);
        }
        <X as Projection<Thread, Grid>>::dim(hw) * <Z as Projection<Thread, Grid>>::dim(hw)
    }

    fn idx(hw: &HwState) -> (r: u32) {
        proof {
            <Xz as Projection<Thread, Grid>>::lemma_in_range(*hw);
        }
        <X as Projection<Thread, Grid>>::idx(hw) + <X as Projection<Thread, Grid>>::dim(hw) * <Z as Projection<Thread, Grid>>::idx(hw)
    }
}

impl Projection<Thread, Grid> for Yz {
    type Arch = Nvptx;

    open spec fn dim_spec(hw: HwState) -> int {
        <Y as Projection<Thread, Grid>>::dim_spec(hw) * <Z as Projection<Thread, Grid>>::dim_spec(hw)
    }

    open spec fn idx_spec(hw: HwState) -> int {
        <Y as Projection<Thread, Grid>>::idx_spec(hw) + <Y as Projection<Thread, Grid>>::dim_spec(hw) * <Z as Projection<Thread, Grid>>::idx_spec(hw)
    }

    proof fn lemma_in_range(hw: HwState) {
        <Y as Projection<Thread, Grid>>::lemma_in_range(hw);
        <Z as Projection<Thread, Grid>>::lemma_in_range(hw);
        lemma_mixed_radix(
            <Y as Projection<Thread, Grid>>::dim_spec(hw),
            <Y as Projection<Thread, Grid>>::idx_spec(hw),
            <Z as Projection<Thread, Grid>>::dim_spec(hw),
            <Z as Projection<Thread, Grid>>::idx_spec(hw),
        );
        lemma_dim_budget(hw);
    }

    fn dim(hw: &HwState) -> (r: u32) {
        proof {
            <Yz as Projection<Thread, Grid>>::lemma_in_range(*hw);
        }
        <Y as Projection<Thread, Grid>>::dim(hw) * <Z as Projection<Thread, Grid>>::dim(hw)
    }

    fn idx(hw: &HwState) -> (r: u32) {
        proof {
            <Yz as Projection<Thread, Grid>>::lemma_in_range(*hw);
        }
        <Y as Projection<Thread, Grid>>::idx(hw) + <Y as Projection<Thread, Grid>>::dim(hw) * <Z as Projection<Thread, Grid>>::idx(hw)
    }
}

impl Projection<Thread, Grid> for Xyz {
    type Arch = Nvptx;

    open spec fn dim_spec(hw: HwState) -> int {
        <X as Projection<Thread, Grid>>::dim_spec(hw) * <Yz as Projection<Thread, Grid>>::dim_spec(hw)
    }

    open spec fn idx_spec(hw: HwState) -> int {
        <X as Projection<Thread, Grid>>::idx_spec(hw) + <X as Projection<Thread, Grid>>::dim_spec(hw) * <Yz as Projection<Thread, Grid>>::idx_spec(hw)
    }

    proof fn lemma_in_range(hw: HwState) {
        <X as Projection<Thread, Grid>>::lemma_in_range(hw);
        <Yz as Projection<Thread, Grid>>::lemma_in_range(hw);
        lemma_mixed_radix(
            <X as Projection<Thread, Grid>>::dim_spec(hw),
            <X as Projection<Thread, Grid>>::idx_spec(hw),
            <Yz as Projection<Thread, Grid>>::dim_spec(hw),
            <Yz as Projection<Thread, Grid>>::idx_spec(hw),
        );
        lemma_dim_budget(hw);
    }

    fn dim(hw: &HwState) -> (r: u32) {
        proof {
            <Xyz as Projection<Thread, Grid>>::lemma_in_range(*hw);
        }
        <X as Projection<Thread, Grid>>::dim(hw) * <Yz as Projection<Thread, Grid>>::dim(hw)
    }

    fn idx(hw: &HwState) -> (r: u32) {
        proof {
            <Xyz as Projection<Thread, Grid>>::lemma_in_range(*hw);
        }
        <X as Projection<Thread, Grid>>::idx(hw) + <X as Projection<Thread, Grid>>::dim(hw) * <Yz as Projection<Thread, Grid>>::idx(hw)
    }
}

impl Projection<Block, Grid> for Xy {
    type Arch = Nvptx;

    open spec fn dim_spec(hw: HwState) -> int {
        <X as Projection<Block, Grid>>::dim_spec(hw) * <Y as Projection<Block, Grid>>::dim_spec(hw)
    }

    open spec fn idx_spec(hw: HwState) -> int {
        <X as Projection<Block, Grid>>::idx_spec(hw) + <X as Projection<Block, Grid>>::dim_spec(hw) * <Y as Projection<Block, Grid>>::idx_spec(hw)
    }

    proof fn lemma_in_range(hw: HwState) {
        <X as Projection<Block, Grid>>::lemma_in_range(hw);
        <Y as Projection<Block, Grid>>::lemma_in_range(hw);
        lemma_mixed_radix(
            <X as Projection<Block, Grid>>::dim_spec(hw),
            <X as Projection<Block, Grid>>::idx_spec(hw),
            <Y as Projection<Block, Grid>>::dim_spec(hw),
            <Y as Projection<Block, Grid>>::idx_spec(hw),
        );
        lemma_dim_budget(hw);
    }

    fn dim(hw: &HwState) -> (r: u32) {
        proof {
            <Xy as Projection<Block, Grid>>::lemma_in_range(*hw);
        }
        <X as Projection<Block, Grid>>::dim(hw) * <Y as Projection<Block, Grid>>::dim(hw)
    }

    fn idx(hw: &HwState) -> (r: u32) {
        proof {
            <Xy as Projection<Block, Grid>>::lemma_in_range(*hw);
        }
        <X as Projection<Block, Grid>>::idx(hw) + <X as Projection<Block, Grid>>::dim(hw) * <Y as Projection<Block, Grid>>::idx(hw)
    }
}

impl Projection<Block, Grid> for Xz {
    type Arch = Nvptx;

    open spec fn dim_spec(hw: HwState) -> int {
        <X as Projection<Block, Grid>>::dim_spec(hw) * <Z as Projection<Block, Grid>>::dim_spec(hw)
    }

    open spec fn idx_spec(hw: HwState) -> int {
        <X as Projection<Block, Grid>>::idx_spec(hw) + <X as Projection<Block, Grid>>::dim_spec(hw) * <Z as Projection<Block, Grid>>::idx_spec(hw)
    }

    proof fn lemma_in_range(hw: HwState) {
        <X as Projection<Block, Grid>>::lemma_in_range(hw);
        <Z as Projection<Block, Grid>>::lemma_in_range(hw);
        lemma_mixed_radix(
            <X as Projection<Block, Grid>>::dim_spec(hw),
            <X as Projection<Block, Grid>>::idx_spec(hw),
            <Z as Projection<Block, Grid>>::dim_spec(hw),
            <Z as Projection<Block, Grid>>::idx_spec(hw),
        );
        lemma_dim_budget(hw);
    }

    fn dim(hw: &HwState) -> (r: u32) {
        proof {
            <Xz as Projection<Block, Grid>>::lemma_in_range(*hw);
        }
        <X as Projection<Block, Grid>>::dim(hw) * <Z as Projection<Block, Grid>>::dim(hw)
    }

    fn idx(hw: &HwState) -> (r: u32) {
        proof {
            <Xz as Projection<Block, Grid>>::lemma_in_range(*hw);
        }
        <X as Projection<Block, Grid>>::idx(hw) + <X as Projection<Block, Grid>>::dim(hw) * <Z as Projection<Block, Grid>>::idx(hw)
    }
}

impl Projection<Block, Grid> for Yz {
    type Arch = Nvptx;

    open spec fn dim_spec(hw: HwState) -> int {
        <Y as Projection<Block, Grid>>::dim_spec(hw) * <Z as Projection<Block, Grid>>::dim_spec(hw)
    }

    open spec fn idx_spec(hw: HwState) -> int {
        <Y as Projection<Block, Grid>>::idx_spec(hw) + <Y as Projection<Block, Grid>>::dim_spec(hw) * <Z as Projection<Block, Grid>>::idx_spec(hw)
    }

    proof fn lemma_in_range(hw: HwState) {
        <Y as Projection<Block, Grid>>::lemma_in_range(hw);
        <Z as Projection<Block, Grid>>::lemma_in_range(hw);
        lemma_mixed_radix(
            <Y as Projection<Block, Grid>>::dim_spec(hw),
            <Y as Projection<Block, Grid>>::idx_spec(hw),
            <Z as Projection<Block, Grid>>::dim_spec(hw),
            <Z as Projection<Block, Grid>>::idx_spec(hw),
        );
        lemma_dim_budget(hw);
    }

    fn dim(hw: &HwState) -> (r: u32) {
        proof {
            <Yz as Projection<Block, Grid>>::lemma_in_range(*hw);
        }
        <Y as Projection<Block, Grid>>::dim(hw) * <Z as Projection<Block, Grid>>::dim(hw)
    }

    fn idx(hw: &HwState) -> (r: u32) {
        proof {
            <Yz as Projection<Block, Grid>>::lemma_in_range(*hw);
        }
        <Y as Projection<Block, Grid>>::idx(hw) + <Y as Projection<Block, Grid>>::dim(hw) * <Z as Projection<Block, Grid>>::idx(hw)
    }
}

impl Projection<Block, Grid> for Xyz {
    type Arch = Nvptx;

    open spec fn dim_spec(hw: HwState) -> int {
        <X as Projection<Block, Grid>>::dim_spec(hw) * <Yz as Projection<Block, Grid>>::dim_spec(hw)
    }

    open spec fn idx_spec(hw: HwState) -> int {
        <X as Projection<Block, Grid>>::idx_spec(hw) + <X as Projection<Block, Grid>>::dim_spec(hw) * <Yz as Projection<Block, Grid>>::idx_spec(hw)
    }

    proof fn lemma_in_range(hw: HwState) {
        <X as Projection<Block, Grid>>::lemma_in_range(hw);
        <Yz as Projection<Block, Grid>>::lemma_in_range(hw);
        lemma_mixed_radix(
            <X as Projection<Block, Grid>>::dim_spec(hw),
            <X as Projection<Block, Grid>>::idx_spec(hw),
            <Yz as Projection<Block, Grid>>::dim_spec(hw),
            <Yz as Projection<Block, Grid>>::idx_spec(hw),
        );
        lemma_dim_budget(hw);
    }

    fn dim(hw: &HwState) -> (r: u32) {
        proof {
            <Xyz as Projection<Block, Grid>>::lemma_in_range(*hw);
        }
        <X as Projection<Block, Grid>>::dim(hw) * <Yz as Projection<Block, Grid>>::dim(hw)
    }

    fn idx(hw: &HwState) -> (r: u32) {
        proof {
            <Xyz as Projection<Block, Grid>>::lemma_in_range(*hw);
        }
        <X as Projection<Block, Grid>>::idx(hw) + <X as Projection<Block, Grid>>::dim(hw) * <Yz as Projection<Block, Grid>>::idx(hw)
    }
}

// The partition table: every tuple of axis symbols that validly partitions a
// shape of the given arity over a scope pair of this architecture. Each
// entry carries its own proof that the spans it claims cover the hardware's
// axes exactly once.

impl<S: Scope, O: Scope> ProjectionSet<S, O> for (Xyz,) where
    Xyz: Projection<S, O>,
 {
    type Arch = <Xyz as Projection<S, O>>::Arch;

    open spec fn entry_spans() -> Seq<AxisSpan> {
        seq![<Xyz as AxisSymbol>::span()]
    }

    proof fn lemma_partitions() {
        lemma_partition1(
            <Xyz as AxisSymbol>::span(),
        );
    }
}

impl<S: Scope, O: Scope> ProjectionSet<S, O> for (Xyz, ()) where
    Xyz: Projection<S, O>,
    (): Projection<S, O>,
 {
    type Arch = <Xyz as Projection<S, O>>::Arch;

    open spec fn entry_spans() -> Seq<AxisSpan> {
        seq![<Xyz as AxisSymbol>::span(), <() as AxisSymbol>::span()]
    }

    proof fn lemma_partitions() {
        lemma_partition2(
            <Xyz as AxisSymbol>::span(),
            <() as AxisSymbol>::span(),
        );
    }
}

impl<S: Scope, O: Scope> ProjectionSet<S, O> for (Yz, X) where
    Yz: Projection<S, O>,
    X: Projection<S, O>,
 {
    type Arch = <Yz as Projection<S, O>>::Arch;

    open spec fn entry_spans() -> Seq<AxisSpan> {
        seq![<Yz as AxisSymbol>::span(), <X as AxisSymbol>::span()]
    }

    proof fn lemma_partitions() {
        lemma_partition2(
            <Yz as AxisSymbol>::span(),
            <X as AxisSymbol>::span(),
        );
    }
}

impl<S: Scope, O: Scope> ProjectionSet<S, O> for (Xz, Y) where
    Xz: Projection<S, O>,
    Y: Projection<S, O>,
 {
    type Arch = <Xz as Projection<S, O>>::Arch;

    open spec fn entry_spans() -> Seq<AxisSpan> {
        seq![<Xz as AxisSymbol>::span(), <Y as AxisSymbol>::span()]
    }

    proof fn lemma_partitions() {
        lemma_partition2(
            <Xz as AxisSymbol>::span(),
            <Y as AxisSymbol>::span(),
        );
    }
}

impl<S: Scope, O: Scope> ProjectionSet<S, O> for (Z, Xy) where
    Z: Projection<S, O>,
    Xy: Projection<S, O>,
 {
    type Arch = <Z as Projection<S, O>>::Arch;

    open spec fn entry_spans() -> Seq<AxisSpan> {
        seq![<Z as AxisSymbol>::span(), <Xy as AxisSymbol>::span()]
    }

    proof fn lemma_partitions() {
        lemma_partition2(
            <Z as AxisSymbol>::span(),
            <Xy as AxisSymbol>::span(),
        );
    }
}

impl<S: Scope, O: Scope> ProjectionSet<S, O> for (Xy, Z) where
    Xy: Projection<S, O>,
    Z: Projection<S, O>,
 {
    type Arch = <Xy as Projection<S, O>>::Arch;

    open spec fn entry_spans() -> Seq<AxisSpan> {
        seq![<Xy as AxisSymbol>::span(), <Z as AxisSymbol>::span()]
    }

    proof fn lemma_partitions() {
        lemma_partition2(
            <Xy as AxisSymbol>::span(),
            <Z as AxisSymbol>::span(),
        );
    }
}

impl<S: Scope, O: Scope> ProjectionSet<S, O> for (Y, Xz) where
    Y: Projection<S, O>,
    Xz: Projection<S, O>,
 {
    type Arch = <Y as Projection<S, O>>::Arch;

    open spec fn entry_spans() -> Seq<AxisSpan> {
        seq![<Y as AxisSymbol>::span(), <Xz as AxisSymbol>::span()]
    }

    proof fn lemma_partitions() {
        lemma_partition2(
            <Y as AxisSymbol>::span(),
            <Xz as AxisSymbol>::span(),
        );
    }
}

impl<S: Scope, O: Scope> ProjectionSet<S, O> for (X, Yz) where
    X: Projection<S, O>,
    Yz: Projection<S, O>,
 {
    type Arch = <X as Projection<S, O>>::Arch;

    open spec fn entry_spans() -> Seq<AxisSpan> {
        seq![<X as AxisSymbol>::span(), <Yz as AxisSymbol>::span()]
    }

    proof fn lemma_partitions() {
        lemma_partition2(
            <X as AxisSymbol>::span(),
            <Yz as AxisSymbol>::span(),
        );
    }
}

impl<S: Scope, O: Scope> ProjectionSet<S, O> for ((), Xyz) where
    (): Projection<S, O>,
    Xyz: Projection<S, O>,
 {
    type Arch = <() as Projection<S, O>>::Arch;

    open spec fn entry_spans() -> Seq<AxisSpan> {
        seq![<() as AxisSymbol>::span(), <Xyz as AxisSymbol>::span()]
    }

    proof fn lemma_partitions() {
        lemma_partition2(
            <() as AxisSymbol>::span(),
            <Xyz as AxisSymbol>::span(),
        );
    }
}

impl<S: Scope, O: Scope> ProjectionSet<S, O> for (Xyz, (), ()) where
    Xyz: Projection<S, O>,
    (): Projection<S, O>,
 {
    type Arch = <Xyz as Projection<S, O>>::Arch;

    open spec fn entry_spans() -> Seq<AxisSpan> {
        seq![<Xyz as AxisSymbol>::span(), <() as AxisSymbol>::span(), <() as AxisSymbol>::span()]
    }

    proof fn lemma_partitions() {
        lemma_partition3(
            <Xyz as AxisSymbol>::span(),
            <() as AxisSymbol>::span(),
            <() as AxisSymbol>::span(),
        );
    }
}

impl<S: Scope, O: Scope> ProjectionSet<S, O> for (Yz, X, ()) where
    Yz: Projection<S, O>,
    X: Projection<S, O>,
    (): Projection<S, O>,
 {
    type Arch = <Yz as Projection<S, O>>::Arch;

    open spec fn entry_spans() -> Seq<AxisSpan> {
        seq![<Yz as AxisSymbol>::span(), <X as AxisSymbol>::span(), <() as AxisSymbol>::span()]
    }

    proof fn lemma_partitions() {
        lemma_partition3(
            <Yz as AxisSymbol>::span(),
            <X as AxisSymbol>::span(),
            <() as AxisSymbol>::span(),
        );
    }
}

impl<S: Scope, O: Scope> ProjectionSet<S, O> for (Yz, (), X) where
    Yz: Projection<S, O>,
    (): Projection<S, O>,
    X: Projection<S, O>,
 {
    type Arch = <Yz as Projection<S, O>>::Arch;

    open spec fn entry_spans() -> Seq<AxisSpan> {
        seq![<Yz as AxisSymbol>::span(), <() as AxisSymbol>::span(), <X as AxisSymbol>::span()]
    }

    proof fn lemma_partitions() {
        lemma_partition3(
            <Yz as AxisSymbol>::span(),
            <() as AxisSymbol>::span(),
            <X as AxisSymbol>::span(),
        );
    }
}

impl<S: Scope, O: Scope> ProjectionSet<S, O> for (Xz, Y, ()) where
    Xz: Projection<S, O>,
    Y: Projection<S, O>,
    (): Projection<S, O>,
 {
    type Arch = <Xz as Projection<S, O>>::Arch;

    open spec fn entry_spans() -> Seq<AxisSpan> {
        seq![<Xz as AxisSymbol>::span(), <Y as AxisSymbol>::span(), <() as AxisSymbol>::span()]
    }

    proof fn lemma_partitions() {
        lemma_partition3(
            <Xz as AxisSymbol>::span(),
            <Y as AxisSymbol>::span(),
            <() as AxisSymbol>::span(),
        );
    }
}

impl<S: Scope, O: Scope> ProjectionSet<S, O> for (Z, Xy, ()) where
    Z: Projection<S, O>,
    Xy: Projection<S, O>,
    (): Projection<S, O>,
 {
    type Arch = <Z as Projection<S, O>>::Arch;

    open spec fn entry_spans() -> Seq<AxisSpan> {
        seq![<Z as AxisSymbol>::span(), <Xy as AxisSymbol>::span(), <() as AxisSymbol>::span()]
    }

    proof fn lemma_partitions() {
        lemma_partition3(
            <Z as AxisSymbol>::span(),
            <Xy as AxisSymbol>::span(),
            <() as AxisSymbol>::span(),
        );
    }
}

impl<S: Scope, O: Scope> ProjectionSet<S, O> for (Z, Y, X) where
    Z: Projection<S, O>,
    Y: Projection<S, O>,
    X: Projection<S, O>,
 {
    type Arch = <Z as Projection<S, O>>::Arch;

    open spec fn entry_spans() -> Seq<AxisSpan> {
        seq![<Z as AxisSymbol>::span(), <Y as AxisSymbol>::span(), <X as AxisSymbol>::span()]
    }

    proof fn lemma_partitions() {
        lemma_partition3(
            <Z as AxisSymbol>::span(),
            <Y as AxisSymbol>::span(),
            <X as AxisSymbol>::span(),
        );
    }
}

impl<S: Scope, O: Scope> ProjectionSet<S, O> for (Xz, (), Y) where
    Xz: Projection<S, O>,
    (): Projection<S, O>,
    Y: Projection<S, O>,
 {
    type Arch = <Xz as Projection<S, O>>::Arch;

    open spec fn entry_spans() -> Seq<AxisSpan> {
        seq![<Xz as AxisSymbol>::span(), <() as AxisSymbol>::span(), <Y as AxisSymbol>::span()]
    }

    proof fn lemma_partitions() {
        lemma_partition3(
            <Xz as AxisSymbol>::span(),
            <() as AxisSymbol>::span(),
            <Y as AxisSymbol>::span(),
        );
    }
}

impl<S: Scope, O: Scope> ProjectionSet<S, O> for (Z, X, Y) where
    Z: Projection<S, O>,
    X: Projection<S, O>,
    Y: Projection<S, O>,
 {
    type Arch = <Z as Projection<S, O>>::Arch;

    open spec fn entry_spans() -> Seq<AxisSpan> {
        seq![<Z as AxisSymbol>::span(), <X as AxisSymbol>::span(), <Y as AxisSymbol>::span()]
    }

    proof fn lemma_partitions() {
        lemma_partition3(
            <Z as AxisSymbol>::span(),
            <X as AxisSymbol>::span(),
            <Y as AxisSymbol>::span(),
        );
    }
}

impl<S: Scope, O: Scope> ProjectionSet<S, O> for (Z, (), Xy) where
    Z: Projection<S, O>,
    (): Projection<S, O>,
    Xy: Projection<S, O>,
 {
    type Arch = <Z as Projection<S, O>>::Arch;

    open spec fn entry_spans() -> Seq<AxisSpan> {
        seq![<Z as AxisSymbol>::span(), <() as AxisSymbol>::span(), <Xy as AxisSymbol>::span()]
    }

    proof fn lemma_partitions() {
        lemma_partition3(
            <Z as AxisSymbol>::span(),
            <() as AxisSymbol>::span(),
            <Xy as AxisSymbol>::span(),
        );
    }
}

impl<S: Scope, O: Scope> ProjectionSet<S, O> for (Xy, Z, ()) where
    Xy: Projection<S, O>,
    Z: Projection<S, O>,
    (): Projection<S, O>,
 {
    type Arch = <Xy as Projection<S, O>>::Arch;

    open spec fn entry_spans() -> Seq<AxisSpan> {
        seq![<Xy as AxisSymbol>::span(), <Z as AxisSymbol>::span(), <() as AxisSymbol>::span()]
    }

    proof fn lemma_partitions() {
        lemma_partition3(
            <Xy as AxisSymbol>::span(),
            <Z as AxisSymbol>::span(),
            <() as AxisSymbol>::span(),
        );
    }
}

impl<S: Scope, O: Scope> ProjectionSet<S, O> for (Y, Xz, ()) where
    Y: Projection<S, O>,
    Xz: Projection<S, O>,
    (): Projection<S, O>,
 {
    type Arch = <Y as Projection<S, O>>::Arch;

    open spec fn entry_spans() -> Seq<AxisSpan> {
        seq![<Y as AxisSymbol>::span(), <Xz as AxisSymbol>::span(), <() as AxisSymbol>::span()]
    }

    proof fn lemma_partitions() {
        lemma_partition3(
            <Y as AxisSymbol>::span(),
            <Xz as AxisSymbol>::span(),
            <() as AxisSymbol>::span(),
        );
    }
}

impl<S: Scope, O: Scope> ProjectionSet<S, O> for (Y, Z, X) where
    Y: Projection<S, O>,
    Z: Projection<S, O>,
    X: Projection<S, O>,
 {
    type Arch = <Y as Projection<S, O>>::Arch;

    open spec fn entry_spans() -> Seq<AxisSpan> {
        seq![<Y as AxisSymbol>::span(), <Z as AxisSymbol>::span(), <X as AxisSymbol>::span()]
    }

    proof fn lemma_partitions() {
        lemma_partition3(
            <Y as AxisSymbol>::span(),
            <Z as AxisSymbol>::span(),
            <X as AxisSymbol>::span(),
        );
    }
}

impl<S: Scope, O: Scope> ProjectionSet<S, O> for (X, Yz, ()) where
    X: Projection<S, O>,
    Yz: Projection<S, O>,
    (): Projection<S, O>,
 {
    type Arch = <X as Projection<S, O>>::Arch;

    open spec fn entry_spans() -> Seq<AxisSpan> {
        seq![<X as AxisSymbol>::span(), <Yz as AxisSymbol>::span(), <() as AxisSymbol>::span()]
    }

    proof fn lemma_partitions() {
        lemma_partition3(
            <X as AxisSymbol>::span(),
            <Yz as AxisSymbol>::span(),
            <() as AxisSymbol>::span(),
        );
    }
}

impl<S: Scope, O: Scope> ProjectionSet<S, O> for ((), Xyz, ()) where
    (): Projection<S, O>,
    Xyz: Projection<S, O>,
 {
    type Arch = <() as Projection<S, O>>::Arch;

    open spec fn entry_spans() -> Seq<AxisSpan> {
        seq![<() as AxisSymbol>::span(), <Xyz as AxisSymbol>::span(), <() as AxisSymbol>::span()]
    }

    proof fn lemma_partitions() {
        lemma_partition3(
            <() as AxisSymbol>::span(),
            <Xyz as AxisSymbol>::span(),
            <() as AxisSymbol>::span(),
        );
    }
}

impl<S: Scope, O: Scope> ProjectionSet<S, O> for ((), Yz, X) where
    (): Projection<S, O>,
    Yz: Projection<S, O>,
    X: Projection<S, O>,
 {
    type Arch = <() as Projection<S, O>>::Arch;

    open spec fn entry_spans() -> Seq<AxisSpan> {
        seq![<() as AxisSymbol>::span(), <Yz as AxisSymbol>::span(), <X as AxisSymbol>::span()]
    }

    proof fn lemma_partitions() {
        lemma_partition3(
            <() as AxisSymbol>::span(),
            <Yz as AxisSymbol>::span(),
            <X as AxisSymbol>::span(),
        );
    }
}

impl<S: Scope, O: Scope> ProjectionSet<S, O> for (X, Z, Y) where
    X: Projection<S, O>,
    Z: Projection<S, O>,
    Y: Projection<S, O>,
 {
    type Arch = <X as Projection<S, O>>::Arch;

    open spec fn entry_spans() -> Seq<AxisSpan> {
        seq![<X as AxisSymbol>::span(), <Z as AxisSymbol>::span(), <Y as AxisSymbol>::span()]
    }

    proof fn lemma_partitions() {
        lemma_partition3(
            <X as AxisSymbol>::span(),
            <Z as AxisSymbol>::span(),
            <Y as AxisSymbol>::span(),
        );
    }
}

impl<S: Scope, O: Scope> ProjectionSet<S, O> for ((), Xz, Y) where
    (): Projection<S, O>,
    Xz: Projection<S, O>,
    Y: Projection<S, O>,
 {
    type Arch = <() as Projection<S, O>>::Arch;

    open spec fn entry_spans() -> Seq<AxisSpan> {
        seq![<() as AxisSymbol>::span(), <Xz as AxisSymbol>::span(), <Y as AxisSymbol>::span()]
    }

    proof fn lemma_partitions() {
        lemma_partition3(
            <() as AxisSymbol>::span(),
            <Xz as AxisSymbol>::span(),
            <Y as AxisSymbol>::span(),
        );
    }
}

impl<S: Scope, O: Scope> ProjectionSet<S, O> for ((), Z, Xy) where
    (): Projection<S, O>,
    Z: Projection<S, O>,
    Xy: Projection<S, O>,
 {
    type Arch = <() as Projection<S, O>>::Arch;

    open spec fn entry_spans() -> Seq<AxisSpan> {
        seq![<() as AxisSymbol>::span(), <Z as AxisSymbol>::span(), <Xy as AxisSymbol>::span()]
    }

    proof fn lemma_partitions() {
        lemma_partition3(
            <() as AxisSymbol>::span(),
            <Z as AxisSymbol>::span(),
            <Xy as AxisSymbol>::span(),
        );
    }
}

impl<S: Scope, O: Scope> ProjectionSet<S, O> for (Xy, (), Z) where
    Xy: Projection<S, O>,
    (): Projection<S, O>,
    Z: Projection<S, O>,
 {
    type Arch = <Xy as Projection<S, O>>::Arch;

    open spec fn entry_spans() -> Seq<AxisSpan> {
        seq![<Xy as AxisSymbol>::span(), <() as AxisSymbol>::span(), <Z as AxisSymbol>::span()]
    }

    proof fn lemma_partitions() {
        lemma_partition3(
            <Xy as AxisSymbol>::span(),
            <() as AxisSymbol>::span(),
            <Z as AxisSymbol>::span(),
        );
    }
}

impl<S: Scope, O: Scope> ProjectionSet<S, O> for (Y, X, Z) where
    Y: Projection<S, O>,
    X: Projection<S, O>,
    Z: Projection<S, O>,
 {
    type Arch = <Y as Projection<S, O>>::Arch;

    open spec fn entry_spans() -> Seq<AxisSpan> {
        seq![<Y as AxisSymbol>::span(), <X as AxisSymbol>::span(), <Z as AxisSymbol>::span()]
    }

    proof fn lemma_partitions() {
        lemma_partition3(
            <Y as AxisSymbol>::span(),
            <X as AxisSymbol>::span(),
            <Z as AxisSymbol>::span(),
        );
    }
}

impl<S: Scope, O: Scope> ProjectionSet<S, O> for (Y, (), Xz) where
    Y: Projection<S, O>,
    (): Projection<S, O>,
    Xz: Projection<S, O>,
 {
    type Arch = <Y as Projection<S, O>>::Arch;

    open spec fn entry_spans() -> Seq<AxisSpan> {
        seq![<Y as AxisSymbol>::span(), <() as AxisSymbol>::span(), <Xz as AxisSymbol>::span()]
    }

    proof fn lemma_partitions() {
        lemma_partition3(
            <Y as AxisSymbol>::span(),
            <() as AxisSymbol>::span(),
            <Xz as AxisSymbol>::span(),
        );
    }
}

impl<S: Scope, O: Scope> ProjectionSet<S, O> for (X, Y, Z) where
    X: Projection<S, O>,
    Y: Projection<S, O>,
    Z: Projection<S, O>,
 {
    type Arch = <X as Projection<S, O>>::Arch;

    open spec fn entry_spans() -> Seq<AxisSpan> {
        seq![<X as AxisSymbol>::span(), <Y as AxisSymbol>::span(), <Z as AxisSymbol>::span()]
    }

    proof fn lemma_partitions() {
        lemma_partition3(
            <X as AxisSymbol>::span(),
            <Y as AxisSymbol>::span(),
            <Z as AxisSymbol>::span(),
        );
    }
}

impl<S: Scope, O: Scope> ProjectionSet<S, O> for ((), Xy, Z) where
    (): Projection<S, O>,
    Xy: Projection<S, O>,
    Z: Projection<S, O>,
 {
    type Arch = <() as Projection<S, O>>::Arch;

    open spec fn entry_spans() -> Seq<AxisSpan> {
        seq![<() as AxisSymbol>::span(), <Xy as AxisSymbol>::span(), <Z as AxisSymbol>::span()]
    }

    proof fn lemma_partitions() {
        lemma_partition3(
            <() as AxisSymbol>::span(),
            <Xy as AxisSymbol>::span(),
            <Z as AxisSymbol>::span(),
        );
    }
}

impl<S: Scope, O: Scope> ProjectionSet<S, O> for ((), Y, Xz) where
    (): Projection<S, O>,
    Y: Projection<S, O>,
    Xz: Projection<S, O>,
 {
    type Arch = <() as Projection<S, O>>::Arch;

    open spec fn entry_spans() -> Seq<AxisSpan> {
        seq![<() as AxisSymbol>::span(), <Y as AxisSymbol>::span(), <Xz as AxisSymbol>::span()]
    }

    proof fn lemma_partitions() {
        lemma_partition3(
            <() as AxisSymbol>::span(),
            <Y as AxisSymbol>::span(),
            <Xz as AxisSymbol>::span(),
        );
    }
}

impl<S: Scope, O: Scope> ProjectionSet<S, O> for (X, (), Yz) where
    X: Projection<S, O>,
    (): Projection<S, O>,
    Yz: Projection<S, O>,
 {
    type Arch = <X as Projection<S, O>>::Arch;

    open spec fn entry_spans() -> Seq<AxisSpan> {
        seq![<X as AxisSymbol>::span(), <() as AxisSymbol>::span(), <Yz as AxisSymbol>::span()]
    }

    proof fn lemma_partitions() {
        lemma_partition3(
            <X as AxisSymbol>::span(),
            <() as AxisSymbol>::span(),
            <Yz as AxisSymbol>::span(),
        );
    }
}

impl<S: Scope, O: Scope> ProjectionSet<S, O> for ((), X, Yz) where
    (): Projection<S, O>,
    X: Projection<S, O>,
    Yz: Projection<S, O>,
 {
    type Arch = <() as Projection<S, O>>::Arch;

    open spec fn entry_spans() -> Seq<AxisSpan> {
        seq![<() as AxisSymbol>::span(), <X as AxisSymbol>::span(), <Yz as AxisSymbol>::span()]
    }

    proof fn lemma_partitions() {
        lemma_partition3(
            <() as AxisSymbol>::span(),
            <X as AxisSymbol>::span(),
            <Yz as AxisSymbol>::span(),
        );
    }
}

impl<S: Scope, O: Scope> ProjectionSet<S, O> for ((), (), Xyz) where
    (): Projection<S, O>,
    Xyz: Projection<S, O>,
 {
    type Arch = <() as Projection<S, O>>::Arch;

    open spec fn entry_spans() -> Seq<AxisSpan> {
        seq![<() as AxisSymbol>::span(), <() as AxisSymbol>::span(), <Xyz as AxisSymbol>::span()]
    }

    proof fn lemma_partitions() {
        lemma_partition3(
            <() as AxisSymbol>::span(),
            <() as AxisSymbol>::span(),
            <Xyz as AxisSymbol>::span(),
        );
    }
}

} // verus!
