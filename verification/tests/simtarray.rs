use simtarray::nvptx::{Block, Grid, Thread, X, Xy, Xyz, Y, Yz, Z};
use simtarray::{
    mul_capped, AsUsize, BarrierTally, FinallySplit, HwState, Init, Projection,
    ProjectionSetDim0, SimtArray, SimtArrayMutRef, StridedMap, Uninit,
};

fn hw_block_of_4(unit: u32) -> HwState {
    HwState {
        grid_dim_x: 1,
        grid_dim_y: 1,
        grid_dim_z: 1,
        block_dim_x: 4,
        block_dim_y: 1,
        block_dim_z: 1,
        block_idx_x: 0,
        block_idx_y: 0,
        block_idx_z: 0,
        thread_idx_x: unit,
        thread_idx_y: 0,
        thread_idx_z: 0,
    }
}

#[test]
fn init_with_four_units_squares() {
    let mut arena: Vec<u64> = vec![999; 8];
    let mut tally = BarrierTally::new();
    for unit in 0..4u32 {
        let handle: SimtArray<u64, Block, Uninit> =
            SimtArray::new_unchecked(StridedMap::dense(8));
        let hw = hw_block_of_4(unit);
        let done: SimtArray<u64, Block, Init> = handle.init_with::<Thread, (Xyz,), _>(
            &mut arena,
            &hw,
            &mut tally,
            |i: usize| (i * i) as u64,
        );
        let full = done.expr();
        assert_eq!(full.start, 0);
        assert_eq!(full.stride, 1);
        assert_eq!(full.count, 8);
    }
    assert_eq!(arena, vec![0, 1, 4, 9, 16, 25, 36, 49]);
    assert_eq!(tally.count, 4);
}

#[test]
fn write_once_round_trip_owned_sub_range() {
    let mut arena: Vec<u64> = vec![0; 8];
    let handle: SimtArray<u64, Block, Uninit> = SimtArray::new_unchecked(StridedMap::dense(8));
    let hw = hw_block_of_4(1);
    let sub: SimtArray<u64, Block, FinallySplit> = handle
        .write_once::<Thread, (Xyz,), _>(&mut arena, &hw, |i: usize| 100 + i as u64)
        .expect("a unit inside the extent owns a sub-range");
    let map = sub.expr();
    // the offsets predicted by idx0/dim0: start 1, every 4th element, 2 owned
    assert_eq!(map.start, 1);
    assert_eq!(map.stride, 4);
    assert_eq!(map.count, 2);
    assert_eq!(map.space, 8);
    // reading back only the owned sub-range returns the writer's values
    assert_eq!(*map.read(&arena, 0), 101);
    assert_eq!(*map.read(&arena, 1), 105);
    // elements this unit does not own were not touched
    assert_eq!(arena, vec![0, 101, 0, 0, 0, 105, 0, 0]);
}

#[test]
fn write_once_offset_beyond_extent_is_no_work() {
    // 8 units, but the array has only 2 elements: units with offset > 2 get
    // the empty-result marker and write nothing
    let mut arena: Vec<u64> = vec![7; 2];
    let mut hw = hw_block_of_4(5);
    hw.block_dim_x = 8;
    let handle: SimtArray<u64, Block, Uninit> = SimtArray::new_unchecked(StridedMap::dense(2));
    let r = handle.write_once::<Thread, (Xyz,), _>(&mut arena, &hw, |i: usize| i as u64);
    assert!(r.is_none());
    assert_eq!(arena, vec![7, 7]);
}

#[test]
fn view_offset_beyond_extent_is_no_view() {
    let mut hw = hw_block_of_4(5);
    hw.block_dim_x = 8;
    let handle: SimtArray<u64, Block, Init> = SimtArray::new_unchecked(StridedMap::dense(2));
    assert!(handle.view::<Thread, (Xyz,)>(&hw).is_none());
}

#[test]
fn view_mut_offset_beyond_extent_is_no_view() {
    let mut hw = hw_block_of_4(5);
    hw.block_dim_x = 8;
    let mut tally = BarrierTally::new();
    let mut handle: SimtArray<u64, Block, Init> =
        SimtArray::new_unchecked(StridedMap::dense(2));
    let mut sub: SimtArrayMutRef<u64, Block> = handle.view_mut::<Thread, (Xyz,)>(&hw);
    assert!(sub.expr_mut().is_none());
    // the excluded unit still crosses the barrier: control flow is uniform
    sub.release(&mut tally);
    assert_eq!(tally.count, 1);
}

#[test]
fn view_matches_partition() {
    let handle: SimtArray<u64, Block, Init> = SimtArray::new_unchecked(StridedMap::dense(8));
    let hw = hw_block_of_4(2);
    let v = handle.view::<Thread, (Xyz,)>(&hw).expect("offset 2 lies inside extent 8");
    assert_eq!(v.start, 2);
    assert_eq!(v.stride, 4);
    assert_eq!(v.count, 2);
}

#[test]
fn view_with_limited_quantity_caps_stride_and_excludes_units() {
    let handle: SimtArray<u64, Block, Init> = SimtArray::new_unchecked(StridedMap::dense(8));
    // a partition of 4 units, capped to quantity 2
    for unit in 0..2u32 {
        let hw = hw_block_of_4(unit);
        let v = handle
            .view_with_limited_quantity::<Thread, (Xyz,)>(&hw, 2)
            .expect("units below the quantity receive a view");
        // the stride is the clamped quantity, not the full unit count
        assert_eq!(v.stride, 2);
        assert_eq!(v.start, unit as usize);
        assert_eq!(v.count, 4);
    }
    for unit in 2..4u32 {
        let hw = hw_block_of_4(unit);
        assert!(handle.view_with_limited_quantity::<Thread, (Xyz,)>(&hw, 2).is_none());
    }
}

#[test]
fn view_mut_with_limited_quantity_follows_the_cap() {
    let mut tally = BarrierTally::new();
    let mut handle: SimtArray<u64, Block, Init> =
        SimtArray::new_unchecked(StridedMap::dense(8));
    let hw_in = hw_block_of_4(1);
    let mut sub = handle.view_mut_with_limited_quantity::<Thread, (Xyz,)>(&hw_in, 2);
    let m = sub.expr_mut().expect("unit 1 lies below the quantity");
    assert_eq!(m.start, 1);
    assert_eq!(m.stride, 2);
    sub.release(&mut tally);
    let hw_out = hw_block_of_4(3);
    let mut excluded = handle.view_mut_with_limited_quantity::<Thread, (Xyz,)>(&hw_out, 2);
    assert!(excluded.expr_mut().is_none());
    excluded.release(&mut tally);
    assert_eq!(tally.count, 2);
}

fn write_through_view_mut(early: bool, tally: &mut BarrierTally) -> Vec<u64> {
    let mut arena: Vec<u64> = vec![0; 8];
    let mut handle: SimtArray<u64, Block, Init> =
        SimtArray::new_unchecked(StridedMap::dense(8));
    let hw = hw_block_of_4(0);
    let mut sub = handle.view_mut::<Thread, (Xyz,)>(&hw);
    if early {
        // early exit path: the sub-view is still released exactly once
        sub.release(tally);
        return arena;
    }
    let m = sub.expr_mut().expect("unit 0 owns a sub-range");
    m.write(&mut arena, 0, 11);
    m.write(&mut arena, 1, 22);
    sub.release(tally);
    arena
}

#[test]
fn release_crosses_barrier_exactly_once_on_every_exit_path() {
    let mut tally = BarrierTally::new();
    let arena = write_through_view_mut(false, &mut tally);
    assert_eq!(tally.count, 1);
    assert_eq!(arena, vec![11, 0, 0, 0, 22, 0, 0, 0]);
    let mut tally2 = BarrierTally::new();
    let arena2 = write_through_view_mut(true, &mut tally2);
    assert_eq!(tally2.count, 1);
    assert_eq!(arena2, vec![0; 8]);
}

#[test]
fn rewrite_from_init_is_permitted() {
    // re-initialization: write_once may start again from the Init state
    let mut arena: Vec<u64> = vec![0; 4];
    let mut tally = BarrierTally::new();
    for unit in 0..4u32 {
        let handle: SimtArray<u64, Block, Uninit> =
            SimtArray::new_unchecked(StridedMap::dense(4));
        let hw = hw_block_of_4(unit);
        handle.init_with::<Thread, (Xyz,), _>(&mut arena, &hw, &mut tally, |i: usize| i as u64);
    }
    assert_eq!(arena, vec![0, 1, 2, 3]);
    let again: SimtArray<u64, Block, Init> = SimtArray::new_unchecked(StridedMap::dense(4));
    let hw = hw_block_of_4(2);
    let sub = again
        .write_once::<Thread, (Xyz,), _>(&mut arena, &hw, |i: usize| 50 + i as u64)
        .expect("offset 2 lies inside extent 4");
    assert_eq!(arena, vec![0, 1, 52, 3]);
    assert_eq!(*sub.expr().read(&arena, 0), 52);
}

#[test]
fn projection_extent_and_offset_thread_in_block() {
    let hw = HwState {
        grid_dim_x: 5,
        grid_dim_y: 1,
        grid_dim_z: 1,
        block_dim_x: 4,
        block_dim_y: 3,
        block_dim_z: 2,
        block_idx_x: 3,
        block_idx_y: 0,
        block_idx_z: 0,
        thread_idx_x: 1,
        thread_idx_y: 2,
        thread_idx_z: 1,
    };
    assert_eq!(<X as Projection<Thread, Block>>::dim(&hw), 4);
    assert_eq!(<X as Projection<Thread, Block>>::idx(&hw), 1);
    assert_eq!(<Y as Projection<Thread, Block>>::dim(&hw), 3);
    assert_eq!(<Y as Projection<Thread, Block>>::idx(&hw), 2);
    assert_eq!(<Z as Projection<Thread, Block>>::dim(&hw), 2);
    assert_eq!(<Z as Projection<Thread, Block>>::idx(&hw), 1);
    // mixed radix, head fastest-varying: extents multiply, offsets linearize
    assert_eq!(<Xy as Projection<Thread, Block>>::dim(&hw), 12);
    assert_eq!(<Xy as Projection<Thread, Block>>::idx(&hw), 1 + 4 * 2);
    assert_eq!(<Yz as Projection<Thread, Block>>::dim(&hw), 6);
    assert_eq!(<Yz as Projection<Thread, Block>>::idx(&hw), 2 + 3 * 1);
    assert_eq!(<Xyz as Projection<Thread, Block>>::dim(&hw), 24);
    assert_eq!(<Xyz as Projection<Thread, Block>>::idx(&hw), 1 + 4 * (2 + 3 * 1));
    // offset always lies below extent on well-formed state
    assert!(
        <Xyz as Projection<Thread, Block>>::idx(&hw) < <Xyz as Projection<Thread, Block>>::dim(&hw)
    );
}

#[test]
fn projection_extent_and_offset_thread_in_grid_and_block_in_grid() {
    let hw = HwState {
        grid_dim_x: 5,
        grid_dim_y: 2,
        grid_dim_z: 1,
        block_dim_x: 4,
        block_dim_y: 1,
        block_dim_z: 1,
        block_idx_x: 3,
        block_idx_y: 1,
        block_idx_z: 0,
        thread_idx_x: 2,
        thread_idx_y: 0,
        thread_idx_z: 0,
    };
    // thread within grid: blocks of threads linearized, thread fastest
    assert_eq!(<X as Projection<Thread, Grid>>::dim(&hw), 4 * 5);
    assert_eq!(<X as Projection<Thread, Grid>>::idx(&hw), 4 * 3 + 2);
    assert_eq!(<Y as Projection<Thread, Grid>>::dim(&hw), 2);
    assert_eq!(<Y as Projection<Thread, Grid>>::idx(&hw), 1);
    // block within grid: the hardware's block coordinates directly
    assert_eq!(<X as Projection<Block, Grid>>::dim(&hw), 5);
    assert_eq!(<X as Projection<Block, Grid>>::idx(&hw), 3);
    assert_eq!(<Xy as Projection<Block, Grid>>::dim(&hw), 10);
    assert_eq!(<Xy as Projection<Block, Grid>>::idx(&hw), 3 + 5 * 1);
}

#[test]
fn degenerate_axis_is_the_identity() {
    let hw = hw_block_of_4(3);
    assert_eq!(<() as Projection<Thread, Block>>::dim(&hw), 1);
    assert_eq!(<() as Projection<Thread, Block>>::idx(&hw), 0);
}

#[test]
fn dim0_and_idx0_come_from_the_leading_entry() {
    let hw = hw_block_of_4(3);
    assert_eq!(<(Xyz,) as ProjectionSetDim0<Thread, Block>>::dim0(&hw), 4);
    assert_eq!(<(Xyz,) as ProjectionSetDim0<Thread, Block>>::idx0(&hw), 3);
}

#[test]
fn strided_map_addresses_every_dth_element() {
    let map = StridedMap { start: 2, stride: 3, count: 3, space: 9 };
    let mut arena: Vec<u32> = vec![0; 9];
    map.write(&mut arena, 0, 10);
    map.write(&mut arena, 1, 20);
    map.write(&mut arena, 2, 30);
    assert_eq!(arena, vec![0, 0, 10, 0, 0, 20, 0, 0, 30]);
    assert_eq!(*map.read(&arena, 1), 20);
    assert_eq!(map.position(2), 8);
}

#[test]
fn width_conversions_are_lossless() {
    let a: u32 = 70000;
    assert_eq!(AsUsize::as_(a), 70000usize);
    let b: u8 = 255;
    assert_eq!(AsUsize::as_(b), 255usize);
    let c: usize = 12;
    assert_eq!(AsUsize::as_(c), 12usize);
}

#[test]
fn capped_multiplication_saturates() {
    assert_eq!(mul_capped(3, 4), 12);
    assert_eq!(mul_capped(usize::MAX, 2), usize::MAX);
    assert_eq!(mul_capped(usize::MAX, 1), usize::MAX);
    assert_eq!(mul_capped(7, 0), 0);
}

#[test]
fn write_once_across_grid_scope_linearizes_blocks_of_threads() {
    // 2 blocks of 2 threads: 4 units across the grid, thread fastest-varying
    let mut arena: Vec<u64> = vec![0; 8];
    for block in 0..2u32 {
        for thread in 0..2u32 {
            let hw = HwState {
                grid_dim_x: 2,
                grid_dim_y: 1,
                grid_dim_z: 1,
                block_dim_x: 2,
                block_dim_y: 1,
                block_dim_z: 1,
                block_idx_x: block,
                block_idx_y: 0,
                block_idx_z: 0,
                thread_idx_x: thread,
                thread_idx_y: 0,
                thread_idx_z: 0,
            };
            let handle: SimtArray<u64, Grid, Uninit> =
                SimtArray::new_unchecked(StridedMap::dense(8));
            let sub = handle
                .write_once::<Thread, (Xyz,), _>(&mut arena, &hw, |i: usize| 10 * i as u64)
                .expect("all four units lie inside extent 8");
            assert_eq!(sub.expr().start, (2 * block + thread) as usize);
            assert_eq!(sub.expr().stride, 4);
        }
    }
    assert_eq!(arena, vec![0, 10, 20, 30, 40, 50, 60, 70]);
}

#[test]
fn view_of_blocks_within_the_grid() {
    // a grid-scoped array partitioned among blocks rather than threads
    let handle: SimtArray<u64, Grid, Init> = SimtArray::new_unchecked(StridedMap::dense(6));
    let hw = HwState {
        grid_dim_x: 3,
        grid_dim_y: 1,
        grid_dim_z: 1,
        block_dim_x: 4,
        block_dim_y: 1,
        block_dim_z: 1,
        block_idx_x: 2,
        block_idx_y: 0,
        block_idx_z: 0,
        thread_idx_x: 0,
        thread_idx_y: 0,
        thread_idx_z: 0,
    };
    let v = handle.view::<Block, (Xyz,)>(&hw).expect("block 2 lies inside extent 6");
    assert_eq!(v.start, 2);
    assert_eq!(v.stride, 3);
    assert_eq!(v.count, 2);
}

#[test]
fn barrier_tally_starts_at_zero() {
    let tally = BarrierTally::new();
    assert_eq!(tally.count, 0);
}
