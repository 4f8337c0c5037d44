use vstd::prelude::*;

verus! {

use vstd::arithmetic::div_mod::{
    lemma_fundamental_div_mod,
    lemma_div_is_ordered,
    lemma_div_pos_is_pos,
    lemma_div_nonincreasing,
    lemma_mod_multiples_basic,
    lemma_mod_division_less_than_divisor,
};
use vstd::arithmetic::mul::{
    lemma_mul_inequality,
    lemma_mul_strict_inequality,
    lemma_mul_is_distributive_add,
    lemma_mul_is_distributive_add_other_way,
    lemma_mul_is_associative,
    lemma_mul_is_commutative,
};

/// How many indices j with start <= j < extent lie on the stride grid
/// anchored at start: j = start, start + stride, start + 2*stride, ...
pub open spec fn strided_count(start: int, stride: int, extent: int) -> int {
    if start >= extent {
        0
    } else {
        (extent - 1 - start) / stride + 1
    }
}

/// Whether index j lies on the stride grid anchored at start.
pub open spec fn on_stride(start: int, stride: int, j: int) -> bool {
    start <= j && (j - start) % stride == 0
}

/// The product a * b, clamped to usize::MAX.
pub open spec fn cap_usize(v: int) -> int {
    if v > usize::MAX {
        usize::MAX as int
    } else {
        v
    }
}

/// Multiplies without overflow, clamping to usize::MAX.
pub fn mul_capped(a: usize, b: usize) -> (r: usize)
    ensures
        r == cap_usize(a as int * b as int),
{
    if b == 0 {
        0
    } else if a > usize::MAX / b {
        proof {
            lemma_fundamental_div_mod(usize::MAX as int, b as int);
            lemma_mod_division_less_than_divisor(usize::MAX as int, b as int);
            lemma_mul_inequality(usize::MAX as int / b as int + 1, a as int, b as int);
            lemma_mul_is_distributive_add_other_way(b as int, usize::MAX as int / b as int, 1);
            lemma_mul_is_commutative(usize::MAX as int / b as int, b as int);
        }
        usize::MAX
    } else {
        proof {
            lemma_fundamental_div_mod(usize::MAX as int, b as int);
            lemma_mod_division_less_than_divisor(usize::MAX as int, b as int);
            lemma_mul_inequality(a as int, usize::MAX as int / b as int, b as int);
            lemma_mul_is_commutative(usize::MAX as int / b as int, b as int);
        }
        a * b
    }
}

/// The grid anchored at start holds at most extent indices below extent.
pub proof fn lemma_strided_count_bounds(start: int, stride: int, extent: int)
    requires
        0 <= start,
        1 <= stride,
        0 <= extent,
    ensures
        0 <= strided_count(start, stride, extent) <= extent,
        start < extent <==> strided_count(start, stride, extent) >= 1,
{
    if start < extent {
        lemma_div_pos_is_pos(extent - 1 - start, stride);
        lemma_div_nonincreasing(extent - 1 - start, stride);
    }
}

/// The k-th grid index, for k below the count, lies on the grid and below
/// the extent.
pub proof fn lemma_strided_index_in(start: int, stride: int, extent: int, k: int)
    requires
        0 <= start,
        1 <= stride,
        0 <= k < strided_count(start, stride, extent),
    ensures
        start <= start + k * stride < extent,
        on_stride(start, stride, start + k * stride),
{
    let q = (extent - 1 - start) / stride;
    lemma_mul_inequality(k, q, stride);
    lemma_fundamental_div_mod(extent - 1 - start, stride);
    lemma_mod_division_less_than_divisor(extent - 1 - start, stride);
    lemma_mul_is_commutative(q, stride);
    lemma_mod_multiples_basic(k, stride);
    assert((start + k * stride - start) % stride == 0);
}

/// Every index on the grid and below the extent is the k-th grid index for
/// exactly k = (j - start) / stride, which lies below the count.
pub proof fn lemma_strided_index_complete(start: int, stride: int, extent: int, j: int)
    requires
        0 <= start,
        1 <= stride,
        start <= j < extent,
        (j - start) % stride == 0,
    ensures
        0 <= (j - start) / stride < strided_count(start, stride, extent),
        j == start + ((j - start) / stride) * stride,
{
    let k = (j - start) / stride;
    lemma_fundamental_div_mod(j - start, stride);
    lemma_div_pos_is_pos(j - start, stride);
    lemma_div_is_ordered(j - start, extent - 1 - start, stride);
    lemma_mul_is_commutative(k, stride);
}

/// Grid indices grow strictly with k.
pub proof fn lemma_strided_index_mono(start: int, stride: int, k1: int, k2: int)
    requires
        1 <= stride,
        0 <= k1 < k2,
    ensures
        start + k1 * stride < start + k2 * stride,
{
    lemma_mul_strict_inequality(k1, k2, stride);
}

/// A range split d ways assigns every element to exactly one unit offset:
/// element j belongs to the unit whose offset is j modulo d, and to no
/// other offset below d. This is the element-level form of the partition
/// guarantee: the owned sub-ranges are exhaustive and pairwise disjoint.
pub proof fn lemma_split_owns_each_element_once(d: int, j: int)
    requires
        1 <= d,
        0 <= j,
    ensures
        0 <= j % d < d,
        on_stride(j % d, d, j),
        forall|x: int| 0 <= x < d && #[trigger] on_stride(x, d, j) ==> x == j % d,
{
    lemma_fundamental_div_mod(j, d);
    lemma_mod_division_less_than_divisor(j, d);
    lemma_mul_is_commutative(j / d, d);
    assert((j - j % d) % d == 0) by {
        lemma_mod_multiples_basic(j / d, d);
    }
    assert forall|x: int| 0 <= x < d && #[trigger] on_stride(x, d, j) implies x == j % d by {
        lemma_fundamental_div_mod(j - x, d);
        let q = (j - x) / d;
        assert(j == d * q + x);
        vstd::arithmetic::div_mod::lemma_mod_multiples_vanish(q, x, d);
        vstd::arithmetic::div_mod::lemma_small_mod(x as nat, d as nat);
    }
}

/// A bounds-checked strided index range over a backing store of `space`
/// elements: it selects positions start, start + stride, ...,
/// start + (count - 1) * stride, all below space.
#[derive(Clone, Copy, Debug, PartialEq, Eq, Structural)]
pub struct StridedMap {
    pub start: usize,
    pub stride: usize,
    pub count: usize,
    pub space: usize,
}

impl StridedMap {
    /// Every selected position stays below the backing space.
    pub open spec fn wf(self) -> bool {
        &&& 1 <= self.stride
        &&& self.count > 0 ==> self.start + (self.count - 1) * self.stride < self.space
    }

    /// The backing position of the k-th selected element.
    pub open spec fn index_spec(self, k: int) -> int {
        self.start + k * self.stride
    }

    /// The dense range covering a backing store of `space` elements.
    pub fn dense(space: usize) -> (r: StridedMap)
        ensures
            r == (StridedMap { start: 0, stride: 1, count: space, space }),
            r.wf(),
    {
        StridedMap { start: 0, stride: 1, count: space, space }
    }

    pub proof fn lemma_index_in_space(self, k: int)
        requires
            self.wf(),
            0 <= k < self.count,
        ensures
            self.start <= self.index_spec(k) < self.space,
    {
        lemma_mul_inequality(k, self.count - 1, self.stride as int);
        vstd::arithmetic::mul::lemma_mul_nonnegative(k, self.stride as int);
    }

    /// The backing position of the k-th selected element.
    pub fn position(&self, k: usize) -> (r: usize)
        requires
            self.wf(),
            k < self.count,
        ensures
            r == self.index_spec(k as int),
            r < self.space,
    {
        proof {
            self.lemma_index_in_space(k as int);
        }
        self.start + k * self.stride
    }

    /// Reads the k-th selected element out of the backing arena.
    pub fn read<'a, T>(&self, arena: &'a Vec<T>, k: usize) -> (r: &'a T)
        requires
            self.wf(),
            arena.len() == self.space,
            k < self.count,
        ensures
            *r == arena@[self.index_spec(k as int)],
    {
        let p = self.position(k);
        &arena[p]
    }

    /// Writes the k-th selected element of the backing arena.
    pub fn write<T>(&self, arena: &mut Vec<T>, k: usize, value: T)
        requires
            self.wf(),
            old(arena).len() == self.space,
            k < self.count,
        ensures
            final(arena)@ == old(arena)@.update(self.index_spec(k as int), value),
    {
        let p = self.position(k);
        arena[p] = value;
    }
}

/// The sub-range of m that selects every d-th of m's elements starting at
/// m's element x: the strided slice a unit owns under a partition whose
/// leading axis gives it offset x among d peers.
pub open spec fn sub_map(m: StridedMap, x: int, d: int) -> StridedMap {
    let c = strided_count(x, d, m.count as int);
    if c <= 0 {
        StridedMap { start: m.space, stride: 1, count: 0, space: m.space }
    } else {
        StridedMap {
            start: (m.start + x * m.stride) as usize,
            stride: cap_usize(m.stride as int * d) as usize,
            count: c as usize,
            space: m.space,
        }
    }
}

/// A backing position some unit writes when the range m is split with
/// leading-axis extent d and this unit's offset is x.
pub open spec fn written_position(m: StridedMap, x: int, d: int, p: int) -> bool {
    exists|j: int|
        0 <= j < m.count && on_stride(x, d, j) && p == m.index_spec(j)
}

/// The sub-range selecting every d-th element of m from element x onward is
/// itself well-formed, selects exactly the positions of m's elements
/// x, x + d, x + 2d, ... and, when it holds at least two elements, steps by
/// stride m.stride * d.
pub proof fn lemma_sub_map(m: StridedMap, x: int, d: int)
    requires
        m.wf(),
        0 <= x,
        1 <= d,
    ensures
        sub_map(m, x, d).wf(),
        sub_map(m, x, d).space == m.space,
        sub_map(m, x, d).stride >= 1,
        sub_map(m, x, d).count == strided_count(x, d, m.count as int),
        x < m.count ==> sub_map(m, x, d).start == m.start + x * m.stride,
        sub_map(m, x, d).count >= 2 ==> sub_map(m, x, d).stride == m.stride * d,
        forall|k: int|
            0 <= k < sub_map(m, x, d).count ==> #[trigger] sub_map(m, x, d).index_spec(k)
                == m.index_spec(x + k * d),
{
    lemma_strided_count_bounds(x, d, m.count as int);
    let c = strided_count(x, d, m.count as int);
    let s = sub_map(m, x, d);
    if c > 0 {
        vstd::arithmetic::mul::lemma_mul_strictly_positive(m.stride as int, d);
        assert(s.stride >= 1);
        lemma_strided_index_in(x, d, m.count as int, 0);
        m.lemma_index_in_space(x);
        assert(s.start == m.start + x * m.stride);
        if c >= 2 {
            lemma_strided_index_in(x, d, m.count as int, 1);
            m.lemma_index_in_space(x + 1 * d);
            assert(m.index_spec(x + d) == m.start + (x + d) * m.stride);
            lemma_mul_is_distributive_add_other_way(m.stride as int, x, d);
            assert((x + d) * m.stride == x * m.stride + d * m.stride);
            lemma_mul_is_commutative(d, m.stride as int);
            assert(m.stride * d <= usize::MAX);
            assert(s.stride == m.stride * d);
        }
        assert forall|k: int| 0 <= k < s.count implies #[trigger] s.index_spec(k)
            == m.index_spec(x + k * d) by {
            if k == 0 {
                assert(s.index_spec(0) == s.start);
            } else {
                // s.start + k * (m.stride * d) == m.start + (x + k * d) * m.stride
                lemma_mul_is_associative(k, m.stride as int, d);
                lemma_mul_is_commutative(m.stride as int, d);
                lemma_mul_is_associative(k, d, m.stride as int);
                lemma_mul_is_distributive_add_other_way(m.stride as int, x, k * d);
                assert((x + k * d) * m.stride == x * m.stride + (k * d) * m.stride);
            }
        }
        // well-formedness: the last selected position lies below space
        lemma_strided_index_in(x, d, m.count as int, c - 1);
        m.lemma_index_in_space(x + (c - 1) * d);
        assert(s.index_spec(c - 1) == m.index_spec(x + (c - 1) * d));
    }
}

} // verus!
