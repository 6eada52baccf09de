//! The lane-vector interface: a fixed-width batch of binary32 lanes with a
//! full/partial load, store and add protocol, together with the shared
//! lane-buffer helpers that every width builds on.

use vstd::prelude::*;
use crate::scalar::{fadd, ffmadd, ffmsub, is_nan_bits};
use crate::scalar::{add_bits, mul_add_bits, mul_sub_bits};

verus! {

/// A fixed-width vector of binary32 lanes, carried as `u32` bit patterns.
///
/// A value is in exactly one of two states, fixed at construction: *full*
/// (`logical_size() == width()`, made by a full load, a splat or an add of
/// full operands) or *partial* (`logical_size() < width()`, made by a partial
/// load); the lanes at and above `logical_size()` are zero-filled. Full
/// operations must only be applied to full values and partial operations to
/// partial values; adds require operands in the same state with the same
/// logical size.
pub trait SimdVec: Sized {
    /// The number of lanes one register holds.
    spec fn width() -> nat;

    /// The bit patterns of all `width()` lanes.
    spec fn lanes(&self) -> Seq<u32>;

    /// How many lanes are semantically meaningful.
    spec fn logical_size(&self) -> nat;

    /// The state invariant: `width()` lanes are present, the logical size is
    /// between 1 and `width()`, and every lane at or above the logical size
    /// is zero.
    spec fn well_formed(&self) -> bool;

    /// What the state invariant guarantees about the lane view.
    proof fn lemma_well_formed(&self)
        requires
            self.well_formed(),
        ensures
            self.lanes().len() == Self::width(),
            1 <= self.logical_size() <= Self::width(),
            forall|i: int| self.logical_size() <= i < Self::width() ==> self.lanes()[i] == 0,
    ;

    /// The number of lanes, as a run-time value.
    fn width_val() -> (w: usize)
        ensures
            w as nat == Self::width(),
            1 <= w,
    ;

    /// Builds a vector from a slice: a full load of the first `width()`
    /// elements when the slice is at least that long, else a partial load of
    /// the whole slice.
    fn new(slice: &[u32]) -> (v: Self)
        requires
            1 <= slice@.len(),
        ensures
            v.well_formed(),
            slice@.len() < Self::width() ==> v.logical_size() == slice@.len(),
            slice@.len() >= Self::width() ==> v.logical_size() == Self::width(),
            forall|i: int| 0 <= i < v.logical_size() ==> v.lanes()[i] == slice@[i],
    ;

    /// A full vector with every lane set to `value`.
    fn splat(value: u32) -> (v: Self)
        ensures
            v.well_formed(),
            v.logical_size() == Self::width(),
            forall|i: int| 0 <= i < Self::width() ==> v.lanes()[i] == value,
    ;

    /// Full load: reads exactly `width()` lanes from the front of the slice.
    /// `size` must equal `width()`.
    fn load(slice: &[u32], size: usize) -> (v: Self)
        requires
            size as nat == Self::width(),
            slice@.len() >= size,
        ensures
            v.well_formed(),
            v.logical_size() == Self::width(),
            forall|i: int| 0 <= i < Self::width() ==> v.lanes()[i] == slice@[i],
    ;

    /// Partial load: reads exactly `size` lanes, `1 <= size < width()`, from
    /// the front of the slice and zero-fills the remaining lanes.
    fn load_partial(slice: &[u32], size: usize) -> (v: Self)
        requires
            1 <= size,
            (size as nat) < Self::width(),
            slice@.len() >= size,
        ensures
            v.well_formed(),
            v.logical_size() == size as nat,
            forall|i: int| 0 <= i < size ==> v.lanes()[i] == slice@[i],
    ;

    /// The defined lanes as a new array: the full store when the vector is
    /// full, the partial store when it is partial.
    fn to_vec(&self) -> (r: Vec<u32>)
        requires
            self.well_formed(),
        ensures
            r@ == self.lanes().take(self.logical_size() as int),
    ;

    /// Full store to a new array of all `width()` lanes.
    fn store(&self) -> (r: Vec<u32>)
        requires
            self.well_formed(),
        ensures
            r@ == self.lanes(),
    ;

    /// Partial store to a new array of exactly `logical_size()` lanes.
    fn store_partial(&self) -> (r: Vec<u32>)
        requires
            self.well_formed(),
            self.logical_size() < Self::width(),
        ensures
            r@ == self.lanes().take(self.logical_size() as int),
    ;

    /// Full store into caller-owned memory: writes exactly `width()` lanes at
    /// `offset` and leaves every other position unchanged.
    fn store_at(&self, out: &mut Vec<u32>, offset: usize)
        requires
            self.well_formed(),
            self.logical_size() == Self::width(),
            offset + Self::width() <= old(out)@.len(),
        ensures
            final(out)@.len() == old(out)@.len(),
            forall|i: int| 0 <= i < Self::width() ==> final(out)@[offset + i] == self.lanes()[i],
            forall|j: int|
                0 <= j < old(out)@.len() && !(offset <= j < offset + Self::width())
                    ==> final(out)@[j] == old(out)@[j],
    ;

    /// Partial store into caller-owned memory: writes exactly
    /// `logical_size()` lanes at `offset` — never `width()` — and leaves every
    /// other position unchanged.
    fn store_at_partial(&self, out: &mut Vec<u32>, offset: usize)
        requires
            self.well_formed(),
            self.logical_size() < Self::width(),
            offset + self.logical_size() <= old(out)@.len(),
        ensures
            final(out)@.len() == old(out)@.len(),
            forall|i: int|
                0 <= i < self.logical_size() ==> final(out)@[offset + i] == self.lanes()[i],
            forall|j: int|
                0 <= j < old(out)@.len() && !(offset <= j < offset + self.logical_size())
                    ==> final(out)@[j] == old(out)@[j],
    ;

    /// Lanewise IEEE 754 addition of two vectors in the same state: every
    /// defined lane of the result is the sum of the operand lanes, zero
    /// lanes add harmlessly to zero, and on lanes where neither operand is a
    /// NaN the sum does not depend on the operand order.
    fn simd_add(&self, rhs: Self) -> (r: Self)
        requires
            self.well_formed(),
            rhs.well_formed(),
            self.logical_size() == rhs.logical_size(),
        ensures
            r.well_formed(),
            r.logical_size() == self.logical_size(),
            forall|i: int|
                0 <= i < self.logical_size()
                    ==> r.lanes()[i] == fadd(self.lanes()[i], rhs.lanes()[i]),
            forall|i: int|
                0 <= i < self.logical_size() && !is_nan_bits(self.lanes()[i])
                    && !is_nan_bits(rhs.lanes()[i])
                    ==> r.lanes()[i] == fadd(rhs.lanes()[i], self.lanes()[i]),
            forall|i: int|
                0 <= i < self.logical_size() && self.lanes()[i] == 0 && rhs.lanes()[i] == 0
                    ==> r.lanes()[i] == 0,
    ;

    /// The masked form of the lanewise addition, for partial operands on
    /// families whose add must be invoked through a lane mask. Same contract
    /// as `simd_add`.
    fn simd_mask_add(&self, rhs: Self) -> (r: Self)
        requires
            self.well_formed(),
            rhs.well_formed(),
            self.logical_size() == rhs.logical_size(),
        ensures
            r.well_formed(),
            r.logical_size() == self.logical_size(),
            forall|i: int|
                0 <= i < self.logical_size()
                    ==> r.lanes()[i] == fadd(self.lanes()[i], rhs.lanes()[i]),
            forall|i: int|
                0 <= i < self.logical_size() && !is_nan_bits(self.lanes()[i])
                    && !is_nan_bits(rhs.lanes()[i])
                    ==> r.lanes()[i] == fadd(rhs.lanes()[i], self.lanes()[i]),
            forall|i: int|
                0 <= i < self.logical_size() && self.lanes()[i] == 0 && rhs.lanes()[i] == 0
                    ==> r.lanes()[i] == 0,
    ;

    /// Lanewise fused multiply-add: every defined lane of the result is
    /// `(a * b) + self` on that lane, with a single rounding.
    fn fused_multiply_add(self, a: Self, b: Self) -> (r: Self)
        requires
            self.well_formed(),
            a.well_formed(),
            b.well_formed(),
            self.logical_size() == a.logical_size(),
            self.logical_size() == b.logical_size(),
        ensures
            r.well_formed(),
            r.logical_size() == self.logical_size(),
            forall|i: int|
                0 <= i < self.logical_size()
                    ==> r.lanes()[i] == ffmadd(a.lanes()[i], b.lanes()[i], self.lanes()[i]),
            forall|i: int|
                0 <= i < self.logical_size() && a.lanes()[i] == 0 && b.lanes()[i] == 0
                    && self.lanes()[i] == 0 ==> r.lanes()[i] == 0,
    ;

    /// Lanewise fused multiply-subtract: every defined lane of the result is
    /// `(a * b) - self` on that lane, with a single rounding.
    fn fused_multiply_sub(self, a: Self, b: Self) -> (r: Self)
        requires
            self.well_formed(),
            a.well_formed(),
            b.well_formed(),
            self.logical_size() == a.logical_size(),
            self.logical_size() == b.logical_size(),
        ensures
            r.well_formed(),
            r.logical_size() == self.logical_size(),
            forall|i: int|
                0 <= i < self.logical_size()
                    ==> r.lanes()[i] == ffmsub(a.lanes()[i], b.lanes()[i], self.lanes()[i]),
            forall|i: int|
                0 <= i < self.logical_size() && a.lanes()[i] == 0 && b.lanes()[i] == 0
                    && self.lanes()[i] == 0 ==> r.lanes()[i] == 0,
    ;
}

/// Copies the first `count` elements of `slice` into a fresh buffer of
/// `width` lanes, zero-filling the rest.
pub(crate) fn copy_lanes(slice: &[u32], count: usize, width: usize) -> (v: Vec<u32>)
    requires
        count <= slice@.len(),
        count <= width,
    ensures
        v@.len() == width,
        forall|i: int| 0 <= i < count ==> v@[i] == slice@[i],
        forall|i: int| count <= i < width ==> v@[i] == 0,
{
    let mut v: Vec<u32> = Vec::new();
    let mut i: usize = 0;
    while i < count
        invariant
            i <= count,
            count <= slice@.len(),
            v@.len() == i,
            forall|j: int| 0 <= j < i ==> v@[j] == slice@[j],
        decreases count - i,
    {
        v.push(slice[i]);
        i += 1;
    }
    while i < width
        invariant
            count <= i <= width || (i == count && count <= width),
            count <= slice@.len(),
            v@.len() == i,
            forall|j: int| 0 <= j < count ==> v@[j] == slice@[j],
            forall|j: int| count <= j < i ==> v@[j] == 0,
        decreases width - i,
    {
        v.push(0);
        i += 1;
    }
    v
}

/// A fresh buffer of `width` lanes, each set to `value`.
pub(crate) fn filled_lanes(value: u32, width: usize) -> (v: Vec<u32>)
    ensures
        v@.len() == width,
        forall|i: int| 0 <= i < width ==> v@[i] == value,
{
    let mut v: Vec<u32> = Vec::new();
    let mut i: usize = 0;
    while i < width
        invariant
            i <= width,
            v@.len() == i,
            forall|j: int| 0 <= j < i ==> v@[j] == value,
        decreases width - i,
    {
        v.push(value);
        i += 1;
    }
    v
}

/// Copies the first `count` elements of a lane buffer into a new array.
pub(crate) fn copy_vec_prefix(v: &Vec<u32>, count: usize) -> (r: Vec<u32>)
    requires
        count <= v@.len(),
    ensures
        r@ == v@.take(count as int),
{
    let mut r: Vec<u32> = Vec::new();
    let mut i: usize = 0;
    while i < count
        invariant
            i <= count,
            count <= v@.len(),
            r@.len() == i,
            forall|j: int| 0 <= j < i ==> r@[j] == v@[j],
        decreases count - i,
    {
        r.push(v[i]);
        i += 1;
    }
    assert(r@ =~= v@.take(count as int));
    r
}

/// Writes the first `count` lanes of `lanes` into `out` at `offset`, leaving
/// every other position of `out` unchanged.
pub(crate) fn write_lanes(out: &mut Vec<u32>, offset: usize, lanes: &Vec<u32>, count: usize)
    requires
        count <= lanes@.len(),
        offset + count <= old(out)@.len(),
    ensures
        final(out)@.len() == old(out)@.len(),
        forall|i: int| 0 <= i < count ==> final(out)@[offset + i] == lanes@[i],
        forall|j: int|
            0 <= j < old(out)@.len() && !(offset <= j < offset + count)
                ==> final(out)@[j] == old(out)@[j],
{
    let total = out.len();
    let mut i: usize = 0;
    while i < count
        invariant
            i <= count,
            count <= lanes@.len(),
            offset + count <= out@.len(),
            out@.len() == total,
            out@.len() == old(out)@.len(),
            forall|k: int| 0 <= k < i ==> out@[offset + k] == lanes@[k],
            forall|j: int|
                0 <= j < old(out)@.len() && !(offset <= j < offset + i)
                    ==> out@[j] == old(out)@[j],
        decreases count - i,
    {
        let idx = offset + i;
        out[idx] = lanes[i];
        i += 1;
    }
}

/// Lanewise addition over whole lane buffers of equal length.
pub(crate) fn add_lane_vecs(x: &Vec<u32>, y: &Vec<u32>) -> (r: Vec<u32>)
    requires
        x@.len() == y@.len(),
    ensures
        r@.len() == x@.len(),
        forall|i: int| 0 <= i < x@.len() ==> r@[i] == fadd(x@[i], y@[i]),
        forall|i: int|
            0 <= i < x@.len() && !is_nan_bits(x@[i]) && !is_nan_bits(y@[i])
                ==> r@[i] == fadd(y@[i], x@[i]),
        forall|i: int| 0 <= i < x@.len() && x@[i] == 0 && y@[i] == 0 ==> r@[i] == 0,
{
    let n = x.len();
    let mut r: Vec<u32> = Vec::new();
    let mut i: usize = 0;
    while i < n
        invariant
            i <= n,
            n == x@.len(),
            x@.len() == y@.len(),
            r@.len() == i,
            forall|j: int| 0 <= j < i ==> r@[j] == fadd(x@[j], y@[j]),
            forall|j: int|
                0 <= j < i && !is_nan_bits(x@[j]) && !is_nan_bits(y@[j])
                    ==> r@[j] == fadd(y@[j], x@[j]),
            forall|j: int| 0 <= j < i && x@[j] == 0 && y@[j] == 0 ==> r@[j] == 0,
        decreases n - i,
    {
        r.push(add_bits(x[i], y[i]));
        i += 1;
    }
    r
}

/// Lanewise fused multiply-add `(a * b) + c` of the first `count` lanes,
/// zero-filling the rest.
pub(crate) fn fma_lane_vecs(a: &Vec<u32>, b: &Vec<u32>, c: &Vec<u32>, count: usize) -> (r: Vec<
    u32,
>)
    requires
        a@.len() == b@.len(),
        a@.len() == c@.len(),
        count <= a@.len(),
    ensures
        r@.len() == a@.len(),
        forall|i: int| 0 <= i < count ==> r@[i] == ffmadd(a@[i], b@[i], c@[i]),
        forall|i: int|
            0 <= i < count && a@[i] == 0 && b@[i] == 0 && c@[i] == 0 ==> r@[i] == 0,
        forall|i: int| count <= i < a@.len() ==> r@[i] == 0,
{
    let n = a.len();
    let mut r: Vec<u32> = Vec::new();
    let mut i: usize = 0;
    while i < n
        invariant
            i <= n,
            n == a@.len(),
            a@.len() == b@.len(),
            a@.len() == c@.len(),
            count <= a@.len(),
            r@.len() == i,
            forall|j: int| 0 <= j < i && j < count ==> r@[j] == ffmadd(a@[j], b@[j], c@[j]),
            forall|j: int|
                0 <= j < i && j < count && a@[j] == 0 && b@[j] == 0 && c@[j] == 0
                    ==> r@[j] == 0,
            forall|j: int| count <= j < i ==> r@[j] == 0,
        decreases n - i,
    {
        if i < count {
            r.push(mul_add_bits(a[i], b[i], c[i]));
        } else {
            r.push(0);
        }
        i += 1;
    }
    r
}

/// Lanewise fused multiply-subtract `(a * b) - c` of the first `count` lanes,
/// zero-filling the rest.
pub(crate) fn fms_lane_vecs(a: &Vec<u32>, b: &Vec<u32>, c: &Vec<u32>, count: usize) -> (r: Vec<
    u32,
>)
    requires
        a@.len() == b@.len(),
        a@.len() == c@.len(),
        count <= a@.len(),
    ensures
        r@.len() == a@.len(),
        forall|i: int| 0 <= i < count ==> r@[i] == ffmsub(a@[i], b@[i], c@[i]),
        forall|i: int|
            0 <= i < count && a@[i] == 0 && b@[i] == 0 && c@[i] == 0 ==> r@[i] == 0,
        forall|i: int| count <= i < a@.len() ==> r@[i] == 0,
{
    let n = a.len();
    let mut r: Vec<u32> = Vec::new();
    let mut i: usize = 0;
    while i < n
        invariant
            i <= n,
            n == a@.len(),
            a@.len() == b@.len(),
            a@.len() == c@.len(),
            count <= a@.len(),
            r@.len() == i,
            forall|j: int| 0 <= j < i && j < count ==> r@[j] == ffmsub(a@[j], b@[j], c@[j]),
            forall|j: int|
                0 <= j < i && j < count && a@[j] == 0 && b@[j] == 0 && c@[j] == 0
                    ==> r@[j] == 0,
            forall|j: int| count <= j < i ==> r@[j] == 0,
        decreases n - i,
    {
        if i < count {
            r.push(mul_sub_bits(a[i], b[i], c[i]));
        } else {
            r.push(0);
        }
        i += 1;
    }
    r
}

} // verus!
