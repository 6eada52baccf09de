//! A four-lane vector of binary32 values: the narrowest native register
//! width, and the base case the wider composite widths are built from.

use vstd::prelude::*;
use crate::scalar::{fadd, ffmadd, ffmsub, is_nan_bits};
use crate::simd_vec::{SimdVec, add_lane_vecs, copy_lanes, copy_vec_prefix, filled_lanes,
    fma_lane_vecs, fms_lane_vecs, write_lanes};

verus! {

/// The number of lanes of an `F32x4`.
pub const SIZE: usize = 4;

/// A batch of up to four binary32 lanes, each carried as its `u32` bit
/// pattern; `size` counts the semantically meaningful lanes, and every lane
/// at or above `size` is zero.
pub struct F32x4 {
    elements: Vec<u32>,
    size: usize,
}

impl SimdVec for F32x4 {
    open spec fn width() -> nat {
        4
    }

    closed spec fn lanes(&self) -> Seq<u32> {
        self.elements@
    }

    closed spec fn logical_size(&self) -> nat {
        self.size as nat
    }

    closed spec fn well_formed(&self) -> bool {
        &&& self.elements@.len() == 4
        &&& 1 <= self.size <= 4
        &&& forall|i: int| self.size <= i < 4 ==> self.elements@[i] == 0
    }

    proof fn lemma_well_formed(&self) {
    }

    fn width_val() -> (w: usize) {
        SIZE
    }

    fn new(slice: &[u32]) -> (v: Self) {
        if slice.len() < SIZE {
            Self::load_partial(slice, slice.len())
        } else {
            Self::load(slice, SIZE)
        }
    }

    fn splat(value: u32) -> (v: Self) {
        F32x4 { elements: filled_lanes(value, SIZE), size: SIZE }
    }

    fn load(slice: &[u32], size: usize) -> (v: Self) {
        F32x4 { elements: copy_lanes(slice, size, SIZE), size }
    }

    fn load_partial(slice: &[u32], size: usize) -> (v: Self) {
        F32x4 { elements: copy_lanes(slice, size, SIZE), size }
    }

    fn to_vec(&self) -> (r: Vec<u32>) {
        if self.size == SIZE {
            let r = self.store();
            assert(r@ =~= self.lanes().take(self.logical_size() as int));
            r
        } else {
            self.store_partial()
        }
    }

    fn store(&self) -> (r: Vec<u32>) {
        let r = copy_vec_prefix(&self.elements, SIZE);
        assert(r@ =~= self.lanes());
        r
    }

    fn store_partial(&self) -> (r: Vec<u32>) {
        copy_vec_prefix(&self.elements, self.size)
    }

    fn store_at(&self, out: &mut Vec<u32>, offset: usize) {
        write_lanes(out, offset, &self.elements, SIZE);
    }

    fn store_at_partial(&self, out: &mut Vec<u32>, offset: usize) {
        write_lanes(out, offset, &self.elements, self.size);
    }

    fn simd_add(&self, rhs: Self) -> (r: Self) {
        F32x4 { elements: add_lane_vecs(&self.elements, &rhs.elements), size: self.size }
    }

    fn simd_mask_add(&self, rhs: Self) -> (r: Self) {
        self.simd_add(rhs)
    }

    fn fused_multiply_add(self, a: Self, b: Self) -> (r: Self) {
        F32x4 {
            elements: fma_lane_vecs(&a.elements, &b.elements, &self.elements, self.size),
            size: self.size,
        }
    }

    fn fused_multiply_sub(self, a: Self, b: Self) -> (r: Self) {
        F32x4 {
            elements: fms_lane_vecs(&a.elements, &b.elements, &self.elements, self.size),
            size: self.size,
        }
    }
}

impl F32x4 {
    /// Register-level add: dispatches to the plain add for full operands and
    /// to the masked add for partial operands, as the state protocol asks.
    pub fn add(self, rhs: Self) -> (r: Self)
        requires
            self.well_formed(),
            rhs.well_formed(),
            self.logical_size() == rhs.logical_size(),
        ensures
            r.well_formed(),
            r.logical_size() == self.logical_size(),
            forall|i: int|
                0 <= i < self.logical_size()
                    ==> r.lanes()[i] == fadd(self.lanes()[i], rhs.lanes()[i]),
            forall|i: int|
                0 <= i < self.logical_size() && !is_nan_bits(self.lanes()[i])
                    && !is_nan_bits(rhs.lanes()[i])
                    ==> r.lanes()[i] == fadd(rhs.lanes()[i], self.lanes()[i]),
    {
        if self.size < SIZE {
            self.simd_mask_add(rhs)
        } else {
            self.simd_add(rhs)
        }
    }
}

} // verus!
