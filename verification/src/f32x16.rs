//! A sixteen-lane vector of binary32 values: the widest register width. The
//! wide family drives its partial operations through a lane mask whose low
//! `logical_size` bits are set; the masked operations here have exactly the
//! observable effect of that mask — the unselected lanes are zeroed.

use vstd::prelude::*;
use crate::scalar::{add_bits, fadd, ffmadd, ffmsub, is_nan_bits};
use crate::simd_vec::{SimdVec, add_lane_vecs, copy_lanes, copy_vec_prefix, filled_lanes,
    fma_lane_vecs, fms_lane_vecs, write_lanes};

verus! {

/// The number of lanes of an `F32x16`.
pub const SIZE: usize = 16;

/// Whether bit `i` of a sixteen-lane mask selects its lane.
pub open spec fn mask_bit_set(m: u16, i: u16) -> bool {
    (m >> i) & 1u16 == 1u16
}

/// The lane mask whose low `size` bits are set — `(1 << size) - 1` — through
/// which the wide family drives every partial load, store and add.
pub fn lane_mask(size: usize) -> (m: u16)
    requires
        size < 16,
    ensures
        forall|i: u16| i < 16 ==> (mask_bit_set(m, i) <==> (i as usize) < size),
{
    let s = size as u16;
    proof {
        assert(forall|t: u16| t < 16 ==> (1u16 << t) >= 1) by (bit_vector);
    }
    let m = (1u16 << s) - 1;
    proof {
        assert(forall|i: u16| i < 16 ==> (((m >> i) & 1u16 == 1u16) <==> i < s)) by (bit_vector)
            requires
                s < 16,
                m == (1u16 << s) - 1,
        ;
    }
    m
}

/// Whether the mask selects lane `i`, as the hardware tests it: by the bit
/// `m & (1 << i)`.
fn mask_selects(m: u16, i: usize) -> (b: bool)
    requires
        i < 16,
    ensures
        b <==> mask_bit_set(m, i as u16),
{
    proof {
        assert(forall|mm: u16, i: u16|
            i < 16 ==> ((mm & (1u16 << i) != 0) <==> ((mm >> i) & 1 == 1))) by (bit_vector);
    }
    m & (1u16 << (i as u16)) != 0
}

/// A batch of up to sixteen binary32 lanes, each carried as its `u32` bit
/// pattern; `size` counts the semantically meaningful lanes, and every lane
/// at or above `size` is zero.
pub struct F32x16 {
    elements: Vec<u32>,
    size: usize,
}

impl SimdVec for F32x16 {
    open spec fn width() -> nat {
        16
    }

    closed spec fn lanes(&self) -> Seq<u32> {
        self.elements@
    }

    closed spec fn logical_size(&self) -> nat {
        self.size as nat
    }

    closed spec fn well_formed(&self) -> bool {
        &&& self.elements@.len() == 16
        &&& 1 <= self.size <= 16
        &&& forall|i: int| self.size <= i < 16 ==> self.elements@[i] == 0
    }

    proof fn lemma_well_formed(&self) {
    }

    fn width_val() -> (w: usize) {
        SIZE
    }

    fn new(slice: &[u32]) -> (v: Self) {
        if slice.len() < SIZE {
            Self::load_partial(slice, slice.len())
        } else {
            Self::load(slice, SIZE)
        }
    }

    fn splat(value: u32) -> (v: Self) {
        F32x16 { elements: filled_lanes(value, SIZE), size: SIZE }
    }

    fn load(slice: &[u32], size: usize) -> (v: Self) {
        F32x16 { elements: copy_lanes(slice, size, SIZE), size }
    }

    fn load_partial(slice: &[u32], size: usize) -> (v: Self) {
        let m = lane_mask(size);
        let mut elements: Vec<u32> = Vec::new();
        let mut i: usize = 0;
        while i < SIZE
            invariant
                i <= 16,
                1 <= size < 16,
                size <= slice@.len(),
                elements@.len() == i,
                forall|k: u16| k < 16 ==> (mask_bit_set(m, k) <==> (k as usize) < size),
                forall|j: int| 0 <= j < i && j < size ==> elements@[j] == slice@[j],
                forall|j: int| size <= j < i ==> elements@[j] == 0,
            decreases 16 - i,
        {
            if mask_selects(m, i) {
                elements.push(slice[i]);
            } else {
                elements.push(0);
            }
            i += 1;
        }
        F32x16 { elements, size }
    }

    fn to_vec(&self) -> (r: Vec<u32>) {
        if self.size == SIZE {
            let r = self.store();
            assert(r@ =~= self.lanes().take(self.logical_size() as int));
            r
        } else {
            self.store_partial()
        }
    }

    fn store(&self) -> (r: Vec<u32>) {
        let r = copy_vec_prefix(&self.elements, SIZE);
        assert(r@ =~= self.lanes());
        r
    }

    fn store_partial(&self) -> (r: Vec<u32>) {
        copy_vec_prefix(&self.elements, self.size)
    }

    fn store_at(&self, out: &mut Vec<u32>, offset: usize) {
        write_lanes(out, offset, &self.elements, SIZE);
    }

    fn store_at_partial(&self, out: &mut Vec<u32>, offset: usize) {
        let m = lane_mask(self.size);
        let total = out.len();
        let mut i: usize = 0;
        while i < SIZE
            invariant
                i <= 16,
                self.size < 16,
                self.elements@.len() == 16,
                offset + self.size <= out@.len(),
                out@.len() == total,
                out@.len() == old(out)@.len(),
                forall|k: u16| k < 16 ==> (mask_bit_set(m, k) <==> (k as usize) < self.size),
                forall|k: int| 0 <= k < i && k < self.size ==> out@[offset + k] == self.elements@[k],
                forall|j: int|
                    0 <= j < old(out)@.len() && !(offset <= j < offset + self.size)
                        ==> out@[j] == old(out)@[j],
            decreases 16 - i,
        {
            if mask_selects(m, i) {
                let idx = offset + i;
                out[idx] = self.elements[i];
            }
            i += 1;
        }
    }

    fn simd_add(&self, rhs: Self) -> (r: Self) {
        F32x16 { elements: add_lane_vecs(&self.elements, &rhs.elements), size: self.size }
    }

    fn simd_mask_add(&self, rhs: Self) -> (r: Self) {
        if self.size == SIZE {
            return self.simd_add(rhs);
        }
        let m = lane_mask(self.size);
        let mut elements: Vec<u32> = Vec::new();
        let mut i: usize = 0;
        while i < SIZE
            invariant
                i <= 16,
                self.size < 16,
                self.elements@.len() == 16,
                rhs.elements@.len() == 16,
                elements@.len() == i,
                forall|k: u16| k < 16 ==> (mask_bit_set(m, k) <==> (k as usize) < self.size),
                forall|j: int|
                    0 <= j < i && j < self.size
                        ==> elements@[j] == fadd(self.elements@[j], rhs.elements@[j]),
                forall|j: int|
                    0 <= j < i && j < self.size && !is_nan_bits(self.elements@[j])
                        && !is_nan_bits(rhs.elements@[j])
                        ==> elements@[j] == fadd(rhs.elements@[j], self.elements@[j]),
                forall|j: int|
                    0 <= j < i && j < self.size && self.elements@[j] == 0 && rhs.elements@[j] == 0
                        ==> elements@[j] == 0,
                forall|j: int| self.size <= j < i ==> elements@[j] == 0,
            decreases 16 - i,
        {
            if mask_selects(m, i) {
                elements.push(add_bits(self.elements[i], rhs.elements[i]));
            } else {
                elements.push(0);
            }
            i += 1;
        }
        F32x16 { elements, size: self.size }
    }

    fn fused_multiply_add(self, a: Self, b: Self) -> (r: Self) {
        F32x16 {
            elements: fma_lane_vecs(&a.elements, &b.elements, &self.elements, self.size),
            size: self.size,
        }
    }

    fn fused_multiply_sub(self, a: Self, b: Self) -> (r: Self) {
        F32x16 {
            elements: fms_lane_vecs(&a.elements, &b.elements, &self.elements, self.size),
            size: self.size,
        }
    }
}

impl F32x16 {
    /// Register-level add: dispatches to the plain add for full operands and
    /// to the masked, zeroing add for partial operands, as the wide family
    /// requires.
    pub fn add(self, rhs: Self) -> (r: Self)
        requires
            self.well_formed(),
            rhs.well_formed(),
            self.logical_size() == rhs.logical_size(),
        ensures
            r.well_formed(),
            r.logical_size() == self.logical_size(),
            forall|i: int|
                0 <= i < self.logical_size()
                    ==> r.lanes()[i] == fadd(self.lanes()[i], rhs.lanes()[i]),
            forall|i: int|
                0 <= i < self.logical_size() && !is_nan_bits(self.lanes()[i])
                    && !is_nan_bits(rhs.lanes()[i])
                    ==> r.lanes()[i] == fadd(rhs.lanes()[i], self.lanes()[i]),
    {
        if self.size < SIZE {
            self.simd_mask_add(rhs)
        } else {
            self.simd_add(rhs)
        }
    }
}

} // verus!
