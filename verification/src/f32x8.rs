//! An eight-lane vector of binary32 values, composed of two four-lane
//! halves: the fallback representation for an architecture without a native
//! eight-lane register. Lanes `[0, 4)` live in the low half and lanes
//! `[4, 8)` in the high half; a partial load whose size falls entirely in the
//! low half leaves the high half as a full zero splat.

use vstd::prelude::*;
use vstd::slice::slice_subrange;
use crate::scalar::{fadd, ffmadd, ffmsub, is_nan_bits};
use crate::f32x4::F32x4;
use crate::simd_vec::SimdVec;

verus! {

/// The number of lanes of an `F32x8`.
pub const SIZE: usize = 8;

/// A batch of up to eight binary32 lanes carried as two four-lane halves;
/// `size` counts the semantically meaningful lanes over both halves.
pub struct F32x8 {
    low: F32x4,
    high: F32x4,
    size: usize,
}

impl SimdVec for F32x8 {
    open spec fn width() -> nat {
        8
    }

    closed spec fn lanes(&self) -> Seq<u32> {
        self.low.lanes() + self.high.lanes()
    }

    closed spec fn logical_size(&self) -> nat {
        self.size as nat
    }

    closed spec fn well_formed(&self) -> bool {
        &&& self.low.well_formed()
        &&& self.high.well_formed()
        &&& 1 <= self.size <= 8
        &&& self.low.logical_size() == (
        if self.size < 4 {
            self.size as nat
        } else {
            4nat
        })
        &&& self.high.logical_size() == (
        if self.size <= 4 {
            4nat
        } else {
            (self.size - 4) as nat
        })
        &&& (self.size <= 4 ==> forall|i: int| 0 <= i < 4 ==> self.high.lanes()[i] == 0)
    }

    proof fn lemma_well_formed(&self) {
        self.low.lemma_well_formed();
        self.high.lemma_well_formed();
    }

    fn width_val() -> (w: usize) {
        SIZE
    }

    fn new(slice: &[u32]) -> (v: Self) {
        if slice.len() < SIZE {
            Self::load_partial(slice, slice.len())
        } else {
            Self::load(slice, SIZE)
        }
    }

    fn splat(value: u32) -> (v: Self) {
        let v = F32x8 { low: F32x4::splat(value), high: F32x4::splat(value), size: SIZE };
        proof {
            v.low.lemma_well_formed();
            v.high.lemma_well_formed();
        }
        v
    }

    fn load(slice: &[u32], size: usize) -> (v: Self) {
        let low = F32x4::load(slice, 4);
        let rest = slice_subrange(slice, 4, slice.len());
        let high = F32x4::load(rest, 4);
        let v = F32x8 { low, high, size };
        proof {
            v.low.lemma_well_formed();
            v.high.lemma_well_formed();
            assert forall|i: int| 0 <= i < 8 implies v.lanes()[i] == slice@[i] by {
                if i < 4 {
                    assert(v.lanes()[i] == v.low.lanes()[i]);
                } else {
                    assert(v.lanes()[i] == v.high.lanes()[i - 4]);
                    assert(v.high.lanes()[i - 4] == rest@[i - 4]);
                    assert(rest@[i - 4] == slice@[i]);
                }
            }
        }
        v
    }

    fn load_partial(slice: &[u32], size: usize) -> (v: Self) {
        if size < 4 {
            let low = F32x4::load_partial(slice, size);
            let high = F32x4::splat(0);
            let v = F32x8 { low, high, size };
            proof {
                v.low.lemma_well_formed();
                v.high.lemma_well_formed();
                assert forall|i: int| 0 <= i < size implies v.lanes()[i] == slice@[i] by {
                    assert(v.lanes()[i] == v.low.lanes()[i]);
                }
            }
            v
        } else if size == 4 {
            let low = F32x4::load(slice, 4);
            let high = F32x4::splat(0);
            let v = F32x8 { low, high, size };
            proof {
                v.low.lemma_well_formed();
                v.high.lemma_well_formed();
                assert forall|i: int| 0 <= i < size implies v.lanes()[i] == slice@[i] by {
                    assert(v.lanes()[i] == v.low.lanes()[i]);
                }
            }
            v
        } else {
            let low = F32x4::load(slice, 4);
            let rest = slice_subrange(slice, 4, slice.len());
            let high = F32x4::load_partial(rest, size - 4);
            let v = F32x8 { low, high, size };
            proof {
                v.low.lemma_well_formed();
                v.high.lemma_well_formed();
                assert forall|i: int| 0 <= i < size implies v.lanes()[i] == slice@[i] by {
                    if i < 4 {
                        assert(v.lanes()[i] == v.low.lanes()[i]);
                    } else {
                        assert(v.lanes()[i] == v.high.lanes()[i - 4]);
                        assert(v.high.lanes()[i - 4] == rest@[i - 4]);
                        assert(rest@[i - 4] == slice@[i]);
                    }
                }
            }
            v
        }
    }

    fn to_vec(&self) -> (r: Vec<u32>) {
        if self.size == SIZE {
            let r = self.store();
            proof {
                self.lemma_well_formed();
                assert(r@ =~= self.lanes().take(self.logical_size() as int));
            }
            r
        } else {
            self.store_partial()
        }
    }

    fn store(&self) -> (r: Vec<u32>) {
        let mut r = self.low.store();
        let mut h = self.high.store();
        r.append(&mut h);
        r
    }

    fn store_partial(&self) -> (r: Vec<u32>) {
        proof {
            self.lemma_well_formed();
        }
        let full = self.store();
        crate::simd_vec::copy_vec_prefix(&full, self.size)
    }

    fn store_at(&self, out: &mut Vec<u32>, offset: usize) {
        // Pins the buffer length to a machine word, so `offset + 4` below
        // cannot overflow.
        let _len = out.len();
        proof {
            self.low.lemma_well_formed();
            self.high.lemma_well_formed();
        }
        self.low.store_at(out, offset);
        self.high.store_at(out, offset + 4);
    }

    fn store_at_partial(&self, out: &mut Vec<u32>, offset: usize) {
        // Pins the buffer length to a machine word, so `offset + 4` below
        // cannot overflow.
        let _len = out.len();
        proof {
            self.low.lemma_well_formed();
            self.high.lemma_well_formed();
        }
        if self.size > 4 {
            self.low.store_at(out, offset);
            self.high.store_at_partial(out, offset + 4);
        } else if self.size == 4 {
            self.low.store_at(out, offset);
        } else {
            self.low.store_at_partial(out, offset);
        }
    }

    fn simd_add(&self, rhs: Self) -> (r: Self) {
        proof {
            self.low.lemma_well_formed();
            self.high.lemma_well_formed();
            rhs.low.lemma_well_formed();
            rhs.high.lemma_well_formed();
        }
        let low = self.low.simd_add(rhs.low);
        let high = self.high.simd_add(rhs.high);
        let r = F32x8 { low, high, size: self.size };
        proof {
            r.low.lemma_well_formed();
            r.high.lemma_well_formed();
        }
        r
    }

    fn simd_mask_add(&self, rhs: Self) -> (r: Self) {
        self.simd_add(rhs)
    }

    fn fused_multiply_add(self, a: Self, b: Self) -> (r: Self) {
        proof {
            self.low.lemma_well_formed();
            self.high.lemma_well_formed();
            a.low.lemma_well_formed();
            a.high.lemma_well_formed();
            b.low.lemma_well_formed();
            b.high.lemma_well_formed();
        }
        let low = self.low.fused_multiply_add(a.low, b.low);
        let high = self.high.fused_multiply_add(a.high, b.high);
        let r = F32x8 { low, high, size: self.size };
        proof {
            r.low.lemma_well_formed();
            r.high.lemma_well_formed();
        }
        r
    }

    fn fused_multiply_sub(self, a: Self, b: Self) -> (r: Self) {
        proof {
            self.low.lemma_well_formed();
            self.high.lemma_well_formed();
            a.low.lemma_well_formed();
            a.high.lemma_well_formed();
            b.low.lemma_well_formed();
            b.high.lemma_well_formed();
        }
        let low = self.low.fused_multiply_sub(a.low, b.low);
        let high = self.high.fused_multiply_sub(a.high, b.high);
        let r = F32x8 { low, high, size: self.size };
        proof {
            r.low.lemma_well_formed();
            r.high.lemma_well_formed();
        }
        r
    }
}

impl F32x8 {
    /// Register-level add: dispatches to the plain add for full operands and
    /// to the masked add for partial operands, as the state protocol asks.
    pub fn add(self, rhs: Self) -> (r: Self)
        requires
            self.well_formed(),
            rhs.well_formed(),
            self.logical_size() == rhs.logical_size(),
        ensures
            r.well_formed(),
            r.logical_size() == self.logical_size(),
            forall|i: int|
                0 <= i < self.logical_size()
                    ==> r.lanes()[i] == fadd(self.lanes()[i], rhs.lanes()[i]),
            forall|i: int|
                0 <= i < self.logical_size() && !is_nan_bits(self.lanes()[i])
                    && !is_nan_bits(rhs.lanes()[i])
                    ==> r.lanes()[i] == fadd(rhs.lanes()[i], self.lanes()[i]),
    {
        if self.size < SIZE {
            self.simd_mask_add(rhs)
        } else {
            self.simd_add(rhs)
        }
    }
}

} // verus!
