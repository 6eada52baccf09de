//! The fused-multiply extension point: `(a * b) + c` and `(a * b) - c`
//! elementwise over equal-length arrays, with the same windowing and
//! full/partial protocol as the add driver, at every lane width.

use vstd::prelude::*;
use vstd::slice::slice_subrange;
use crate::scalar::{ffmadd, ffmsub};
use crate::simd_vec::{SimdVec, filled_lanes};
use crate::f32x16::F32x16;

verus! {

/// The elementwise fused `(a * b) + c` of three equal-length lane sequences.
pub open spec fn pointwise_fmadd(a: Seq<u32>, b: Seq<u32>, c: Seq<u32>) -> Seq<u32> {
    Seq::new(a.len(), |i: int| ffmadd(a[i], b[i], c[i]))
}

/// The elementwise fused `(a * b) - c` of three equal-length lane sequences.
pub open spec fn pointwise_fmsub(a: Seq<u32>, b: Seq<u32>, c: Seq<u32>) -> Seq<u32> {
    Seq::new(a.len(), |i: int| ffmsub(a[i], b[i], c[i]))
}

/// Computes `(a * b) + c` elementwise through lane vectors of width
/// `V::width()`: full windows through the full path, the trailing short
/// window through the partial path.
pub fn windowed_fmadd<V: SimdVec>(a: &[u32], b: &[u32], c: &[u32]) -> (r: Vec<u32>)
    requires
        a@.len() == b@.len(),
        a@.len() == c@.len(),
    ensures
        r@.len() == a@.len(),
        r@ == pointwise_fmadd(a@, b@, c@),
{
    let w = V::width_val();
    let n = a.len();
    let mut out = filled_lanes(0, n);
    let mut i: usize = 0;
    while n - i >= w
        invariant
            i <= n,
            n == a@.len(),
            a@.len() == b@.len(),
            a@.len() == c@.len(),
            w as nat == V::width(),
            1 <= w,
            out@.len() == n,
            forall|j: int| 0 <= j < i ==> out@[j] == ffmadd(a@[j], b@[j], c@[j]),
        decreases n - i,
    {
        let sa = slice_subrange(a, i, n);
        let sb = slice_subrange(b, i, n);
        let sc = slice_subrange(c, i, n);
        let va = V::load(sa, w);
        let vb = V::load(sb, w);
        let vc = V::load(sc, w);
        let vr = vc.fused_multiply_add(va, vb);
        vr.store_at(&mut out, i);
        proof {
            assert forall|j: int| 0 <= j < i + w implies out@[j] == ffmadd(
                a@[j],
                b@[j],
                c@[j],
            ) by {
                if i <= j {
                    let k = j - i;
                    assert(out@[i + k] == vr.lanes()[k]);
                    assert(va.lanes()[k] == sa@[k] && sb@[k] == b@[j] && sc@[k] == c@[j]);
                }
            }
        }
        i += w;
    }
    if i < n {
        let size = n - i;
        let sa = slice_subrange(a, i, n);
        let sb = slice_subrange(b, i, n);
        let sc = slice_subrange(c, i, n);
        let va = V::load_partial(sa, size);
        let vb = V::load_partial(sb, size);
        let vc = V::load_partial(sc, size);
        let vr = vc.fused_multiply_add(va, vb);
        vr.store_at_partial(&mut out, i);
        proof {
            assert forall|j: int| 0 <= j < n implies out@[j] == ffmadd(a@[j], b@[j], c@[j]) by {
                if i <= j {
                    let k = j - i;
                    assert(out@[i + k] == vr.lanes()[k]);
                    assert(va.lanes()[k] == sa@[k] && sb@[k] == b@[j] && sc@[k] == c@[j]);
                }
            }
        }
    }
    proof {
        assert(out@ =~= pointwise_fmadd(a@, b@, c@));
    }
    out
}

/// Computes `(a * b) - c` elementwise through lane vectors of width
/// `V::width()`, with the same windowing as `windowed_fmadd`.
pub fn windowed_fmsub<V: SimdVec>(a: &[u32], b: &[u32], c: &[u32]) -> (r: Vec<u32>)
    requires
        a@.len() == b@.len(),
        a@.len() == c@.len(),
    ensures
        r@.len() == a@.len(),
        r@ == pointwise_fmsub(a@, b@, c@),
{
    let w = V::width_val();
    let n = a.len();
    let mut out = filled_lanes(0, n);
    let mut i: usize = 0;
    while n - i >= w
        invariant
            i <= n,
            n == a@.len(),
            a@.len() == b@.len(),
            a@.len() == c@.len(),
            w as nat == V::width(),
            1 <= w,
            out@.len() == n,
            forall|j: int| 0 <= j < i ==> out@[j] == ffmsub(a@[j], b@[j], c@[j]),
        decreases n - i,
    {
        let sa = slice_subrange(a, i, n);
        let sb = slice_subrange(b, i, n);
        let sc = slice_subrange(c, i, n);
        let va = V::load(sa, w);
        let vb = V::load(sb, w);
        let vc = V::load(sc, w);
        let vr = vc.fused_multiply_sub(va, vb);
        vr.store_at(&mut out, i);
        proof {
            assert forall|j: int| 0 <= j < i + w implies out@[j] == ffmsub(
                a@[j],
                b@[j],
                c@[j],
            ) by {
                if i <= j {
                    let k = j - i;
                    assert(out@[i + k] == vr.lanes()[k]);
                    assert(va.lanes()[k] == sa@[k] && sb@[k] == b@[j] && sc@[k] == c@[j]);
                }
            }
        }
        i += w;
    }
    if i < n {
        let size = n - i;
        let sa = slice_subrange(a, i, n);
        let sb = slice_subrange(b, i, n);
        let sc = slice_subrange(c, i, n);
        let va = V::load_partial(sa, size);
        let vb = V::load_partial(sb, size);
        let vc = V::load_partial(sc, size);
        let vr = vc.fused_multiply_sub(va, vb);
        vr.store_at_partial(&mut out, i);
        proof {
            assert forall|j: int| 0 <= j < n implies out@[j] == ffmsub(a@[j], b@[j], c@[j]) by {
                if i <= j {
                    let k = j - i;
                    assert(out@[i + k] == vr.lanes()[k]);
                    assert(va.lanes()[k] == sa@[k] && sb@[k] == b@[j] && sc@[k] == c@[j]);
                }
            }
        }
    }
    proof {
        assert(out@ =~= pointwise_fmsub(a@, b@, c@));
    }
    out
}

/// Plain scalar fused `(a * b) + c`, for the baseline capability without a
/// hardware vector path: no windowing at all.
pub fn scalar_fmadd(a: &[u32], b: &[u32], c: &[u32]) -> (r: Vec<u32>)
    requires
        a@.len() == b@.len(),
        a@.len() == c@.len(),
    ensures
        r@.len() == a@.len(),
        r@ == pointwise_fmadd(a@, b@, c@),
{
    let n = a.len();
    let mut out: Vec<u32> = Vec::new();
    let mut i: usize = 0;
    while i < n
        invariant
            i <= n,
            n == a@.len(),
            a@.len() == b@.len(),
            a@.len() == c@.len(),
            out@.len() == i,
            forall|j: int| 0 <= j < i ==> out@[j] == ffmadd(a@[j], b@[j], c@[j]),
        decreases n - i,
    {
        out.push(crate::scalar::mul_add_bits(a[i], b[i], c[i]));
        i += 1;
    }
    proof {
        assert(out@ =~= pointwise_fmadd(a@, b@, c@));
    }
    out
}

/// Plain scalar fused `(a * b) - c`, for the baseline capability without a
/// hardware vector path: no windowing at all.
pub fn scalar_fmsub(a: &[u32], b: &[u32], c: &[u32]) -> (r: Vec<u32>)
    requires
        a@.len() == b@.len(),
        a@.len() == c@.len(),
    ensures
        r@.len() == a@.len(),
        r@ == pointwise_fmsub(a@, b@, c@),
{
    let n = a.len();
    let mut out: Vec<u32> = Vec::new();
    let mut i: usize = 0;
    while i < n
        invariant
            i <= n,
            n == a@.len(),
            a@.len() == b@.len(),
            a@.len() == c@.len(),
            out@.len() == i,
            forall|j: int| 0 <= j < i ==> out@[j] == ffmsub(a@[j], b@[j], c@[j]),
        decreases n - i,
    {
        out.push(crate::scalar::mul_sub_bits(a[i], b[i], c[i]));
        i += 1;
    }
    proof {
        assert(out@ =~= pointwise_fmsub(a@, b@, c@));
    }
    out
}

/// Elementwise fused `(a * b) + c` over equal-length arrays, windowed at the
/// widest lane width.
pub fn fmadd_slices(a: &[u32], b: &[u32], c: &[u32]) -> (r: Vec<u32>)
    requires
        a@.len() == b@.len(),
        a@.len() == c@.len(),
    ensures
        r@.len() == a@.len(),
        r@ == pointwise_fmadd(a@, b@, c@),
{
    windowed_fmadd::<F32x16>(a, b, c)
}

/// Elementwise fused `(a * b) - c` over equal-length arrays, windowed at the
/// widest lane width.
pub fn fmsub_slices(a: &[u32], b: &[u32], c: &[u32]) -> (r: Vec<u32>)
    requires
        a@.len() == b@.len(),
        a@.len() == c@.len(),
    ensures
        r@.len() == a@.len(),
        r@ == pointwise_fmsub(a@, b@, c@),
{
    windowed_fmsub::<F32x16>(a, b, c)
}

/// The fused multiply operations as methods on array-like operands; the
/// receiver is the addend `c`.
pub trait FusedMultiplyOps<Rhs>: Sized {
    /// The lane sequence of the receiver (the addend).
    spec fn addend_seq(self) -> Seq<u32>;

    /// The lane sequence of a factor operand.
    spec fn factor_seq(operand: Rhs) -> Seq<u32>;

    /// Computes `(a * b) + self` elementwise in a single fused operation.
    fn fmadd(self, a: Rhs, b: Rhs) -> (r: Vec<u32>)
        requires
            self.addend_seq().len() == Self::factor_seq(a).len(),
            self.addend_seq().len() == Self::factor_seq(b).len(),
        ensures
            r@.len() == self.addend_seq().len(),
            r@ == pointwise_fmadd(Self::factor_seq(a), Self::factor_seq(b), self.addend_seq()),
    ;

    /// Computes `(a * b) - self` elementwise in a single fused operation.
    fn fmsub(self, a: Rhs, b: Rhs) -> (r: Vec<u32>)
        requires
            self.addend_seq().len() == Self::factor_seq(a).len(),
            self.addend_seq().len() == Self::factor_seq(b).len(),
        ensures
            r@.len() == self.addend_seq().len(),
            r@ == pointwise_fmsub(Self::factor_seq(a), Self::factor_seq(b), self.addend_seq()),
    ;
}

impl FusedMultiplyOps<Vec<u32>> for Vec<u32> {
    open spec fn addend_seq(self) -> Seq<u32> {
        self@
    }

    open spec fn factor_seq(operand: Vec<u32>) -> Seq<u32> {
        operand@
    }

    fn fmadd(self, a: Vec<u32>, b: Vec<u32>) -> (r: Vec<u32>) {
        fmadd_slices(a.as_slice(), b.as_slice(), self.as_slice())
    }

    fn fmsub(self, a: Vec<u32>, b: Vec<u32>) -> (r: Vec<u32>) {
        fmsub_slices(a.as_slice(), b.as_slice(), self.as_slice())
    }
}

impl<'r> FusedMultiplyOps<&'r [u32]> for &[u32] {
    open spec fn addend_seq(self) -> Seq<u32> {
        self@
    }

    open spec fn factor_seq(operand: &'r [u32]) -> Seq<u32> {
        operand@
    }

    fn fmadd(self, a: &'r [u32], b: &'r [u32]) -> (r: Vec<u32>) {
        fmadd_slices(a, b, self)
    }

    fn fmsub(self, a: &'r [u32], b: &'r [u32]) -> (r: Vec<u32>) {
        fmsub_slices(a, b, self)
    }
}

} // verus!
