//! The elementwise add driver: partitions two equal-length arrays into
//! contiguous windows of the lane width, adds each window through the lane
//! vector, and writes the results back in place — with the partial path for
//! the final short window. A parallel variant fans the windows out over a
//! worker pool; window order never affects which output slot a sum lands in.

use vstd::prelude::*;
use rayon::iter::{IndexedParallelIterator, ParallelIterator};
use rayon::slice::ParallelSlice;
use vstd::slice::slice_subrange;
use crate::scalar::{add_bits, fadd, is_nan_bits};
use crate::simd_vec::{SimdVec, copy_lanes, filled_lanes};
use crate::f32x16::F32x16;

verus! {

/// The elementwise IEEE 754 binary32 sum of two equal-length lane sequences.
pub open spec fn pointwise_add(a: Seq<u32>, b: Seq<u32>) -> Seq<u32> {
    Seq::new(a.len(), |i: int| fadd(a[i], b[i]))
}

/// A lane sequence zero-padded (or truncated) to length `n`.
pub open spec fn zero_extend(s: Seq<u32>, n: nat) -> Seq<u32> {
    Seq::new(n, |i: int| if i < s.len() { s[i] } else { 0u32 })
}

/// The concatenation of the elementwise sums of aligned chunks of width `w`:
/// what a chunk-by-chunk addition produces when the per-chunk results are
/// reassembled in chunk order.
pub open spec fn chunked_add(a: Seq<u32>, b: Seq<u32>, w: nat) -> Seq<u32>
    decreases a.len(),
{
    if w == 0 {
        Seq::empty()
    } else if a.len() <= w {
        pointwise_add(a, b)
    } else {
        pointwise_add(a.take(w as int), b.take(w as int)) + chunked_add(
            a.skip(w as int),
            b.skip(w as int),
            w,
        )
    }
}

/// Chunk-by-chunk addition of equal-length sequences reassembles to exactly
/// the elementwise sum, whatever the chunk width: windowing does not change
/// which operands meet and where the sum lands.
pub proof fn lemma_chunked_add_is_pointwise(a: Seq<u32>, b: Seq<u32>, w: nat)
    requires
        a.len() == b.len(),
        1 <= w,
    ensures
        chunked_add(a, b, w) == pointwise_add(a, b),
    decreases a.len(),
{
    if a.len() <= w {
    } else {
        lemma_chunked_add_is_pointwise(a.skip(w as int), b.skip(w as int), w);
        assert(chunked_add(a, b, w) =~= pointwise_add(a, b));
    }
}

/// Partial-window isolation: the first `k` elements of the elementwise sum
/// are exactly the elementwise sum of the first `k` elements alone, and the
/// trailing elements are exactly the elementwise sum of the trailing
/// elements alone — splitting a computation at a window boundary cannot
/// perturb any lane.
pub proof fn lemma_window_isolation(a: Seq<u32>, b: Seq<u32>, k: int)
    requires
        a.len() == b.len(),
        0 <= k <= a.len(),
    ensures
        pointwise_add(a, b).take(k) == pointwise_add(a.take(k), b.take(k)),
        pointwise_add(a, b).skip(k) == pointwise_add(a.skip(k), b.skip(k)),
{
    assert(pointwise_add(a, b).take(k) =~= pointwise_add(a.take(k), b.take(k)));
    assert(pointwise_add(a, b).skip(k) =~= pointwise_add(a.skip(k), b.skip(k)));
}

/// Adds two equal-length arrays through lane vectors of width `V::width()`:
/// full windows through the full load/add/store path, the trailing short
/// window (if any) through the partial path.
pub fn windowed_add<V: SimdVec>(a: &[u32], b: &[u32]) -> (r: Vec<u32>)
    requires
        a@.len() == b@.len(),
    ensures
        r@.len() == a@.len(),
        r@ == pointwise_add(a@, b@),
        forall|i: int|
            0 <= i < a@.len() && !is_nan_bits(a@[i]) && !is_nan_bits(b@[i])
                ==> r@[i] == fadd(b@[i], a@[i]),
{
    let w = V::width_val();
    let n = a.len();
    let mut out = filled_lanes(0, n);
    let mut i: usize = 0;
    while n - i >= w
        invariant
            i <= n,
            n == a@.len(),
            a@.len() == b@.len(),
            w as nat == V::width(),
            1 <= w,
            out@.len() == n,
            forall|j: int| 0 <= j < i ==> out@[j] == fadd(a@[j], b@[j]),
            forall|j: int|
                0 <= j < i && !is_nan_bits(a@[j]) && !is_nan_bits(b@[j])
                    ==> out@[j] == fadd(b@[j], a@[j]),
        decreases n - i,
    {
        let sa = slice_subrange(a, i, n);
        let sb = slice_subrange(b, i, n);
        let va = V::load(sa, w);
        let vb = V::load(sb, w);
        let vc = va.simd_add(vb);
        vc.store_at(&mut out, i);
        proof {
            assert forall|j: int| 0 <= j < i + w implies out@[j] == fadd(a@[j], b@[j]) by {
                if i <= j {
                    let k = j - i;
                    assert(out@[i + k] == vc.lanes()[k]);
                    assert(va.lanes()[k] == sa@[k] && sb@[k] == b@[j]);
                }
            }
            assert forall|j: int|
                0 <= j < i + w && !is_nan_bits(a@[j]) && !is_nan_bits(b@[j]) implies out@[j]
                == fadd(b@[j], a@[j]) by {
                if i <= j {
                    let k = j - i;
                    assert(out@[i + k] == vc.lanes()[k]);
                    assert(va.lanes()[k] == sa@[k] && sb@[k] == b@[j]);
                }
            }
        }
        i += w;
    }
    if i < n {
        let size = n - i;
        let sa = slice_subrange(a, i, n);
        let sb = slice_subrange(b, i, n);
        let va = V::load_partial(sa, size);
        let vb = V::load_partial(sb, size);
        let vc = va.simd_mask_add(vb);
        vc.store_at_partial(&mut out, i);
        proof {
            assert forall|j: int| 0 <= j < n implies out@[j] == fadd(a@[j], b@[j]) by {
                if i <= j {
                    let k = j - i;
                    assert(out@[i + k] == vc.lanes()[k]);
                    assert(va.lanes()[k] == sa@[k] && sb@[k] == b@[j]);
                }
            }
            assert forall|j: int|
                0 <= j < n && !is_nan_bits(a@[j]) && !is_nan_bits(b@[j]) implies out@[j] == fadd(
                b@[j],
                a@[j],
            ) by {
                if i <= j {
                    let k = j - i;
                    assert(out@[i + k] == vc.lanes()[k]);
                    assert(va.lanes()[k] == sa@[k] && sb@[k] == b@[j]);
                }
            }
        }
    }
    proof {
        assert(out@ =~= pointwise_add(a@, b@));
    }
    out
}

/// Plain scalar lanewise addition, for the baseline capability without a
/// hardware vector path: no windowing at all.
pub fn scalar_add(a: &[u32], b: &[u32]) -> (r: Vec<u32>)
    requires
        a@.len() == b@.len(),
    ensures
        r@.len() == a@.len(),
        r@ == pointwise_add(a@, b@),
        forall|i: int|
            0 <= i < a@.len() && !is_nan_bits(a@[i]) && !is_nan_bits(b@[i])
                ==> r@[i] == fadd(b@[i], a@[i]),
{
    let n = a.len();
    let mut out: Vec<u32> = Vec::new();
    let mut i: usize = 0;
    while i < n
        invariant
            i <= n,
            n == a@.len(),
            a@.len() == b@.len(),
            out@.len() == i,
            forall|j: int| 0 <= j < i ==> out@[j] == fadd(a@[j], b@[j]),
            forall|j: int|
                0 <= j < i && !is_nan_bits(a@[j]) && !is_nan_bits(b@[j])
                    ==> out@[j] == fadd(b@[j], a@[j]),
        decreases n - i,
    {
        out.push(add_bits(a[i], b[i]));
        i += 1;
    }
    proof {
        assert(out@ =~= pointwise_add(a@, b@));
    }
    out
}

/// Core elementwise addition over equal-length arrays, windowed at the
/// widest lane width: every output position holds the IEEE 754 binary32 sum
/// of the operand lanes at that position; on lanes where neither operand is
/// a NaN the sum does not depend on the operand order.
pub fn add_slices(a: &[u32], b: &[u32]) -> (r: Vec<u32>)
    requires
        a@.len() == b@.len(),
    ensures
        r@.len() == a@.len(),
        r@ == pointwise_add(a@, b@),
        forall|i: int|
            0 <= i < a@.len() && !is_nan_bits(a@[i]) && !is_nan_bits(b@[i])
                ==> r@[i] == fadd(b@[i], a@[i]),
{
    windowed_add::<F32x16>(a, b)
}

/// The strict policy on operand lengths: the caller must pass equal-length
/// arrays; a mismatch is a contract violation, not a runtime condition.
pub fn add_strict(a: &[u32], b: &[u32]) -> (r: Vec<u32>)
    requires
        a@.len() == b@.len(),
    ensures
        r@.len() == a@.len(),
        r@ == pointwise_add(a@, b@),
        forall|i: int|
            0 <= i < a@.len() && !is_nan_bits(a@[i]) && !is_nan_bits(b@[i])
                ==> r@[i] == fadd(b@[i], a@[i]),
{
    add_slices(a, b)
}

/// The zero-extending policy on operand lengths: the shorter array is
/// zero-padded to the longer length before the addition, so the result has
/// the longer length and every position holds the sum of the (padded)
/// operand lanes.
pub fn add_zero_extend(a: &[u32], b: &[u32]) -> (r: Vec<u32>)
    ensures
        r@.len() == (if a@.len() >= b@.len() {
            a@.len()
        } else {
            b@.len()
        }),
        r@ == pointwise_add(zero_extend(a@, r@.len()), zero_extend(b@, r@.len())),
{
    let n = if a.len() >= b.len() {
        a.len()
    } else {
        b.len()
    };
    let ea = copy_lanes(a, a.len(), n);
    let eb = copy_lanes(b, b.len(), n);
    proof {
        assert(ea@ =~= zero_extend(a@, n as nat));
        assert(eb@ =~= zero_extend(b@, n as nat));
    }
    add_slices(ea.as_slice(), eb.as_slice())
}

/// Elementwise addition as a method on array-like operands, with the strict
/// length policy.
pub trait SimdAdd<Rhs>: Sized {
    /// The lane sequence of the left operand.
    spec fn lhs_seq(self) -> Seq<u32>;

    /// The lane sequence of the right operand.
    spec fn rhs_seq(rhs: Rhs) -> Seq<u32>;

    /// Elementwise IEEE 754 binary32 addition of two equal-length operands.
    fn simd_add(self, rhs: Rhs) -> (r: Vec<u32>)
        requires
            self.lhs_seq().len() == Self::rhs_seq(rhs).len(),
        ensures
            r@.len() == self.lhs_seq().len(),
            r@ == pointwise_add(self.lhs_seq(), Self::rhs_seq(rhs)),
    ;
}

impl SimdAdd<Vec<u32>> for Vec<u32> {
    open spec fn lhs_seq(self) -> Seq<u32> {
        self@
    }

    open spec fn rhs_seq(rhs: Vec<u32>) -> Seq<u32> {
        rhs@
    }

    fn simd_add(self, rhs: Vec<u32>) -> (r: Vec<u32>) {
        add_slices(self.as_slice(), rhs.as_slice())
    }
}

impl<'r> SimdAdd<&'r [u32]> for &[u32] {
    open spec fn lhs_seq(self) -> Seq<u32> {
        self@
    }

    open spec fn rhs_seq(rhs: &'r [u32]) -> Seq<u32> {
        rhs@
    }

    fn simd_add(self, rhs: &'r [u32]) -> (r: Vec<u32>) {
        add_slices(self, rhs)
    }
}

/// One window of the chunked addition: the elementwise sum of two aligned
/// chunks of at most one lane-vector width.
pub fn add_window(x: &[u32], y: &[u32]) -> (r: Vec<u32>)
    requires
        x@.len() == y@.len(),
        1 <= x@.len() <= 16,
    ensures
        r@ == pointwise_add(x@, y@),
{
    let vx = F32x16::new(x);
    let vy = F32x16::new(y);
    let vz = vx.add(vy);
    let r = vz.to_vec();
    proof {
        vz.lemma_well_formed();
        assert(r@ =~= pointwise_add(x@, y@));
    }
    r
}

/// Relies on rayon's `par_chunks`, `zip_eq`, `map`, `flatten` and `collect`:
/// the two slices have equal length, so their width-`w` chunk sequences are
/// aligned one to one, and collecting an indexed parallel iterator into a
/// `Vec` keeps chunk order whatever the execution order, so the result is
/// the in-order concatenation of `add_window` over the aligned chunk pairs.
#[verifier::external_body]
fn par_add_chunks(a: &[u32], b: &[u32], w: usize) -> (r: Vec<u32>)
    requires
        a@.len() == b@.len(),
        1 <= w <= 16,
    ensures
        r@ == chunked_add(a@, b@, w as nat),
{
    a.par_chunks(w).zip_eq(b.par_chunks(w)).map(|(x, y)| add_window(x, y)).flatten().collect()
}

/// Elementwise addition with the windows fanned out across independent
/// workers: the same result as `add_slices`, in the same positions,
/// whatever order the workers finish in.
pub fn par_add_slices(a: &[u32], b: &[u32]) -> (r: Vec<u32>)
    requires
        a@.len() == b@.len(),
    ensures
        r@.len() == a@.len(),
        r@ == pointwise_add(a@, b@),
{
    let r = par_add_chunks(a, b, crate::f32x16::SIZE);
    proof {
        lemma_chunked_add_is_pointwise(a@, b@, 16);
    }
    r
}

} // verus!
