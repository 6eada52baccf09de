//! The capability selection record and the driver built on it. The selection
//! — a lane width and an instruction family — is resolved once, before any
//! array operation, and injected into the driver as a constructor parameter;
//! a pair with no implementation is rejected at resolution, never silently
//! compiled into a no-op.

use vstd::prelude::*;
use crate::add::{pointwise_add, scalar_add, windowed_add};
use crate::fmops::{pointwise_fmadd, pointwise_fmsub, scalar_fmadd, scalar_fmsub, windowed_fmadd,
    windowed_fmsub};
use crate::f32x4::F32x4;
use crate::f32x8::F32x8;
use crate::f32x16::F32x16;
use crate::scalar::{fadd, is_nan_bits};

verus! {

/// The instruction family that backs the lane vectors of a build; `Baseline`
/// means no hardware vector path at all — plain scalar lanewise arithmetic
/// with no windowing.
#[derive(Clone, Copy, PartialEq, Eq, Structural, Debug)]
pub enum Family {
    Sse,
    Avx2,
    Avx512,
    Neon,
    Baseline,
}

/// Which `(width, family)` pairs have an implementation: each vector family
/// backs exactly its native register width, and the baseline backs every
/// supported width.
pub open spec fn valid_capability(width: usize, family: Family) -> bool {
    match family {
        Family::Sse => width == 4,
        Family::Neon => width == 4,
        Family::Avx2 => width == 8,
        Family::Avx512 => width == 16,
        Family::Baseline => width == 4 || width == 8 || width == 16,
    }
}

/// The one failure of capability resolution: the pair has no implementation.
#[derive(Clone, Copy, PartialEq, Eq, Structural, Debug)]
pub enum CapabilityError {
    UnsupportedCapability,
}

/// An immutable, resolved capability selection: a lane width in {4, 8, 16}
/// and the instruction family that backs it.
#[derive(Clone, Copy, PartialEq, Eq, Structural, Debug)]
pub struct Capability {
    width: usize,
    family: Family,
}

impl Capability {
    /// The resolved lane width.
    pub closed spec fn spec_width(&self) -> usize {
        self.width
    }

    /// The resolved instruction family.
    pub closed spec fn spec_family(&self) -> Family {
        self.family
    }

    /// Resolves a `(width, family)` pair: the pairs with an implementation
    /// are accepted, exactly the others are rejected.
    pub fn resolve(width: usize, family: Family) -> (r: Result<Capability, CapabilityError>)
        ensures
            valid_capability(width, family) ==> (r matches Ok(c) && c.spec_width() == width
                && c.spec_family() == family),
            !valid_capability(width, family) ==> r == Err::<Capability, CapabilityError>(
                CapabilityError::UnsupportedCapability,
            ),
    {
        let ok = match family {
            Family::Sse => width == 4,
            Family::Neon => width == 4,
            Family::Avx2 => width == 8,
            Family::Avx512 => width == 16,
            Family::Baseline => width == 4 || width == 8 || width == 16,
        };
        if ok {
            Ok(Capability { width, family })
        } else {
            Err(CapabilityError::UnsupportedCapability)
        }
    }

    /// The resolved lane width, as a run-time value.
    pub fn width(&self) -> (w: usize)
        ensures
            w == self.spec_width(),
    {
        self.width
    }

    /// The resolved instruction family, as a run-time value.
    pub fn family(&self) -> (f: Family)
        ensures
            f == self.spec_family(),
    {
        self.family
    }
}

/// The elementwise driver, bound to one resolved capability. Every
/// capability computes the same sums into the same positions; the selection
/// only decides which lane width carries them.
pub struct Driver {
    cap: Capability,
}

impl Driver {
    /// The capability this driver was built with.
    pub closed spec fn spec_capability(&self) -> Capability {
        self.cap
    }

    /// Builds a driver around a resolved capability.
    pub fn new(cap: Capability) -> (d: Driver)
        ensures
            d.spec_capability() == cap,
    {
        Driver { cap }
    }

    /// Elementwise addition of two equal-length arrays through the selected
    /// lane width, or scalar lanewise addition for the baseline family. The
    /// result does not depend on the selection; on lanes where neither
    /// operand is a NaN it does not depend on the operand order either.
    pub fn add(&self, a: &[u32], b: &[u32]) -> (r: Vec<u32>)
        requires
            a@.len() == b@.len(),
        ensures
            r@.len() == a@.len(),
            r@ == pointwise_add(a@, b@),
            forall|i: int|
                0 <= i < a@.len() && !is_nan_bits(a@[i]) && !is_nan_bits(b@[i])
                    ==> r@[i] == fadd(b@[i], a@[i]),
    {
        if matches!(self.cap.family(), Family::Baseline) {
            scalar_add(a, b)
        } else {
            let w = self.cap.width();
            if w == 4 {
                windowed_add::<F32x4>(a, b)
            } else if w == 8 {
                windowed_add::<F32x8>(a, b)
            } else {
                windowed_add::<F32x16>(a, b)
            }
        }
    }

    /// Elementwise fused `(a * b) + c` through the selected lane width.
    pub fn fmadd(&self, a: &[u32], b: &[u32], c: &[u32]) -> (r: Vec<u32>)
        requires
            a@.len() == b@.len(),
            a@.len() == c@.len(),
        ensures
            r@.len() == a@.len(),
            r@ == pointwise_fmadd(a@, b@, c@),
    {
        if matches!(self.cap.family(), Family::Baseline) {
            return scalar_fmadd(a, b, c);
        }
        let w = self.cap.width();
        if w == 4 {
            windowed_fmadd::<F32x4>(a, b, c)
        } else if w == 8 {
            windowed_fmadd::<F32x8>(a, b, c)
        } else {
            windowed_fmadd::<F32x16>(a, b, c)
        }
    }

    /// Elementwise fused `(a * b) - c` through the selected lane width.
    pub fn fmsub(&self, a: &[u32], b: &[u32], c: &[u32]) -> (r: Vec<u32>)
        requires
            a@.len() == b@.len(),
            a@.len() == c@.len(),
        ensures
            r@.len() == a@.len(),
            r@ == pointwise_fmsub(a@, b@, c@),
    {
        if matches!(self.cap.family(), Family::Baseline) {
            return scalar_fmsub(a, b, c);
        }
        let w = self.cap.width();
        if w == 4 {
            windowed_fmsub::<F32x4>(a, b, c)
        } else if w == 8 {
            windowed_fmsub::<F32x8>(a, b, c)
        } else {
            windowed_fmsub::<F32x16>(a, b, c)
        }
    }
}

} // verus!
