use arithmetics::add::{add_slices, add_strict, add_window, add_zero_extend, par_add_slices,
    SimdAdd};
use arithmetics::capability::{Capability, CapabilityError, Driver, Family};
use arithmetics::fmops::{fmadd_slices, fmsub_slices, FusedMultiplyOps};

fn bits_of(xs: &[f32]) -> Vec<u32> {
    xs.iter().map(|x| x.to_bits()).collect()
}

#[test]
fn add_exact_multiple_of_width_eight() {
    let a = bits_of(&[1.0, 2.0, 3.0, 4.0, 5.0, 6.0, 7.0, 8.0]);
    let b = bits_of(&[10.0, 20.0, 30.0, 40.0, 50.0, 60.0, 70.0, 80.0]);
    let r = add_slices(&a, &b);
    assert_eq!(r, bits_of(&[11.0, 22.0, 33.0, 44.0, 55.0, 66.0, 77.0, 88.0]));
}

#[test]
fn add_length_five() {
    let a = bits_of(&[1.0, 2.0, 3.0, 4.0, 5.0]);
    let b = bits_of(&[10.0, 20.0, 30.0, 40.0, 50.0]);
    let r = add_slices(&a, &b);
    assert_eq!(r, bits_of(&[11.0, 22.0, 33.0, 44.0, 55.0]));
}

#[test]
fn add_one_window_plus_remainder() {
    let a = bits_of(&vec![1.0f32; 17]);
    let b = bits_of(&vec![2.0f32; 17]);
    let r = add_slices(&a, &b);
    assert_eq!(r, bits_of(&vec![3.0f32; 17]));
}

#[test]
fn add_empty() {
    let a: Vec<u32> = Vec::new();
    let b: Vec<u32> = Vec::new();
    let r = add_slices(&a, &b);
    assert_eq!(r, Vec::<u32>::new());
}

#[test]
fn fmadd_two_lanes() {
    let a = bits_of(&[4.0, 4.0]);
    let b = bits_of(&[2.0, 2.0]);
    let c = bits_of(&[0.0, 0.0]);
    let r = fmadd_slices(&a, &b, &c);
    assert_eq!(r, bits_of(&[8.0, 8.0]));
}

#[test]
fn fmsub_two_lanes() {
    let a = bits_of(&[4.0, 2.0]);
    let b = bits_of(&[2.0, 3.0]);
    let c = bits_of(&[1.0, 10.0]);
    let r = fmsub_slices(&a, &b, &c);
    assert_eq!(r, bits_of(&[7.0, -4.0]));
}

#[test]
fn result_length_matches_input_length() {
    for n in 0..=48usize {
        let a: Vec<f32> = (0..n).map(|i| i as f32).collect();
        let b: Vec<f32> = (0..n).map(|i| (2 * i) as f32).collect();
        let (ab, bb) = (bits_of(&a), bits_of(&b));
        assert_eq!(add_slices(&ab, &bb).len(), n);
        assert_eq!(par_add_slices(&ab, &bb).len(), n);
    }
}

#[test]
fn add_matches_scalar_float_addition() {
    let specials = [
        0.0f32, -0.0, 1.0, -1.0, 0.5, 1.5, 0.1, 0.2, 1e30, -1e30, 1e-30, 3.4e38, -3.4e38, 1e-45,
        -1e-45, f32::INFINITY, f32::NEG_INFINITY, f32::MIN_POSITIVE, 123456.789, -0.000123,
    ];
    let mut a: Vec<f32> = Vec::new();
    let mut b: Vec<f32> = Vec::new();
    for x in specials.iter() {
        for y in specials.iter() {
            // An oppositely-signed pair of infinities sums to a NaN, whose
            // payload bits are not pinned down; every other pair here is.
            if !(x.is_infinite() && y.is_infinite() && x.is_sign_positive() != y.is_sign_positive())
            {
                a.push(*x);
                b.push(*y);
            }
        }
    }
    let r = add_slices(&bits_of(&a), &bits_of(&b));
    for i in 0..a.len() {
        let expect = (a[i] + b[i]).to_bits();
        assert_eq!(r[i], expect, "lane {}: {} + {}", i, a[i], b[i]);
    }
}

#[test]
fn add_commutes_elementwise() {
    let a: Vec<f32> = (0..37).map(|i| (i as f32) * 0.37 - 5.0).collect();
    let b: Vec<f32> = (0..37).map(|i| (i as f32) * -1.13 + 2.0).collect();
    let (ab, bb) = (bits_of(&a), bits_of(&b));
    assert_eq!(add_slices(&ab, &bb), add_slices(&bb, &ab));
}

#[test]
fn partial_window_isolation() {
    let n = 21usize;
    let a: Vec<f32> = (0..n).map(|i| (i as f32) * 1.25 + 0.1).collect();
    let b: Vec<f32> = (0..n).map(|i| (i as f32) * -0.75 + 10.0).collect();
    let (ab, bb) = (bits_of(&a), bits_of(&b));
    let whole = add_slices(&ab, &bb);
    let head = add_slices(&ab[..16], &bb[..16]);
    let tail = add_slices(&ab[16..], &bb[16..]);
    assert_eq!(&whole[..16], &head[..]);
    assert_eq!(&whole[16..], &tail[..]);
}

#[test]
fn parallel_add_matches_sequential_add() {
    let a: Vec<f32> = (0..1000).map(|i| (i as f32) * 0.001 - 0.3).collect();
    let b: Vec<f32> = (0..1000).map(|i| (i as f32) * -0.002 + 7.0).collect();
    let (ab, bb) = (bits_of(&a), bits_of(&b));
    assert_eq!(par_add_slices(&ab, &bb), add_slices(&ab, &bb));
}

#[test]
fn add_window_single_chunk() {
    let a = bits_of(&[1.0, 2.0, 3.0]);
    let b = bits_of(&[0.5, 0.25, 0.125]);
    let r = add_window(&a, &b);
    assert_eq!(r, bits_of(&[1.5, 2.25, 3.125]));
}

#[test]
fn strict_add_equals_core_add() {
    let a = bits_of(&[1.0, -2.0, 3.5]);
    let b = bits_of(&[4.0, 5.0, -6.5]);
    assert_eq!(add_strict(&a, &b), add_slices(&a, &b));
}

#[test]
fn zero_extend_pads_shorter_operand() {
    let a = bits_of(&[1.0, 2.0, 3.0]);
    let b = bits_of(&[10.0]);
    let r = add_zero_extend(&a, &b);
    assert_eq!(r, bits_of(&[11.0, 2.0, 3.0]));
    let r2 = add_zero_extend(&b, &a);
    assert_eq!(r2, bits_of(&[11.0, 2.0, 3.0]));
    let r3 = add_zero_extend(&[], &[]);
    assert_eq!(r3, Vec::<u32>::new());
}

#[test]
fn simd_add_trait_on_vec_and_slices() {
    let a = bits_of(&[1.0, 2.0]);
    let b = bits_of(&[3.0, 4.0]);
    let from_vec = a.clone().simd_add(b.clone());
    assert_eq!(from_vec, bits_of(&[4.0, 6.0]));
    let from_slices = a.as_slice().simd_add(b.as_slice());
    assert_eq!(from_slices, bits_of(&[4.0, 6.0]));
}

#[test]
fn fused_multiply_trait_on_vec_and_slices() {
    let a = bits_of(&[4.0, 4.0]);
    let b = bits_of(&[2.0, 2.0]);
    let c = bits_of(&[1.0, -1.0]);
    assert_eq!(c.clone().fmadd(a.clone(), b.clone()), bits_of(&[9.0, 7.0]));
    assert_eq!(c.clone().fmsub(a.clone(), b.clone()), bits_of(&[7.0, 9.0]));
    assert_eq!(c.as_slice().fmadd(a.as_slice(), b.as_slice()), bits_of(&[9.0, 7.0]));
    assert_eq!(c.as_slice().fmsub(a.as_slice(), b.as_slice()), bits_of(&[7.0, 9.0]));
}

#[test]
fn fmadd_is_fused_not_two_roundings() {
    // With x = 1 + 2^-13, the square 1 + 2^-12 + 2^-26 rounds its lowest bit
    // away when the multiplication rounds on its own, but x*x - 1 keeps it
    // when multiply and add round once together.
    let x = 1.0f32 + (2.0f32).powi(-13);
    let a = [x];
    let b = [x];
    let c = [-1.0f32];
    let r = fmadd_slices(&bits_of(&a), &bits_of(&b), &bits_of(&c));
    let fused = x.mul_add(x, -1.0f32);
    let two_roundings = (x * x) - 1.0f32;
    assert_eq!(r[0], fused.to_bits());
    assert_ne!(fused.to_bits(), two_roundings.to_bits());
}

#[test]
fn capability_resolution_accepts_implemented_pairs() {
    for (w, f) in [
        (4usize, Family::Sse),
        (4, Family::Neon),
        (8, Family::Avx2),
        (16, Family::Avx512),
        (4, Family::Baseline),
        (8, Family::Baseline),
        (16, Family::Baseline),
    ] {
        let cap = Capability::resolve(w, f).unwrap();
        assert_eq!(cap.width(), w);
        assert_eq!(cap.family(), f);
    }
}

#[test]
fn capability_resolution_rejects_unimplemented_pairs() {
    for (w, f) in [
        (8usize, Family::Sse),
        (16, Family::Neon),
        (4, Family::Avx2),
        (8, Family::Avx512),
        (5, Family::Baseline),
        (0, Family::Baseline),
        (32, Family::Avx512),
    ] {
        assert_eq!(Capability::resolve(w, f), Err(CapabilityError::UnsupportedCapability));
    }
}

#[test]
fn every_capability_computes_the_same_sums() {
    let n = 27usize;
    let a: Vec<f32> = (1..=n).map(|i| i as f32).collect();
    let b: Vec<f32> = (1..=n).map(|i| (i as f32) * 0.5).collect();
    let (ab, bb) = (bits_of(&a), bits_of(&b));
    let reference = add_slices(&ab, &bb);
    for (w, f) in [
        (4usize, Family::Sse),
        (4, Family::Neon),
        (8, Family::Avx2),
        (16, Family::Avx512),
        (8, Family::Baseline),
    ] {
        let driver = Driver::new(Capability::resolve(w, f).unwrap());
        assert_eq!(driver.add(&ab, &bb), reference);
    }
}

#[test]
fn driver_fused_ops_across_widths() {
    let n = 13usize;
    let a: Vec<f32> = (0..n).map(|i| (i as f32) + 0.5).collect();
    let b: Vec<f32> = (0..n).map(|i| (i as f32) * 2.0 - 3.0).collect();
    let c: Vec<f32> = (0..n).map(|i| (i as f32) * -0.25).collect();
    let (ab, bb, cb) = (bits_of(&a), bits_of(&b), bits_of(&c));
    let expect_add: Vec<u32> =
        (0..n).map(|i| a[i].mul_add(b[i], c[i]).to_bits()).collect();
    let expect_sub: Vec<u32> =
        (0..n).map(|i| a[i].mul_add(b[i], -c[i]).to_bits()).collect();
    for (w, f) in [
        (4usize, Family::Sse),
        (8, Family::Avx2),
        (16, Family::Avx512),
        (4, Family::Baseline),
    ] {
        let driver = Driver::new(Capability::resolve(w, f).unwrap());
        assert_eq!(driver.fmadd(&ab, &bb, &cb), expect_add);
        assert_eq!(driver.fmsub(&ab, &bb, &cb), expect_sub);
    }
}
