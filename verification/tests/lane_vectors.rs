use arithmetics::simd_vec::SimdVec;
use arithmetics::f32x4::F32x4;
use arithmetics::f32x8::F32x8;
use arithmetics::f32x16::F32x16;

fn bits_of(xs: &[f32]) -> Vec<u32> {
    xs.iter().map(|x| x.to_bits()).collect()
}

#[test]
fn splat_fills_every_lane() {
    let v = F32x4::splat(2.5f32.to_bits());
    assert_eq!(v.to_vec(), bits_of(&[2.5, 2.5, 2.5, 2.5]));
    let v8 = F32x8::splat(1.0f32.to_bits());
    assert_eq!(v8.to_vec(), bits_of(&vec![1.0f32; 8]));
    let v16 = F32x16::splat((-0.5f32).to_bits());
    assert_eq!(v16.to_vec(), bits_of(&vec![-0.5f32; 16]));
}

#[test]
fn new_truncates_longer_slices_and_keeps_shorter_ones() {
    let xs = bits_of(&[1.0, 2.0, 3.0, 4.0, 5.0, 6.0]);
    let v = F32x4::new(&xs);
    assert_eq!(v.to_vec(), bits_of(&[1.0, 2.0, 3.0, 4.0]));
    let w = F32x4::new(&xs[..2]);
    assert_eq!(w.to_vec(), bits_of(&[1.0, 2.0]));
}

#[test]
fn full_store_zero_fills_partial_lanes() {
    let xs = bits_of(&[7.0, 8.0]);
    let v = F32x4::load_partial(&xs, 2);
    assert_eq!(v.store(), bits_of(&[7.0, 8.0, 0.0, 0.0]));
    assert_eq!(v.store_partial(), bits_of(&[7.0, 8.0]));
}

#[test]
fn store_at_writes_exactly_one_window() {
    let xs = bits_of(&[1.0, 2.0, 3.0, 4.0]);
    let v = F32x4::load(&xs, 4);
    let canary = 0xCAFE_F00Du32;
    let mut buf = vec![canary; 8];
    v.store_at(&mut buf, 2);
    assert_eq!(buf[0], canary);
    assert_eq!(buf[1], canary);
    assert_eq!(&buf[2..6], &xs[..]);
    assert_eq!(buf[6], canary);
    assert_eq!(buf[7], canary);
}

#[test]
fn store_at_partial_never_writes_past_logical_size() {
    let xs = bits_of(&[1.0, 2.0, 3.0]);
    let v = F32x4::load_partial(&xs, 3);
    let canary = 0xDEAD_BEEFu32;
    let mut buf = vec![canary; 8];
    v.store_at_partial(&mut buf, 2);
    assert_eq!(buf[0], canary);
    assert_eq!(buf[1], canary);
    assert_eq!(&buf[2..5], &xs[..]);
    assert_eq!(buf[5], canary);
    assert_eq!(buf[6], canary);
    assert_eq!(buf[7], canary);
}

#[test]
fn wide_partial_store_guards_the_canary_too() {
    for size in 1..=15usize {
        let xs: Vec<u32> = (0..size).map(|i| ((i + 1) as f32).to_bits()).collect();
        let v = F32x16::load_partial(&xs, size);
        let canary = 0xABCD_0123u32;
        let mut buf = vec![canary; 20];
        v.store_at_partial(&mut buf, 1);
        assert_eq!(buf[0], canary);
        assert_eq!(&buf[1..1 + size], &xs[..]);
        for j in 1 + size..20 {
            assert_eq!(buf[j], canary, "position {} for size {}", j, size);
        }
    }
}

#[test]
fn composite_eight_wide_partials_cross_the_half_boundary() {
    for size in 1..=7usize {
        let xs: Vec<u32> = (0..size).map(|i| ((10 * (i + 1)) as f32).to_bits()).collect();
        let v = F32x8::load_partial(&xs, size);
        assert_eq!(v.to_vec(), xs, "round trip for size {}", size);
        let canary = 0x0BAD_CAFEu32;
        let mut buf = vec![canary; 12];
        v.store_at_partial(&mut buf, 3);
        assert_eq!(&buf[..3], &[canary; 3]);
        assert_eq!(&buf[3..3 + size], &xs[..]);
        for j in 3 + size..12 {
            assert_eq!(buf[j], canary, "position {} for size {}", j, size);
        }
    }
}

#[test]
fn register_add_full_and_partial() {
    let a = bits_of(&[1.0, 2.0, 3.0, 4.0, 5.0, 6.0, 7.0, 8.0]);
    let b = bits_of(&[0.5; 8]);
    let full = F32x8::load(&a, 8).simd_add(F32x8::load(&b, 8));
    assert_eq!(full.to_vec(), bits_of(&[1.5, 2.5, 3.5, 4.5, 5.5, 6.5, 7.5, 8.5]));
    let part = F32x8::load_partial(&a, 5).simd_add(F32x8::load_partial(&b, 5));
    assert_eq!(part.to_vec(), bits_of(&[1.5, 2.5, 3.5, 4.5, 5.5]));
    let masked = F32x16::load_partial(&a, 6).simd_mask_add(F32x16::load_partial(&b, 6));
    assert_eq!(masked.to_vec(), bits_of(&[1.5, 2.5, 3.5, 4.5, 5.5, 6.5]));
}

#[test]
fn register_fused_ops() {
    let a = bits_of(&[2.0, 3.0, 4.0]);
    let b = bits_of(&[5.0, 6.0, 7.0]);
    let c = bits_of(&[1.0, 1.0, 1.0]);
    let r = F32x4::load_partial(&c, 3)
        .fused_multiply_add(F32x4::load_partial(&a, 3), F32x4::load_partial(&b, 3));
    assert_eq!(r.to_vec(), bits_of(&[11.0, 19.0, 29.0]));
    let s = F32x4::load_partial(&c, 3)
        .fused_multiply_sub(F32x4::load_partial(&a, 3), F32x4::load_partial(&b, 3));
    assert_eq!(s.to_vec(), bits_of(&[9.0, 17.0, 27.0]));
}

#[test]
fn width_values() {
    assert_eq!(F32x4::width_val(), 4);
    assert_eq!(F32x8::width_val(), 8);
    assert_eq!(F32x16::width_val(), 16);
}
