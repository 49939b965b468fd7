use window_embedder::binary::{Binary32, Binary64};

fn next_word(state: &mut u64) -> u64 {
    let mut x = *state;
    x ^= x << 13;
    x ^= x >> 7;
    x ^= x << 17;
    *state = x;
    x
}

fn pixel_of(value: f64) -> i32 {
    Binary64(value.to_bits()).truncate()
}

fn narrow_of(value: f64) -> f32 {
    f32::from_bits(Binary64(value.to_bits()).narrow().0)
}

fn times_of(value: f32, factor: u16) -> f32 {
    f32::from_bits(Binary32(value.to_bits()).multiply(factor).0)
}

#[test]
fn truncate_cuts_toward_zero() {
    assert_eq!(pixel_of(0.0), 0);
    assert_eq!(pixel_of(-0.0), 0);
    assert_eq!(pixel_of(0.999), 0);
    assert_eq!(pixel_of(-0.999), 0);
    assert_eq!(pixel_of(1.0), 1);
    assert_eq!(pixel_of(1.5), 1);
    assert_eq!(pixel_of(-1.5), -1);
    assert_eq!(pixel_of(123.75), 123);
    assert_eq!(pixel_of(-123.75), -123);
    assert_eq!(pixel_of(799.999999), 799);
}

#[test]
fn truncate_saturates_at_the_ends_of_i32() {
    assert_eq!(pixel_of(2147483647.0), i32::MAX);
    assert_eq!(pixel_of(2147483647.5), i32::MAX);
    assert_eq!(pixel_of(2147483648.0), i32::MAX);
    assert_eq!(pixel_of(1.0e300), i32::MAX);
    assert_eq!(pixel_of(f64::INFINITY), i32::MAX);
    assert_eq!(pixel_of(-2147483648.0), i32::MIN);
    assert_eq!(pixel_of(-2147483648.5), i32::MIN);
    assert_eq!(pixel_of(-2147483649.0), i32::MIN);
    assert_eq!(pixel_of(-1.0e300), i32::MIN);
    assert_eq!(pixel_of(f64::NEG_INFINITY), i32::MIN);
    assert_eq!(pixel_of(-2147483647.5), -2147483647);
}

#[test]
fn truncate_gives_zero_for_nan_and_tiny_values() {
    assert_eq!(pixel_of(f64::NAN), 0);
    assert_eq!(Binary64(0x7ff0_0000_0000_0001).truncate(), 0);
    assert_eq!(Binary64(0xfff8_0000_0000_0000).truncate(), 0);
    assert_eq!(pixel_of(f64::MIN_POSITIVE), 0);
    assert_eq!(Binary64(1).truncate(), 0);
    assert_eq!(Binary64(0x8000_0000_0000_0001).truncate(), 0);
}

#[test]
fn truncate_agrees_with_the_machine_cast() {
    let mut state: u64 = 0x9e37_79b9_7f4a_7c15;
    let mut i: u32 = 0;
    while i < 200_000 {
        let bits = next_word(&mut state);
        assert_eq!(Binary64(bits).truncate(), f64::from_bits(bits) as i32, "bits {:#x}", bits);
        i += 1;
    }
}

#[test]
fn truncate_agrees_with_the_machine_cast_near_pixels() {
    let mut state: u64 = 0x0123_4567_89ab_cdef;
    let mut i: u32 = 0;
    while i < 200_000 {
        let word = next_word(&mut state);
        let value = ((word >> 20) as f64) / 4096.0 - 2200000000.0;
        assert_eq!(pixel_of(value), value as i32, "value {}", value);
        i += 1;
    }
}

#[test]
fn narrow_keeps_what_binary32_can_hold() {
    assert_eq!(narrow_of(0.0).to_bits(), 0.0f32.to_bits());
    assert_eq!(narrow_of(-0.0).to_bits(), (-0.0f32).to_bits());
    assert_eq!(narrow_of(1.0), 1.0f32);
    assert_eq!(narrow_of(-2.5), -2.5f32);
    assert_eq!(narrow_of(640.25), 640.25f32);
    assert_eq!(narrow_of(f64::INFINITY), f32::INFINITY);
    assert_eq!(narrow_of(f64::NEG_INFINITY), f32::NEG_INFINITY);
}

#[test]
fn narrow_rounds_to_nearest_with_ties_to_even() {
    // 1 + 2^-24 lies halfway between 1 and the next binary32 number.
    assert_eq!(narrow_of(1.0 + 5.960464477539063e-8), 1.0f32);
    // 1 + 3 * 2^-24 lies halfway between two numbers; the even one is above.
    assert_eq!(narrow_of(1.0 + 3.0 * 5.960464477539063e-8).to_bits(), 0x3f80_0002);
    assert_eq!(narrow_of(0.1), 0.1f32);
    assert_eq!(narrow_of(16777217.0), 16777216.0f32);
    assert_eq!(narrow_of(16777219.0), 16777220.0f32);
}

#[test]
fn narrow_overflows_to_infinity_and_underflows_to_zero() {
    assert_eq!(narrow_of(1.0e39), f32::INFINITY);
    assert_eq!(narrow_of(-1.0e39), f32::NEG_INFINITY);
    assert_eq!(narrow_of(3.4028235677973366e38), f32::INFINITY);
    assert_eq!(narrow_of(3.4028234663852886e38), f32::MAX);
    assert_eq!(narrow_of(1.0e-50).to_bits(), 0);
    assert_eq!(narrow_of(-1.0e-50).to_bits(), 0x8000_0000);
    assert_eq!(narrow_of(f64::MIN_POSITIVE).to_bits(), 0);
    assert_eq!(narrow_of(1.0e-40), 1.0e-40f32);
    assert_eq!(narrow_of(7.0e-46).to_bits(), 0);
    assert_eq!(narrow_of(7.1e-46).to_bits(), 1);
    assert_eq!(Binary64(1).narrow(), Binary32(0));
    assert_eq!(Binary64(0x000f_ffff_ffff_ffff).narrow(), Binary32(0));
    assert_eq!(Binary64(0x8000_0000_0000_0001).narrow(), Binary32(0x8000_0000));
}

#[test]
fn narrow_keeps_nan_a_nan() {
    assert!(narrow_of(f64::NAN).is_nan());
    assert_eq!(Binary64(0x7ff8_0000_0000_0000).narrow(), Binary32(0x7fc0_0000));
    assert_eq!(Binary64(0xfff0_0000_0000_0001).narrow(), Binary32(0xffc0_0000));
    assert_eq!(Binary64(0x7ff4_0000_0000_0000).narrow(), Binary32(0x7fe0_0000));
}

#[test]
fn narrow_agrees_with_the_machine_cast() {
    let mut state: u64 = 0x2545_f491_4f6c_dd1d;
    let mut i: u32 = 0;
    while i < 200_000 {
        let bits = next_word(&mut state);
        let value = f64::from_bits(bits);
        if !value.is_nan() {
            assert_eq!(Binary64(bits).narrow().0, (value as f32).to_bits(), "bits {:#x}", bits);
        }
        i += 1;
    }
}

#[test]
fn narrow_agrees_with_the_machine_cast_in_binary32_range() {
    let mut state: u64 = 0xdead_beef_cafe_f00d;
    let mut i: u32 = 0;
    while i < 200_000 {
        let word = next_word(&mut state);
        // exponents from 2^-160 to 2^+140 cover subnormal results and overflow
        let exponent = 1023 - 160 + (word >> 52) % 300;
        let bits = (word & 0x800f_ffff_ffff_ffff) | (exponent << 52);
        let value = f64::from_bits(bits);
        assert_eq!(Binary64(bits).narrow().0, (value as f32).to_bits(), "bits {:#x}", bits);
        i += 1;
    }
}

#[test]
fn multiply_by_one_changes_nothing() {
    let mut state: u64 = 0x1357_9bdf_0246_8ace;
    let mut i: u32 = 0;
    while i < 100_000 {
        let bits = next_word(&mut state) as u32;
        if !f32::from_bits(bits).is_nan() {
            assert_eq!(Binary32(bits).multiply(1), Binary32(bits));
        }
        i += 1;
    }
}

#[test]
fn multiply_gives_exact_products() {
    assert_eq!(times_of(1.0, 38), 38.0);
    assert_eq!(times_of(-1.0, 38), -38.0);
    assert_eq!(times_of(0.5, 38), 19.0);
    assert_eq!(times_of(3.0, 38), 114.0);
    assert_eq!(times_of(0.25, 3), 0.75);
    assert_eq!(times_of(0.0, 38).to_bits(), 0);
    assert_eq!(times_of(-0.0, 38).to_bits(), 0x8000_0000);
    assert_eq!(times_of(f32::INFINITY, 38), f32::INFINITY);
    assert_eq!(times_of(f32::NEG_INFINITY, 38), f32::NEG_INFINITY);
}

#[test]
fn multiply_by_zero() {
    assert_eq!(times_of(12.5, 0).to_bits(), 0);
    assert_eq!(times_of(-12.5, 0).to_bits(), 0x8000_0000);
    assert_eq!(times_of(f32::MAX, 0).to_bits(), 0);
    assert_eq!(Binary32(f32::INFINITY.to_bits()).multiply(0), Binary32(0x7fc0_0000));
    assert_eq!(Binary32(f32::NEG_INFINITY.to_bits()).multiply(0), Binary32(0x7fc0_0000));
    assert!(times_of(f32::NAN, 0).is_nan());
}

#[test]
fn multiply_rounds_overflows_and_scales_subnormals() {
    assert_eq!(times_of(0.1, 38), 0.1f32 * 38.0);
    assert_eq!(times_of(f32::MAX, 38), f32::INFINITY);
    assert_eq!(times_of(-f32::MAX, 2), f32::NEG_INFINITY);
    assert_eq!(times_of(1.0e38, 38), f32::INFINITY);
    assert_eq!(Binary32(1).multiply(38), Binary32(38));
    assert_eq!(times_of(f32::MIN_POSITIVE, 38), f32::MIN_POSITIVE * 38.0);
    assert_eq!(Binary32(0x007f_ffff).multiply(38).0, (f32::from_bits(0x007f_ffff) * 38.0).to_bits());
}

#[test]
fn multiply_keeps_nan_a_nan() {
    assert!(times_of(f32::NAN, 38).is_nan());
    assert_eq!(Binary32(0x7f80_0001).multiply(38), Binary32(0x7fc0_0001));
    assert_eq!(Binary32(0xffc0_1234).multiply(38), Binary32(0xffc0_1234));
}

#[test]
fn multiply_agrees_with_the_machine_product() {
    let mut state: u64 = 0x0f1e_2d3c_4b5a_6978;
    let mut i: u32 = 0;
    while i < 200_000 {
        let bits = next_word(&mut state) as u32;
        let value = f32::from_bits(bits);
        if !value.is_nan() {
            assert_eq!(Binary32(bits).multiply(38).0, (value * 38.0).to_bits(), "bits {:#x}", bits);
            assert_eq!(Binary32(bits).multiply(3).0, (value * 3.0).to_bits(), "bits {:#x}", bits);
            assert_eq!(
                Binary32(bits).multiply(65535).0,
                (value * 65535.0).to_bits(),
                "bits {:#x}",
                bits
            );
        }
        i += 1;
    }
}
