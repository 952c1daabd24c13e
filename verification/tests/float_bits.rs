use img2avif::float_bits::{
    f32_bits_in_range, f32_bits_le, F32_FIVE, F32_HALF, F32_HUNDRED, F32_ONE, F32_TWO, F32_ZERO,
};

#[test]
fn constants_are_the_bit_patterns() {
    assert_eq!(F32_ZERO, 0.0f32.to_bits());
    assert_eq!(F32_HALF, 0.5f32.to_bits());
    assert_eq!(F32_ONE, 1.0f32.to_bits());
    assert_eq!(F32_TWO, 2.0f32.to_bits());
    assert_eq!(F32_FIVE, 5.0f32.to_bits());
    assert_eq!(F32_HUNDRED, 100.0f32.to_bits());
}

#[test]
fn bit_order_agrees_with_float_order() {
    let values = [
        f32::NEG_INFINITY, -1.0e30, -3.5, -1.0, -1.0e-40, -0.0, 0.0, 1.0e-40, 0.5, 0.95, 1.0, 2.0,
        5.0, 99.99, 100.0, 100.5, 1.0e30, f32::INFINITY, f32::NAN,
    ];
    for a in values {
        for b in values {
            assert_eq!(f32_bits_le(a.to_bits(), b.to_bits()), a <= b, "{} <= {}", a, b);
        }
    }
}

#[test]
fn closed_ranges_as_contains() {
    for v in [-0.0f32, 0.0, 0.5, 50.0, 100.0, 100.0001, -0.1, f32::NAN, f32::INFINITY] {
        assert_eq!(f32_bits_in_range(v.to_bits(), F32_ZERO, F32_HUNDRED), (0.0..=100.0).contains(&v));
        assert_eq!(f32_bits_in_range(v.to_bits(), F32_HALF, F32_FIVE), (0.5..=5.0).contains(&v));
    }
}
