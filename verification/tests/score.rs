use seiten::score::{score_from_bits, FLOAT_ONE_BITS, FLOAT_SIGN_BIT, SCORE_ONE};

#[test]
fn score_reads_exact_values() {
    assert_eq!(score_from_bits(0.0f32.to_bits()), 0);
    assert_eq!(score_from_bits(1.0f32.to_bits()), 1_000_000);
    assert_eq!(score_from_bits(0.5f32.to_bits()), 500_000);
    assert_eq!(score_from_bits(0.25f32.to_bits()), 250_000);
    assert_eq!(score_from_bits(0.75f32.to_bits()), 750_000);
    assert_eq!(score_from_bits(0.7f32.to_bits()), 700_000);
    assert_eq!(score_from_bits(0.72f32.to_bits()), 720_000);
    assert_eq!(score_from_bits((1.0f32 / 3.0f32).to_bits()), 333_333);
    assert_eq!(score_from_bits((2.0f32 / 3.0f32).to_bits()), 666_667);
    assert_eq!(score_from_bits(0.0000006f32.to_bits()), 1);
    assert_eq!(score_from_bits(0.0000004f32.to_bits()), 0);
}

#[test]
fn score_constants() {
    assert_eq!(SCORE_ONE, 1_000_000);
    assert_eq!(FLOAT_ONE_BITS, 1.0f32.to_bits());
    assert_eq!(FLOAT_SIGN_BIT, (-0.0f32).to_bits());
}

#[test]
fn score_is_held_to_the_range() {
    assert_eq!(score_from_bits(2.5f32.to_bits()), SCORE_ONE);
    assert_eq!(score_from_bits(f32::INFINITY.to_bits()), SCORE_ONE);
    assert_eq!(score_from_bits(f32::NAN.to_bits()), SCORE_ONE);
    assert_eq!(score_from_bits((-0.5f32).to_bits()), 0);
    assert_eq!(score_from_bits((-0.0f32).to_bits()), 0);
    assert_eq!(score_from_bits(f32::NEG_INFINITY.to_bits()), 0);
    assert_eq!(score_from_bits(f32::MIN_POSITIVE.to_bits()), 0);
    assert_eq!(score_from_bits(1), 0);
    assert_eq!(score_from_bits(0.99999997f32.to_bits()), SCORE_ONE);
}

#[test]
fn score_rounds_to_the_nearest_millionth() {
    let mut k: u32 = 0;
    while k <= 1000 {
        let value = k as f32 / 1000.0f32;
        assert_eq!(score_from_bits(value.to_bits()), k * 1000, "{value}");
        k += 1;
    }
}

#[test]
fn score_agrees_with_rounding_in_double_precision() {
    let mut bits: u32 = 0;
    while bits <= FLOAT_ONE_BITS {
        let value = f32::from_bits(bits) as f64;
        let expected = (value * 1_000_000.0f64 + 0.5f64).floor() as u32;
        assert_eq!(score_from_bits(bits), expected, "{bits:#x}");
        bits += 9973;
    }
}

#[test]
fn score_never_falls_as_the_number_rises() {
    let mut last: u32 = 0;
    let mut bits: u32 = 0;
    while bits <= FLOAT_ONE_BITS {
        let score = score_from_bits(bits);
        assert!(score >= last, "{bits:#x}");
        last = score;
        bits += 4099;
    }
}
