use luabutt::compare::{clamp, max, min};

#[test]
fn clamp_keeps_values_inside_the_range() {
    assert_eq!(clamp(0.4_f64, 0.0, 1.0), 0.4);
    assert_eq!(clamp(0.0_f64, 0.0, 1.0), 0.0);
    assert_eq!(clamp(1.0_f64, 0.0, 1.0), 1.0);
}

#[test]
fn clamp_raises_values_below_the_range() {
    assert_eq!(clamp(-0.3_f64, 0.0, 1.0), 0.0);
    assert_eq!(clamp(-5_i32, 0, 10), 0);
}

#[test]
fn clamp_lowers_values_above_the_range() {
    assert_eq!(clamp(1.5_f64, 0.0, 1.0), 1.0);
    assert_eq!(clamp(42_u8, 0, 10), 10);
}

#[test]
fn clamp_passes_an_unordered_value_through() {
    assert!(clamp(f64::NAN, 0.0, 1.0).is_nan());
}

#[test]
fn clamp_law_on_many_integers() {
    for x in -20_i32..20 {
        for lo in -5_i32..5 {
            for hi in lo..lo + 6 {
                let r = clamp(x, lo, hi);
                assert!(lo <= r && r <= hi);
                if lo <= x && x <= hi {
                    assert_eq!(r, x);
                }
            }
        }
    }
}

#[test]
fn min_and_max_pick_the_right_argument() {
    assert_eq!(min(3_u32, 7), 3);
    assert_eq!(min(7_u32, 3), 3);
    assert_eq!(max(3_u32, 7), 7);
    assert_eq!(max(7_u32, 3), 7);
    assert_eq!(min(0.25_f64, 0.5), 0.25);
    assert_eq!(max(0.25_f64, 0.5), 0.5);
}

#[test]
fn min_and_max_on_unordered_values_keep_the_first() {
    assert!(min(f64::NAN, 1.0).is_nan());
    assert!(max(f64::NAN, 1.0).is_nan());
    assert_eq!(min(1.0, f64::NAN), 1.0);
    assert_eq!(max(1.0, f64::NAN), 1.0);
}

#[test]
fn min_and_max_keep_the_first_on_a_tie() {
    assert_eq!(min(0.0_f64, -0.0).to_bits(), 0.0_f64.to_bits());
    assert_eq!(min(-0.0_f64, 0.0).to_bits(), (-0.0_f64).to_bits());
    assert_eq!(max(0.0_f64, -0.0).to_bits(), 0.0_f64.to_bits());
    assert_eq!(max(-0.0_f64, 0.0).to_bits(), (-0.0_f64).to_bits());
}

#[test]
fn min_max_laws_on_many_integers() {
    for a in -10_i32..10 {
        for b in -10_i32..10 {
            assert_eq!(min(a, b), min(b, a));
            assert!(min(a, b) <= a && min(a, b) <= b);
            assert!(max(a, b) >= a && max(a, b) >= b);
            assert!(min(a, b) <= max(a, b));
            assert!((min(a, b), max(a, b)) == (a, b) || (min(a, b), max(a, b)) == (b, a));
        }
    }
    assert_eq!(max(2, 7), 7);
}

#[test]
fn clamp_is_idempotent_and_monotone() {
    for lo in -4_i32..4 {
        for hi in lo..lo + 5 {
            for x in -10_i32..10 {
                let c = clamp(x, lo, hi);
                assert_eq!(clamp(c, lo, hi), c);
                assert_eq!(c == x, lo <= x && x <= hi);
                for y in x..10 {
                    assert!(c <= clamp(y, lo, hi));
                }
            }
        }
    }
}
