use luabutt::effect::{EffectLevel, VibrationEffect};

#[test]
fn an_effect_stops_once_all_ticks_have_run() {
    let running = VibrationEffect::Static { strength: 0.5_f64, ticks_total: 3, ticks_elapsed: 2 };
    let done = VibrationEffect::Static { strength: 0.5_f64, ticks_total: 3, ticks_elapsed: 3 };
    let over = VibrationEffect::LinRamp { peak: 0.5_f64, ticks_total: 3, ticks_elapsed: 9 };
    let empty = VibrationEffect::LinDecay { peak: 0.5_f64, ticks_total: 0, ticks_elapsed: 0 };
    assert!(!running.should_stop());
    assert!(done.should_stop());
    assert!(over.should_stop());
    assert!(empty.should_stop());
    let wave = VibrationEffect::SqWave {
        lo: 0.1_f64,
        hi: 0.9,
        ticks_lo: 1,
        ticks_hi: 1,
        ticks_total: 4,
        ticks_elapsed: 0,
    };
    assert!(!wave.should_stop());
}

#[test]
fn static_effect_gives_its_strength() {
    let e = VibrationEffect::Static { strength: 0.3_f64, ticks_total: 5, ticks_elapsed: 1 };
    assert_eq!(e.get_vibration(), EffectLevel::Constant(0.3));
}

#[test]
fn linear_effects_hand_back_their_data() {
    let d = VibrationEffect::LinDecay { peak: 0.8_f64, ticks_total: 4, ticks_elapsed: 1 };
    assert_eq!(d.get_vibration(), EffectLevel::Decay { peak: 0.8, ticks_elapsed: 1, ticks_total: 4 });
    let r = VibrationEffect::LinRamp { peak: 0.6_f64, ticks_total: 6, ticks_elapsed: 3 };
    assert_eq!(r.get_vibration(), EffectLevel::Ramp { peak: 0.6, ticks_elapsed: 3, ticks_total: 6 });
}

fn wave(elapsed: u8) -> VibrationEffect<f64> {
    VibrationEffect::SqWave { lo: 0.1, hi: 0.9, ticks_lo: 2, ticks_hi: 3, ticks_total: 200, ticks_elapsed: elapsed }
}

#[test]
fn square_wave_alternates_phases() {
    let expected = [0.1, 0.1, 0.9, 0.9, 0.9, 0.1, 0.1, 0.9, 0.9, 0.9, 0.1];
    for (t, want) in expected.iter().enumerate() {
        assert_eq!(wave(t as u8).get_vibration(), EffectLevel::Constant(*want));
    }
}

#[test]
fn square_wave_repeats_every_period() {
    for t in 0_u8..100 {
        assert_eq!(wave(t).get_vibration(), wave(t + 5).get_vibration());
    }
}

#[test]
fn square_wave_without_low_phase_is_always_high() {
    let e = VibrationEffect::SqWave { lo: 0.1_f64, hi: 0.9, ticks_lo: 0, ticks_hi: 4, ticks_total: 8, ticks_elapsed: 0 };
    assert_eq!(e.get_vibration(), EffectLevel::Constant(0.9));
}
