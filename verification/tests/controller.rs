use luabutt::controller::{CommandOutcome, TickAction, VibrationCmd, VibrationController};
use luabutt::effect::{EffectLevel, VibrationEffect};

fn controller() -> VibrationController<f64> {
    VibrationController::new(0.0, 1.0)
}

#[test]
fn new_controller_is_silent() {
    let c = controller();
    assert_eq!(c.base(), 0.0);
    assert_eq!(c.last(), 0.0);
    assert_eq!(c.off(), 0.0);
    assert_eq!(c.full(), 1.0);
    assert_eq!(c.effect_count(), 0);
    assert!(c.contributions().is_empty());
}

#[test]
fn set_base_is_clamped() {
    let mut c = controller();
    assert_eq!(c.handle_command(VibrationCmd::SetBase { strength: 0.4 }), CommandOutcome::Continue);
    assert_eq!(c.base(), 0.4);
    c.handle_command(VibrationCmd::SetBase { strength: 1.7 });
    assert_eq!(c.base(), 1.0);
    c.handle_command(VibrationCmd::SetBase { strength: -0.2 });
    assert_eq!(c.base(), 0.0);
}

#[test]
fn add_commands_append_fresh_effects() {
    let mut c = controller();
    c.handle_command(VibrationCmd::AddTempStatic { strength: 0.2, ticks: 3 });
    c.handle_command(VibrationCmd::AddLinearDecay { peak: 0.5, ticks: 4 });
    c.handle_command(VibrationCmd::AddLinearRamp { peak: 0.7, ticks: 5 });
    c.handle_command(VibrationCmd::AddTempSqWave { lo: 0.1, hi: 0.3, ticks_lo: 1, ticks_hi: 2, ticks: 6 });
    assert_eq!(
        c.effects().clone(),
        vec![
            VibrationEffect::Static { strength: 0.2, ticks_total: 3, ticks_elapsed: 0 },
            VibrationEffect::LinDecay { peak: 0.5, ticks_total: 4, ticks_elapsed: 0 },
            VibrationEffect::LinRamp { peak: 0.7, ticks_total: 5, ticks_elapsed: 0 },
            VibrationEffect::SqWave { lo: 0.1, hi: 0.3, ticks_lo: 1, ticks_hi: 2, ticks_total: 6, ticks_elapsed: 0 },
        ]
    );
    assert_eq!(
        c.contributions(),
        vec![
            EffectLevel::Constant(0.2),
            EffectLevel::Decay { peak: 0.5, ticks_elapsed: 0, ticks_total: 4 },
            EffectLevel::Ramp { peak: 0.7, ticks_elapsed: 0, ticks_total: 5 },
            EffectLevel::Constant(0.1),
        ]
    );
}

#[test]
fn zero_length_effects_are_pruned_on_the_tick_they_arrive() {
    let mut c = controller();
    c.handle_command(VibrationCmd::AddTempStatic { strength: 0.2, ticks: 0 });
    c.handle_command(VibrationCmd::AddLinearRamp { peak: 0.7, ticks: 2 });
    c.handle_command(VibrationCmd::AddLinearDecay { peak: 0.5, ticks: 0 });
    c.prune_finished();
    assert_eq!(
        c.effects().clone(),
        vec![VibrationEffect::LinRamp { peak: 0.7, ticks_total: 2, ticks_elapsed: 0 }]
    );
}

#[test]
fn pruning_keeps_every_live_effect() {
    let mut c = controller();
    for ticks in [0_u8, 3, 0, 0, 1, 2, 0] {
        c.handle_command(VibrationCmd::AddTempStatic { strength: ticks as f64, ticks });
    }
    c.prune_finished();
    let mut left: Vec<u8> = c.effects().iter().map(|e| match e {
        VibrationEffect::Static { ticks_total, .. } => *ticks_total,
        _ => panic!("unexpected effect"),
    }).collect();
    left.sort();
    assert_eq!(left, vec![1, 2, 3]);
    c.prune_finished();
    assert_eq!(c.effect_count(), 3);
}

#[test]
fn stop_vibration_clears_base_and_effects() {
    let mut c = controller();
    c.handle_command(VibrationCmd::SetBase { strength: 0.6 });
    c.handle_command(VibrationCmd::AddTempStatic { strength: 0.2, ticks: 3 });
    assert_eq!(c.decide(0.8, false), TickAction::Vibrate(0.8));
    assert_eq!(c.handle_command(VibrationCmd::StopVibration), CommandOutcome::Continue);
    assert_eq!(c.base(), 0.0);
    assert_eq!(c.effect_count(), 0);
    assert_eq!(c.last(), 0.8);
}

#[test]
fn shutdown_ends_the_loop_and_changes_nothing() {
    let mut c = controller();
    c.handle_command(VibrationCmd::SetBase { strength: 0.6 });
    c.handle_command(VibrationCmd::AddTempStatic { strength: 0.2, ticks: 3 });
    assert_eq!(c.handle_command(VibrationCmd::Shutdown), CommandOutcome::Shutdown);
    assert_eq!(c.base(), 0.6);
    assert_eq!(c.effect_count(), 1);
}

#[test]
fn decide_stops_at_off() {
    let mut c = controller();
    assert_eq!(c.decide(0.0, false), TickAction::StopDevices);
    assert_eq!(c.decide(0.0, true), TickAction::StopDevices);
    assert_eq!(c.last(), 0.0);
}

#[test]
fn decide_sends_a_changed_strength_and_remembers_it() {
    let mut c = controller();
    assert_eq!(c.decide(0.5, false), TickAction::Vibrate(0.5));
    assert_eq!(c.last(), 0.5);
    assert_eq!(c.decide(0.505, true), TickAction::Hold);
    assert_eq!(c.last(), 0.5);
}

#[test]
fn unsamplable_square_waves_are_detected() {
    let mut c = controller();
    assert!(c.can_sample());
    c.handle_command(VibrationCmd::AddTempSqWave { lo: 0.1, hi: 0.3, ticks_lo: 200, ticks_hi: 55, ticks: 6 });
    assert!(c.can_sample());
    c.handle_command(VibrationCmd::AddTempSqWave { lo: 0.1, hi: 0.3, ticks_lo: 0, ticks_hi: 0, ticks: 6 });
    assert!(!c.can_sample());
    let mut d = controller();
    d.handle_command(VibrationCmd::AddTempSqWave { lo: 0.1, hi: 0.3, ticks_lo: 200, ticks_hi: 56, ticks: 6 });
    assert!(!d.can_sample());
}

#[test]
fn adding_effects_in_either_order_runs_the_same_effects() {
    let a = VibrationCmd::AddTempStatic { strength: 0.2, ticks: 3 };
    let b = VibrationCmd::AddLinearRamp { peak: 0.7, ticks: 2 };
    let mut x = controller();
    x.handle_command(a);
    x.handle_command(b);
    let mut y = controller();
    y.handle_command(b);
    y.handle_command(a);
    let xs = x.effects().clone();
    let ys = y.effects().clone();
    assert_eq!(xs.len(), ys.len());
    assert!(xs.iter().all(|e| ys.contains(e)));
}

#[test]
fn base_stays_in_range_over_a_command_sequence() {
    let mut c = controller();
    for s in [-3.0, 0.2, 7.5, 0.99, -0.01, 1.0, 0.0] {
        c.handle_command(VibrationCmd::SetBase { strength: s });
        assert!(0.0 <= c.base() && c.base() <= 1.0);
        c.handle_command(VibrationCmd::StopVibration);
        assert!(0.0 <= c.base() && c.base() <= 1.0);
    }
}

#[test]
fn integer_strengths_work_too() {
    let mut c: VibrationController<u8> = VibrationController::new(0, 100);
    c.handle_command(VibrationCmd::SetBase { strength: 250 });
    assert_eq!(c.base(), 100);
    assert_eq!(c.decide(40, false), TickAction::Vibrate(40));
    assert_eq!(c.decide(0, false), TickAction::StopDevices);
}

#[test]
fn tick_commands_apply_in_turn_then_prune() {
    let mut c = controller();
    let out = c.handle_tick_commands(vec![
        VibrationCmd::SetBase { strength: 0.3 },
        VibrationCmd::AddTempStatic { strength: 0.2, ticks: 0 },
        VibrationCmd::AddLinearRamp { peak: 0.7, ticks: 2 },
        VibrationCmd::SetBase { strength: 2.0 },
        VibrationCmd::AddLinearDecay { peak: 0.5, ticks: 0 },
    ]);
    assert_eq!(out, CommandOutcome::Continue);
    assert_eq!(c.base(), 1.0);
    assert_eq!(
        c.effects().clone(),
        vec![VibrationEffect::LinRamp { peak: 0.7, ticks_total: 2, ticks_elapsed: 0 }]
    );
}

#[test]
fn tick_commands_stop_at_shutdown_without_pruning() {
    let mut c = controller();
    let out = c.handle_tick_commands(vec![
        VibrationCmd::AddTempStatic { strength: 0.2, ticks: 0 },
        VibrationCmd::Shutdown,
        VibrationCmd::SetBase { strength: 0.9 },
        VibrationCmd::AddLinearRamp { peak: 0.7, ticks: 2 },
    ]);
    assert_eq!(out, CommandOutcome::Shutdown);
    assert_eq!(c.base(), 0.0);
    assert_eq!(
        c.effects().clone(),
        vec![VibrationEffect::Static { strength: 0.2, ticks_total: 0, ticks_elapsed: 0 }]
    );
}

#[test]
fn stop_in_a_batch_clears_what_came_before_it() {
    let mut c = controller();
    let out = c.handle_tick_commands(vec![
        VibrationCmd::SetBase { strength: 0.5 },
        VibrationCmd::AddTempStatic { strength: 0.2, ticks: 4 },
        VibrationCmd::StopVibration,
        VibrationCmd::AddLinearRamp { peak: 0.7, ticks: 2 },
    ]);
    assert_eq!(out, CommandOutcome::Continue);
    assert_eq!(c.base(), 0.0);
    assert_eq!(
        c.effects().clone(),
        vec![VibrationEffect::LinRamp { peak: 0.7, ticks_total: 2, ticks_elapsed: 0 }]
    );
}

#[test]
fn empty_batch_keeps_the_state() {
    let mut c = controller();
    c.handle_command(VibrationCmd::SetBase { strength: 0.4 });
    assert_eq!(c.handle_tick_commands(Vec::new()), CommandOutcome::Continue);
    assert_eq!(c.base(), 0.4);
    assert_eq!(c.effect_count(), 0);
}

#[test]
fn pruning_moves_the_last_effect_into_each_gap() {
    let mut c = controller();
    c.handle_command(VibrationCmd::AddTempStatic { strength: 0.1, ticks: 0 });
    c.handle_command(VibrationCmd::AddTempStatic { strength: 0.2, ticks: 3 });
    c.handle_command(VibrationCmd::AddTempStatic { strength: 0.3, ticks: 0 });
    c.handle_command(VibrationCmd::AddTempStatic { strength: 0.4, ticks: 2 });
    c.prune_finished();
    assert_eq!(
        c.effects().clone(),
        vec![
            VibrationEffect::Static { strength: 0.4, ticks_total: 2, ticks_elapsed: 0 },
            VibrationEffect::Static { strength: 0.2, ticks_total: 3, ticks_elapsed: 0 },
        ]
    );
}
