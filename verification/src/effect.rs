//! Timed vibration effects and what each one contributes on a tick.
//!
//! Strengths are a type parameter `S`: the library decides which strength an
//! effect stands for on a tick and hands the arithmetic on strengths back to
//! its caller through [`EffectLevel`].
use vstd::prelude::*;

verus! {

/// A transient vibration pattern laid over the base vibration.
///
/// Every effect is meant to last `ticks_total` ticks and has run for
/// `ticks_elapsed` of them. It counts as finished once `ticks_elapsed` reaches
/// `ticks_total`. Nothing in the vibration loop advances `ticks_elapsed`, so
/// an effect added with `ticks_total > 0` stays until a `StopVibration`, and
/// one added with `ticks_total == 0` is dropped on the tick it arrives.
#[derive(Clone, Copy, Debug, PartialEq)]
pub enum VibrationEffect<S> {
    /// A constant strength.
    Static { strength: S, ticks_total: u8, ticks_elapsed: u8 },
    /// Falls linearly from `peak` towards zero.
    LinDecay { peak: S, ticks_total: u8, ticks_elapsed: u8 },
    /// Rises linearly from zero towards `peak`.
    LinRamp { peak: S, ticks_total: u8, ticks_elapsed: u8 },
    /// Alternates between `lo` for `ticks_lo` ticks and `hi` for `ticks_hi` ticks.
    SqWave { lo: S, hi: S, ticks_lo: u8, ticks_hi: u8, ticks_total: u8, ticks_elapsed: u8 },
}

/// What one effect contributes to the vibration on a tick.
///
/// `Decay` stands for `peak - peak * (ticks_elapsed / ticks_total)` and `Ramp`
/// for `peak * (ticks_elapsed / ticks_total)`, computed by the caller on its
/// strength type.
#[derive(Clone, Copy, Debug, PartialEq)]
pub enum EffectLevel<S> {
    Constant(S),
    Decay { peak: S, ticks_elapsed: u8, ticks_total: u8 },
    Ramp { peak: S, ticks_elapsed: u8, ticks_total: u8 },
}

/// Whether a square wave with these phase lengths is in its low phase after
/// `elapsed` ticks.
pub open spec fn sq_wave_in_low_phase(elapsed: u8, ticks_lo: u8, ticks_hi: u8) -> bool {
    (elapsed as int) % (ticks_lo + ticks_hi) < ticks_lo
}

/// A square wave starts in its low phase, stays there for `ticks_lo` ticks,
/// is high for the next `ticks_hi` ticks, and then repeats.
pub proof fn law_sq_wave_repeats(elapsed: u8, ticks_lo: u8, ticks_hi: u8)
    requires
        0 < ticks_lo + ticks_hi,
    ensures
        elapsed < ticks_lo ==> sq_wave_in_low_phase(elapsed, ticks_lo, ticks_hi),
        ticks_lo <= elapsed < ticks_lo + ticks_hi ==> !sq_wave_in_low_phase(
            elapsed,
            ticks_lo,
            ticks_hi,
        ),
        elapsed + ticks_lo + ticks_hi <= 255 ==> sq_wave_in_low_phase(
            (elapsed + ticks_lo + ticks_hi) as u8,
            ticks_lo,
            ticks_hi,
        ) == sq_wave_in_low_phase(elapsed, ticks_lo, ticks_hi),
{
    let p: int = ticks_lo + ticks_hi;
    if elapsed < p {
        vstd::arithmetic::div_mod::lemma_small_mod(elapsed as nat, p as nat);
    }
    vstd::arithmetic::div_mod::lemma_mod_add_multiples_vanish(elapsed as int, p);
}

impl<S> VibrationEffect<S> {
    /// The nominal length of the effect in ticks.
    pub open spec fn total(self) -> u8 {
        match self {
            VibrationEffect::Static { ticks_total, .. } => ticks_total,
            VibrationEffect::LinDecay { ticks_total, .. } => ticks_total,
            VibrationEffect::LinRamp { ticks_total, .. } => ticks_total,
            VibrationEffect::SqWave { ticks_total, .. } => ticks_total,
        }
    }

    /// The number of ticks the effect has run.
    pub open spec fn elapsed(self) -> u8 {
        match self {
            VibrationEffect::Static { ticks_elapsed, .. } => ticks_elapsed,
            VibrationEffect::LinDecay { ticks_elapsed, .. } => ticks_elapsed,
            VibrationEffect::LinRamp { ticks_elapsed, .. } => ticks_elapsed,
            VibrationEffect::SqWave { ticks_elapsed, .. } => ticks_elapsed,
        }
    }

    /// An effect is over once it has run for all of its ticks.
    pub open spec fn finished(self) -> bool {
        self.elapsed() >= self.total()
    }

    /// A square wave can be sampled only when its period is a positive `u8`.
    pub open spec fn samplable(self) -> bool {
        match self {
            VibrationEffect::SqWave { ticks_lo, ticks_hi, .. } => 0 < ticks_lo + ticks_hi <= 255,
            _ => true,
        }
    }

    /// The contribution of the effect on the current tick.
    pub open spec fn level_spec(self) -> EffectLevel<S> {
        match self {
            VibrationEffect::Static { strength, .. } => EffectLevel::Constant(strength),
            VibrationEffect::LinDecay { peak, ticks_total, ticks_elapsed } => EffectLevel::Decay {
                peak,
                ticks_elapsed,
                ticks_total,
            },
            VibrationEffect::LinRamp { peak, ticks_total, ticks_elapsed } => EffectLevel::Ramp {
                peak,
                ticks_elapsed,
                ticks_total,
            },
            VibrationEffect::SqWave { lo, hi, ticks_lo, ticks_hi, ticks_elapsed, .. } => {
                if sq_wave_in_low_phase(ticks_elapsed, ticks_lo, ticks_hi) {
                    EffectLevel::Constant(lo)
                } else {
                    EffectLevel::Constant(hi)
                }
            },
        }
    }

    /// Whether the effect has run for all of its ticks.
    pub fn should_stop(&self) -> (r: bool)
        ensures
            r == self.finished(),
    {
        match *self {
            VibrationEffect::Static { ticks_total, ticks_elapsed, .. } => ticks_elapsed
                >= ticks_total,
            VibrationEffect::LinDecay { ticks_total, ticks_elapsed, .. } => ticks_elapsed
                >= ticks_total,
            VibrationEffect::LinRamp { ticks_total, ticks_elapsed, .. } => ticks_elapsed
                >= ticks_total,
            VibrationEffect::SqWave { ticks_total, ticks_elapsed, .. } => ticks_elapsed
                >= ticks_total,
        }
    }
}

impl<S: Copy> VibrationEffect<S> {
    /// The contribution of the effect on the current tick: the strength of a
    /// static effect, the phase value of a square wave, and the data of a
    /// linear decay or ramp.
    pub fn get_vibration(&self) -> (r: EffectLevel<S>)
        requires
            self.samplable(),
        ensures
            r == self.level_spec(),
    {
        match *self {
            VibrationEffect::Static { strength, .. } => EffectLevel::Constant(strength),
            VibrationEffect::LinDecay { peak, ticks_total, ticks_elapsed } => EffectLevel::Decay {
                peak,
                ticks_elapsed,
                ticks_total,
            },
            VibrationEffect::LinRamp { peak, ticks_total, ticks_elapsed } => EffectLevel::Ramp {
                peak,
                ticks_elapsed,
                ticks_total,
            },
            VibrationEffect::SqWave { lo, hi, ticks_lo, ticks_hi, ticks_elapsed, .. } => {
                let modded = ticks_elapsed % (ticks_lo + ticks_hi);
                if modded < ticks_lo {
                    EffectLevel::Constant(lo)
                } else {
                    EffectLevel::Constant(hi)
                }
            },
        }
    }
}

/// Every kind of effect is over exactly when its elapsed ticks have reached
/// its length: one that has run fewer ticks than its length is still
/// running, and one that has run no tick is over only when its length is
/// zero.
pub proof fn law_finished_iff_elapsed_reaches_total<S>(
    strength: S,
    lo: S,
    hi: S,
    ticks_lo: u8,
    ticks_hi: u8,
    ticks_total: u8,
    ticks_elapsed: u8,
)
    ensures
        (VibrationEffect::Static { strength, ticks_total, ticks_elapsed }).finished() <==> (
        ticks_elapsed >= ticks_total),
        (VibrationEffect::LinDecay { peak: strength, ticks_total, ticks_elapsed }).finished() <==> (
        ticks_elapsed >= ticks_total),
        (VibrationEffect::LinRamp { peak: strength, ticks_total, ticks_elapsed }).finished() <==> (
        ticks_elapsed >= ticks_total),
        (VibrationEffect::SqWave { lo, hi, ticks_lo, ticks_hi, ticks_total, ticks_elapsed }).finished()
            <==> (ticks_elapsed >= ticks_total),
        ticks_elapsed < ticks_total ==> !(VibrationEffect::Static {
            strength,
            ticks_total,
            ticks_elapsed,
        }).finished(),
        (VibrationEffect::Static { strength, ticks_total, ticks_elapsed: 0 }).finished() <==> (
        ticks_total == 0),
{
}

/// What each kind of effect contributes, in terms of its own fields: a
/// static effect its strength, whatever its ticks; a linear decay a decay of
/// its own peak and ticks, and a linear ramp a ramp of them, whatever the
/// ticks; a square wave its `lo` while `ticks_elapsed` modulo the period is
/// below `ticks_lo`, and its `hi` otherwise.
pub proof fn law_level_of_each_kind<S>(
    strength: S,
    peak: S,
    lo: S,
    hi: S,
    ticks_lo: u8,
    ticks_hi: u8,
    ticks_total: u8,
    ticks_elapsed: u8,
)
    ensures
        (VibrationEffect::Static { strength, ticks_total, ticks_elapsed }).level_spec() == (
        EffectLevel::Constant(strength)),
        (VibrationEffect::LinDecay { peak, ticks_total, ticks_elapsed }).level_spec() == (
        EffectLevel::Decay { peak, ticks_elapsed, ticks_total }),
        (VibrationEffect::LinRamp { peak, ticks_total, ticks_elapsed }).level_spec() == (
        EffectLevel::Ramp { peak, ticks_elapsed, ticks_total }),
        0 < ticks_lo + ticks_hi ==> (VibrationEffect::SqWave {
            lo,
            hi,
            ticks_lo,
            ticks_hi,
            ticks_total,
            ticks_elapsed,
        }).level_spec() == (if (ticks_elapsed as int) % (ticks_lo + ticks_hi) < ticks_lo {
            EffectLevel::Constant(lo)
        } else {
            EffectLevel::Constant(hi)
        }),
        0 < ticks_lo ==> (VibrationEffect::SqWave {
            lo,
            hi,
            ticks_lo,
            ticks_hi,
            ticks_total,
            ticks_elapsed: 0,
        }).level_spec() == (EffectLevel::Constant(lo)),
        0 == ticks_lo && 0 < ticks_hi ==> (VibrationEffect::SqWave {
            lo,
            hi,
            ticks_lo,
            ticks_hi,
            ticks_total,
            ticks_elapsed,
        }).level_spec() == (EffectLevel::Constant(hi)),
{
    if 0 < ticks_lo + ticks_hi {
        law_sq_wave_repeats(ticks_elapsed, ticks_lo, ticks_hi);
        law_sq_wave_repeats(0, ticks_lo, ticks_hi);
    }
}

/// An effect can be sampled unless it is a square wave whose period
/// `ticks_lo + ticks_hi` is zero or does not fit in a `u8`.
pub proof fn law_samplable<S>(
    strength: S,
    lo: S,
    hi: S,
    ticks_lo: u8,
    ticks_hi: u8,
    ticks_total: u8,
    ticks_elapsed: u8,
)
    ensures
        (VibrationEffect::Static { strength, ticks_total, ticks_elapsed }).samplable(),
        (VibrationEffect::LinDecay { peak: strength, ticks_total, ticks_elapsed }).samplable(),
        (VibrationEffect::LinRamp { peak: strength, ticks_total, ticks_elapsed }).samplable(),
        (VibrationEffect::SqWave { lo, hi, ticks_lo, ticks_hi, ticks_total, ticks_elapsed }).samplable()
            <==> (1 <= ticks_lo + ticks_hi <= 255),
{
}

} // verus!
