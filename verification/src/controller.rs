//! The vibration state that the command loop keeps from tick to tick, and the
//! decisions taken on it.
//!
//! One tick of the loop: [`VibrationController::handle_tick_commands`] applies
//! the queued commands through [`VibrationController::handle_command`] and
//! drops finished effects with [`VibrationController::prune_finished`], the
//! caller adds the base strength
//! and [`VibrationController::contributions`] up, clamps the sum, and
//! [`VibrationController::decide`] says what the devices are told.
use vstd::prelude::*;
use vstd::multiset::Multiset;
use vstd::std_specs::cmp::{PartialEqSpec, PartialOrdIs, PartialOrdSpec};
use crate::compare::{clamp, clamp_spec, law_clamp_stays_in_range};
use vstd::laws_cmp::obeys_partial_cmp_spec_properties;
use crate::effect::{EffectLevel, VibrationEffect};

verus! {

broadcast use vstd::multiset::group_multiset_axioms;

/// A request from the game side to the vibration loop.
///
/// An `Add*` command with `ticks == 0` adds an effect that is dropped on the
/// tick it arrives; with `ticks > 0` the effect stays until a
/// `StopVibration`, since the loop never advances an effect's elapsed ticks.
#[derive(Clone, Copy, Debug, PartialEq)]
pub enum VibrationCmd<S> {
    /// Set the base vibration, clamped into the controller's range.
    SetBase { strength: S },
    /// Add a constant effect whose nominal length is `ticks` ticks.
    AddTempStatic { strength: S, ticks: u8 },
    /// Add an effect that stands for a fall from `peak` over `ticks` ticks.
    AddLinearDecay { peak: S, ticks: u8 },
    /// Add an effect that stands for a rise to `peak` over `ticks` ticks.
    AddLinearRamp { peak: S, ticks: u8 },
    /// Add a square wave whose nominal length is `ticks` ticks.
    AddTempSqWave { lo: S, hi: S, ticks_lo: u8, ticks_hi: u8, ticks: u8 },
    /// Drop the base vibration to off and remove every effect.
    StopVibration,
    /// Leave the loop.
    Shutdown,
}

/// Whether the loop goes on after a command.
#[derive(Clone, Copy, Debug, PartialEq, Eq)]
pub enum CommandOutcome {
    Continue,
    Shutdown,
}

/// What the devices are told at the end of a tick.
#[derive(Clone, Copy, Debug, PartialEq)]
pub enum TickAction<S> {
    /// Stop every device.
    StopDevices,
    /// Vibrate every device at this strength.
    Vibrate(S),
    /// Leave the devices as they are.
    Hold,
}

impl<S> VibrationCmd<S> {
    /// The effect that an `Add*` command appends, having run for no tick.
    pub open spec fn added_effect(self) -> Option<VibrationEffect<S>> {
        match self {
            VibrationCmd::AddTempStatic { strength, ticks } => Some(
                VibrationEffect::Static { strength, ticks_total: ticks, ticks_elapsed: 0 },
            ),
            VibrationCmd::AddLinearDecay { peak, ticks } => Some(
                VibrationEffect::LinDecay { peak, ticks_total: ticks, ticks_elapsed: 0 },
            ),
            VibrationCmd::AddLinearRamp { peak, ticks } => Some(
                VibrationEffect::LinRamp { peak, ticks_total: ticks, ticks_elapsed: 0 },
            ),
            VibrationCmd::AddTempSqWave { lo, hi, ticks_lo, ticks_hi, ticks } => Some(
                VibrationEffect::SqWave {
                    lo,
                    hi,
                    ticks_lo,
                    ticks_hi,
                    ticks_total: ticks,
                    ticks_elapsed: 0,
                },
            ),
            _ => None,
        }
    }
}

/// The mathematical state of a [`VibrationController`].
pub struct ControllerView<S> {
    /// The strength that means "no vibration".
    pub off: S,
    /// The strongest vibration.
    pub full: S,
    /// The base vibration, under every effect.
    pub base: S,
    /// The strength last sent to the devices.
    pub last: S,
    /// The running effects.
    pub effects: Seq<VibrationEffect<S>>,
}

impl<S> ControllerView<S> {
    pub open spec fn with_base(self, base: S) -> Self {
        ControllerView { base, ..self }
    }

    pub open spec fn with_last(self, last: S) -> Self {
        ControllerView { last, ..self }
    }

    pub open spec fn with_effects(self, effects: Seq<VibrationEffect<S>>) -> Self {
        ControllerView { effects, ..self }
    }

    /// The state after `cmd`, on a strength type whose comparisons follow
    /// their specification.
    pub open spec fn apply(self, cmd: VibrationCmd<S>) -> Self where S: PartialOrd {
        match cmd {
            VibrationCmd::SetBase { strength } => self.with_base(
                clamp_spec(strength, self.off, self.full),
            ),
            VibrationCmd::AddTempStatic { strength, ticks } => self.with_effects(
                self.effects.push(
                    VibrationEffect::Static { strength, ticks_total: ticks, ticks_elapsed: 0 },
                ),
            ),
            VibrationCmd::AddLinearDecay { peak, ticks } => self.with_effects(
                self.effects.push(
                    VibrationEffect::LinDecay { peak, ticks_total: ticks, ticks_elapsed: 0 },
                ),
            ),
            VibrationCmd::AddLinearRamp { peak, ticks } => self.with_effects(
                self.effects.push(
                    VibrationEffect::LinRamp { peak, ticks_total: ticks, ticks_elapsed: 0 },
                ),
            ),
            VibrationCmd::AddTempSqWave { lo, hi, ticks_lo, ticks_hi, ticks } => self.with_effects(
                self.effects.push(
                    VibrationEffect::SqWave {
                        lo,
                        hi,
                        ticks_lo,
                        ticks_hi,
                        ticks_total: ticks,
                        ticks_elapsed: 0,
                    },
                ),
            ),
            VibrationCmd::StopVibration => self.with_base(self.off).with_effects(Seq::empty()),
            VibrationCmd::Shutdown => self,
        }
    }

    /// The running effects as a multiset, order forgotten.
    pub open spec fn effect_bag(self) -> Multiset<VibrationEffect<S>> {
        self.effects.to_multiset()
    }

    /// The effects that have not finished, order forgotten.
    pub open spec fn live_effects(self) -> Multiset<VibrationEffect<S>> {
        self.effect_bag().filter(|e: VibrationEffect<S>| !e.finished())
    }

    /// Whether every running effect can be sampled.
    pub open spec fn all_samplable(self) -> bool {
        forall|i: int| 0 <= i < self.effects.len() ==> #[trigger] self.effects[i].samplable()
    }

    /// The state after the commands of a batch, applied in turn up to the
    /// first `Shutdown`, on a strength type whose comparisons follow their
    /// specification.
    pub open spec fn apply_batch(self, cmds: Seq<VibrationCmd<S>>) -> Self where S: PartialOrd
        decreases cmds.len(),
    {
        if cmds.len() == 0 {
            self
        } else if cmds[0] is Shutdown {
            self
        } else {
            self.apply(cmds[0]).apply_batch(cmds.drop_first())
        }
    }
}

/// The effects left by pruning from place `idx` on, in the order that
/// pruning leaves them: a finished effect is replaced by the last effect,
/// which is then looked at in its place; a live one is passed over.
pub open spec fn pruned_order<S>(effects: Seq<VibrationEffect<S>>, idx: int) -> Seq<
    VibrationEffect<S>,
>
    decreases 2 * effects.len() - idx,
{
    if idx < 0 || idx >= effects.len() {
        effects
    } else if effects[idx].finished() {
        pruned_order(effects.update(idx, effects.last()).drop_last(), idx)
    } else {
        pruned_order(effects, idx + 1)
    }
}

/// A position in a vector, as a mathematical integer.
pub open spec fn pos(i: usize) -> int {
    i as int
}

/// Whether a batch of commands holds a `SetBase` to strength `b`.
pub open spec fn sets_base_to<S>(cmds: Seq<VibrationCmd<S>>, b: S) -> bool {
    exists|i: int| 0 <= i < cmds.len() && #[trigger] cmds[i] == VibrationCmd::SetBase { strength: b }
}

/// Whether a batch of commands holds a `Shutdown`.
pub open spec fn holds_shutdown<S>(cmds: Seq<VibrationCmd<S>>) -> bool {
    exists|i: int| 0 <= i < cmds.len() && #[trigger] cmds[i] is Shutdown
}

/// The state of the vibration loop: the base vibration, the strength last
/// sent to the devices and the running effects.
pub struct VibrationController<S> {
    off: S,
    full: S,
    base: S,
    last: S,
    effects: Vec<VibrationEffect<S>>,
}

impl<S> View for VibrationController<S> {
    type V = ControllerView<S>;

    closed spec fn view(&self) -> ControllerView<S> {
        ControllerView {
            off: self.off,
            full: self.full,
            base: self.base,
            last: self.last,
            effects: self.effects@,
        }
    }
}

impl<S: Copy> VibrationController<S> {
    /// A controller with no effects, whose base and last strengths are `off`
    /// and whose base vibration is clamped into `off ..= full`.
    pub fn new(off: S, full: S) -> (c: Self)
        ensures
            c@ == (ControllerView { off, full, base: off, last: off, effects: Seq::empty() }),
    {
        VibrationController { off, full, base: off, last: off, effects: Vec::new() }
    }

    /// The strength that means "no vibration".
    pub fn off(&self) -> (r: S)
        ensures
            r == self@.off,
    {
        self.off
    }

    /// The strongest vibration.
    pub fn full(&self) -> (r: S)
        ensures
            r == self@.full,
    {
        self.full
    }

    /// The base vibration.
    pub fn base(&self) -> (r: S)
        ensures
            r == self@.base,
    {
        self.base
    }

    /// The strength last sent to the devices.
    pub fn last(&self) -> (r: S)
        ensures
            r == self@.last,
    {
        self.last
    }

    /// The running effects.
    pub fn effects(&self) -> (r: &Vec<VibrationEffect<S>>)
        ensures
            r@ == self@.effects,
    {
        &self.effects
    }

    /// The number of running effects.
    pub fn effect_count(&self) -> (r: usize)
        ensures
            r == self@.effects.len(),
    {
        self.effects.len()
    }

    /// Removes every effect that has run for all of its ticks. Each finished
    /// effect is replaced by the last effect, so the remaining effects come in
    /// the order given by `pruned_order`.
    pub fn prune_finished(&mut self)
        ensures
            final(self)@ == old(self)@.with_effects(pruned_order(old(self)@.effects, 0)),
            final(self)@.effect_bag() == old(self)@.live_effects(),
            forall|i: int|
                0 <= i < final(self)@.effects.len() ==> !(#[trigger] final(self)@.effects[i].finished()),
    {
        let ghost start = self@;
        let mut idx: usize = 0;
        while idx < self.effects.len()
            invariant
                idx <= self.effects.len(),
                self@ == start.with_effects(self@.effects),
                pruned_order(start.effects, 0) == pruned_order(self@.effects, idx as int),
                self@.live_effects() == start.live_effects(),
                forall|j: int| 0 <= j < idx ==> !(#[trigger] self@.effects[j].finished()),
            decreases self.effects.len() - idx,
        {
            if self.effects[idx].should_stop() {
                let ghost before = self@.effects;
                let ghost before_v = self@;
                let gone = self.effects.swap_remove(idx);
                proof {
                    lemma_swap_remove_bag(before, idx as int);
                    assert(self@.effects.to_multiset() == before.to_multiset().remove(gone));
                    assert(self@.live_effects() =~= start.live_effects()) by {
                        assert forall|e: VibrationEffect<S>|
                            #[trigger] self@.live_effects().count(e) == start.live_effects().count(
                                e,
                            ) by {
                            assert(before_v.live_effects().count(e) == start.live_effects().count(
                                e,
                            ));
                            if !e.finished() {
                                assert(e != gone);
                            }
                        }
                    }
                    assert forall|j: int| 0 <= j < idx implies !(
                    #[trigger] self@.effects[j].finished()) by {
                        assert(self@.effects[j] == before[j]);
                    }
                }
            } else {
                idx = idx + 1;
            }
        }
        proof {
            let now = self@.effects;
            assert(self@.effect_bag() =~= self@.live_effects()) by {
                assert forall|e: VibrationEffect<S>|
                    #[trigger] self@.effect_bag().count(e) == self@.live_effects().count(e) by {
                    if e.finished() && now.to_multiset().count(e) > 0 {
                        broadcast use vstd::seq_lib::group_to_multiset_ensures;

                        assert(now.contains(e));
                        let k = choose|k: int| 0 <= k < now.len() && now[k] == e;
                        assert(!now[k].finished());
                    }
                }
            }
        }
    }

    /// Whether every running effect can be sampled by
    /// [`VibrationController::contributions`].
    pub fn can_sample(&self) -> (r: bool)
        ensures
            r == self@.all_samplable(),
    {
        let mut i: usize = 0;
        while i < self.effects.len()
            invariant
                i <= self.effects.len(),
                forall|j: int| 0 <= j < i ==> #[trigger] self@.effects[j].samplable(),
            decreases self.effects.len() - i,
        {
            let ok = match &self.effects[i] {
                VibrationEffect::SqWave { ticks_lo, ticks_hi, .. } => *ticks_lo as u16
                    + *ticks_hi as u16 >= 1 && *ticks_lo as u16 + *ticks_hi as u16 <= 255,
                _ => true,
            };
            if !ok {
                assert(!self@.effects[i as int].samplable());
                return false;
            }
            i = i + 1;
        }
        true
    }

    /// What every running effect contributes on this tick, in the order of
    /// the effects.
    pub fn contributions(&self) -> (r: Vec<EffectLevel<S>>)
        requires
            self@.all_samplable(),
        ensures
            r@ == self@.effects.map_values(|e: VibrationEffect<S>| e.level_spec()),
    {
        let mut out: Vec<EffectLevel<S>> = Vec::new();
        let mut i: usize = 0;
        while i < self.effects.len()
            invariant
                i <= self.effects.len(),
                self@.all_samplable(),
                out@ =~= self@.effects.take(i as int).map_values(
                    |e: VibrationEffect<S>| e.level_spec(),
                ),
            decreases self.effects.len() - i,
        {
            assert(self@.effects[i as int].samplable());
            let level = self.effects[i].get_vibration();
            out.push(level);
            assert(self@.effects.take(i + 1) =~= self@.effects.take(i as int).push(
                self@.effects[i as int],
            ));
            i = i + 1;
        }
        assert(self@.effects.take(i as int) =~= self@.effects);
        out
    }
}

impl<S: PartialOrd + Copy> VibrationController<S> {
    /// Applies one command and says whether the loop goes on.
    ///
    /// Each `Add*` command appends an effect that has run for no tick.
    pub fn handle_command(&mut self, cmd: VibrationCmd<S>) -> (r: CommandOutcome)
        ensures
            r == (if cmd is Shutdown {
                CommandOutcome::Shutdown
            } else {
                CommandOutcome::Continue
            }),
            !(cmd is SetBase) ==> final(self)@ == old(self)@.apply(cmd),
            S::obeys_partial_cmp_spec() ==> final(self)@ == old(self)@.apply(cmd),
            cmd matches VibrationCmd::SetBase { strength } ==> {
                &&& final(self)@ == old(self)@.with_base(final(self)@.base)
                &&& final(self)@.base == strength || final(self)@.base == old(self)@.off
                    || final(self)@.base == old(self)@.full
            },
    {
        match cmd {
            VibrationCmd::SetBase { strength } => {
                self.base = clamp(strength, self.off, self.full);
                CommandOutcome::Continue
            },
            VibrationCmd::AddTempStatic { strength, ticks } => {
                self.effects.push(
                    VibrationEffect::Static { strength, ticks_total: ticks, ticks_elapsed: 0 },
                );
                CommandOutcome::Continue
            },
            VibrationCmd::AddLinearDecay { peak, ticks } => {
                self.effects.push(
                    VibrationEffect::LinDecay { peak, ticks_total: ticks, ticks_elapsed: 0 },
                );
                CommandOutcome::Continue
            },
            VibrationCmd::AddLinearRamp { peak, ticks } => {
                self.effects.push(
                    VibrationEffect::LinRamp { peak, ticks_total: ticks, ticks_elapsed: 0 },
                );
                CommandOutcome::Continue
            },
            VibrationCmd::AddTempSqWave { lo, hi, ticks_lo, ticks_hi, ticks } => {
                self.effects.push(
                    VibrationEffect::SqWave {
                        lo,
                        hi,
                        ticks_lo,
                        ticks_hi,
                        ticks_total: ticks,
                        ticks_elapsed: 0,
                    },
                );
                CommandOutcome::Continue
            },
            VibrationCmd::StopVibration => {
                self.base = self.off;
                self.effects.clear();
                CommandOutcome::Continue
            },
            VibrationCmd::Shutdown => CommandOutcome::Shutdown,
        }
    }

    /// Runs the command part of one tick: applies the queued commands in
    /// turn, stopping at the first `Shutdown`; if there is none, it then
    /// drops every finished effect, so that an effect added with no ticks
    /// never reaches the strength of the tick.
    pub fn handle_tick_commands(&mut self, cmds: Vec<VibrationCmd<S>>) -> (r: CommandOutcome)
        ensures
            r == (if holds_shutdown(cmds@) {
                CommandOutcome::Shutdown
            } else {
                CommandOutcome::Continue
            }),
            holds_shutdown(cmds@) ==> final(self)@.with_base(old(self)@.apply_batch(cmds@).base)
                == old(self)@.apply_batch(cmds@),
            !holds_shutdown(cmds@) ==> {
                &&& final(self)@.with_base(old(self)@.apply_batch(cmds@).base) == old(
                    self,
                )@.apply_batch(cmds@).with_effects(final(self)@.effects)
                &&& final(self)@.effects == pruned_order(old(self)@.apply_batch(cmds@).effects, 0)
                &&& final(self)@.effect_bag() == old(self)@.apply_batch(cmds@).live_effects()
                &&& forall|i: int|
                    0 <= i < final(self)@.effects.len() ==> !(
                    #[trigger] final(self)@.effects[i].finished()) && final(self)@.effects[i].total()
                        > 0
            },
            S::obeys_partial_cmp_spec() ==> final(self)@.base == old(self)@.apply_batch(
                cmds@,
            ).base,
            final(self)@.base == old(self)@.base || final(self)@.base == old(self)@.off
                || final(self)@.base == old(self)@.full || sets_base_to(cmds@, final(self)@.base),
    {
        let ghost start = self@;
        let ghost mut gb: S = self@.base;
        let mut i: usize = 0;
        assert(cmds@.skip(0) =~= cmds@);
        assert(self@.with_base(gb) == self@);
        while i < cmds.len()
            invariant
                i <= cmds.len(),
                start == old(self)@,
                self@.off == start.off,
                self@.full == start.full,
                start.apply_batch(cmds@) == self@.with_base(gb).apply_batch(cmds@.skip(pos(i))),
                S::obeys_partial_cmp_spec() ==> gb == self@.base,
                self@.base == start.base || self@.base == start.off || self@.base == start.full
                    || sets_base_to(cmds@, self@.base),
                forall|j: int| 0 <= j < i ==> !(#[trigger] cmds@[j] is Shutdown),
            decreases cmds.len() - i,
        {
            let cmd = cmds[i];
            assert(cmds@.skip(pos(i))[0] == cmd);
            if let VibrationCmd::Shutdown = cmd {
                assert(holds_shutdown(cmds@)) by {
                    assert(cmds@[pos(i)] is Shutdown);
                }
                assert(self@.with_base(gb).apply_batch(cmds@.skip(pos(i))) == self@.with_base(gb));
                return CommandOutcome::Shutdown;
            }
            let ghost before = self@;
            let ghost next_gb = before.with_base(gb).apply(cmd).base;
            self.handle_command(cmd);
            proof {
                if self@.base != before.base && self@.base != start.off && self@.base != start.full {
                    assert(cmds@[pos(i)] == VibrationCmd::SetBase { strength: self@.base });
                }
                assert(cmds@.skip(pos(i)).drop_first() =~= cmds@.skip(i + 1));
                assert(self@.with_base(next_gb) == before.with_base(gb).apply(cmd));
                gb = next_gb;
            }
            i = i + 1;
        }
        assert(!holds_shutdown(cmds@));
        assert(cmds@.skip(pos(i)) =~= Seq::<VibrationCmd<S>>::empty());
        let ghost mid = self@;
        self.prune_finished();
        assert(mid.with_base(gb).live_effects() == mid.live_effects());
        CommandOutcome::Continue
    }

    /// Decides what the devices are told, given the clamped strength `next`
    /// for this tick and whether `next` is roughly the strength last sent.
    ///
    /// A strength equal to `off` stops the devices; otherwise a strength that
    /// differs from the last one is sent and remembered; otherwise nothing
    /// is sent.
    pub fn decide(&mut self, next: S, close_to_last: bool) -> (r: TickAction<S>)
        ensures
            match r {
                TickAction::StopDevices => {
                    &&& final(self)@ == old(self)@
                    &&& S::obeys_eq_spec() ==> next.eq_spec(&old(self)@.off)
                },
                TickAction::Vibrate(x) => {
                    &&& x == next
                    &&& !close_to_last
                    &&& final(self)@ == old(self)@.with_last(next)
                    &&& S::obeys_eq_spec() ==> !next.eq_spec(&old(self)@.off)
                },
                TickAction::Hold => {
                    &&& close_to_last
                    &&& final(self)@ == old(self)@
                    &&& S::obeys_eq_spec() ==> !next.eq_spec(&old(self)@.off)
                },
            },
    {
        if next == self.off {
            TickAction::StopDevices
        } else if !close_to_last {
            self.last = next;
            TickAction::Vibrate(next)
        } else {
            TickAction::Hold
        }
    }
}

/// A new effect takes part in the tick on which it is added exactly when it
/// has a nominal length of at least one tick: pruning after an `Add*` command
/// keeps the new effect if its length is positive, and drops it at once if
/// its length is zero.
pub proof fn law_new_effect_lives_iff_it_lasts<S: PartialOrd>(
    v: ControllerView<S>,
    cmd: VibrationCmd<S>,
)
    requires
        cmd.added_effect() is Some,
    ensures
        v.apply(cmd) == v.with_effects(v.effects.push(cmd.added_effect()->0)),
        cmd.added_effect()->0.total() == 0 ==> v.apply(cmd).live_effects() == v.live_effects(),
        cmd.added_effect()->0.total() > 0 ==> v.apply(cmd).live_effects() == v.live_effects().insert(
            cmd.added_effect()->0,
        ),
{
    broadcast use vstd::seq_lib::group_to_multiset_ensures;

    let e = cmd.added_effect()->0;
    assert(v.apply(cmd).effects =~= v.effects.push(e));
    assert(v.apply(cmd).effect_bag() =~= v.effect_bag().insert(e));
    if e.total() == 0 {
        assert(v.apply(cmd).live_effects() =~= v.live_effects());
    } else {
        assert(v.apply(cmd).live_effects() =~= v.live_effects().insert(e));
    }
}

/// Stopping the vibration sets the base to off and leaves no effect, so
/// nothing but the base remains to be felt; the strength last sent is kept.
pub proof fn law_stop_silences<S: PartialOrd>(v: ControllerView<S>)
    ensures
        v.apply(VibrationCmd::StopVibration).base == v.off,
        v.apply(VibrationCmd::StopVibration).effects.len() == 0,
        v.apply(VibrationCmd::StopVibration).live_effects() == Multiset::<VibrationEffect<S>>::empty(),
        v.apply(VibrationCmd::StopVibration).last == v.last,
{
    broadcast use vstd::seq_lib::group_to_multiset_ensures;

    assert(v.apply(VibrationCmd::StopVibration).effect_bag() =~= Multiset::empty());
    assert(v.apply(VibrationCmd::StopVibration).live_effects() =~= Multiset::empty());
}

/// The order in which two effects are added does not change which effects
/// run.
pub proof fn law_adding_effects_commutes<S: PartialOrd>(
    v: ControllerView<S>,
    a: VibrationCmd<S>,
    b: VibrationCmd<S>,
)
    requires
        a.added_effect() is Some,
        b.added_effect() is Some,
    ensures
        v.apply(a).apply(b).effect_bag() == v.apply(b).apply(a).effect_bag(),
        v.apply(a).apply(b).live_effects() == v.apply(b).apply(a).live_effects(),
        v.apply(a).apply(b).with_effects(Seq::empty()) == v.apply(b).apply(a).with_effects(
            Seq::empty(),
        ),
{
    broadcast use vstd::seq_lib::group_to_multiset_ensures;

    let x = a.added_effect()->0;
    let y = b.added_effect()->0;
    assert(v.apply(a).apply(b).effects =~= v.effects.push(x).push(y));
    assert(v.apply(b).apply(a).effects =~= v.effects.push(y).push(x));
    assert(v.apply(a).apply(b).effect_bag() =~= v.effect_bag().insert(x).insert(y));
    assert(v.apply(b).apply(a).effect_bag() =~= v.effect_bag().insert(y).insert(x));
    assert(v.apply(a).apply(b).effect_bag() =~= v.apply(b).apply(a).effect_bag());
    assert(v.apply(a).apply(b).live_effects() =~= v.apply(b).apply(a).live_effects());
}

/// Whether the base vibration lies in the controller's range: not below
/// `off` and not above `full`.
pub open spec fn base_in_range<S: PartialOrd>(v: ControllerView<S>) -> bool {
    !v.base.is_lt(&v.off) && !v.base.is_gt(&v.full)
}

/// On a strength type whose comparisons follow their specification, with
/// `off <= full`, the base vibration starts in range and every command keeps
/// it there; no command changes the range.
pub proof fn law_base_stays_in_range<S: PartialOrd>(v: ControllerView<S>, cmd: VibrationCmd<S>)
    requires
        obeys_partial_cmp_spec_properties::<S>(),
        v.off.is_le(&v.full),
    ensures
        base_in_range(v.with_base(v.off)),
        base_in_range(v) ==> base_in_range(v.apply(cmd)),
        v.apply(cmd).off == v.off,
        v.apply(cmd).full == v.full,
{
    law_clamp_stays_in_range(v.off, v.off, v.full);
    if let VibrationCmd::SetBase { strength } = cmd {
        law_clamp_stays_in_range(strength, v.off, v.full);
    }
}

/// The effect that each `Add*` command appends carries the command's own
/// fields and has run for no tick; nothing else of the state changes. A new
/// square wave starts with its `lo` when its low phase has any ticks, and a
/// new decay or ramp starts from its own peak and length.
pub proof fn law_add_appends_command_fields<S: PartialOrd>(
    v: ControllerView<S>,
    strength: S,
    lo: S,
    hi: S,
    ticks_lo: u8,
    ticks_hi: u8,
    ticks: u8,
)
    ensures
        v.apply(VibrationCmd::AddTempStatic { strength, ticks }) == v.with_effects(
            v.effects.push(VibrationEffect::Static { strength, ticks_total: ticks, ticks_elapsed: 0 }),
        ),
        v.apply(VibrationCmd::AddLinearDecay { peak: strength, ticks }) == v.with_effects(
            v.effects.push(
                VibrationEffect::LinDecay { peak: strength, ticks_total: ticks, ticks_elapsed: 0 },
            ),
        ),
        v.apply(VibrationCmd::AddLinearRamp { peak: strength, ticks }) == v.with_effects(
            v.effects.push(
                VibrationEffect::LinRamp { peak: strength, ticks_total: ticks, ticks_elapsed: 0 },
            ),
        ),
        v.apply(VibrationCmd::AddTempSqWave { lo, hi, ticks_lo, ticks_hi, ticks }) == v.with_effects(
            v.effects.push(
                VibrationEffect::SqWave {
                    lo,
                    hi,
                    ticks_lo,
                    ticks_hi,
                    ticks_total: ticks,
                    ticks_elapsed: 0,
                },
            ),
        ),
        (VibrationCmd::AddTempSqWave { lo, hi, ticks_lo, ticks_hi, ticks }).added_effect() == Some(
            VibrationEffect::SqWave {
                lo,
                hi,
                ticks_lo,
                ticks_hi,
                ticks_total: ticks,
                ticks_elapsed: 0,
            },
        ),
        (VibrationCmd::AddTempStatic { strength, ticks }).added_effect() == Some(
            VibrationEffect::Static { strength, ticks_total: ticks, ticks_elapsed: 0 },
        ),
        (VibrationCmd::AddLinearDecay { peak: strength, ticks }).added_effect() == Some(
            VibrationEffect::LinDecay { peak: strength, ticks_total: ticks, ticks_elapsed: 0 },
        ),
        (VibrationCmd::AddLinearRamp { peak: strength, ticks }).added_effect() == Some(
            VibrationEffect::LinRamp { peak: strength, ticks_total: ticks, ticks_elapsed: 0 },
        ),
        0 < ticks_lo ==> v.apply(
            VibrationCmd::AddTempSqWave { lo, hi, ticks_lo, ticks_hi, ticks },
        ).effects.last().level_spec() == EffectLevel::Constant(lo),
        v.apply(VibrationCmd::AddLinearDecay { peak: strength, ticks }).effects.last().level_spec()
            == (EffectLevel::Decay { peak: strength, ticks_elapsed: 0, ticks_total: ticks }),
        v.apply(VibrationCmd::AddLinearRamp { peak: strength, ticks }).effects.last().level_spec()
            == (EffectLevel::Ramp { peak: strength, ticks_elapsed: 0, ticks_total: ticks }),
{
    crate::effect::law_level_of_each_kind(strength, strength, lo, hi, ticks_lo, ticks_hi, ticks, 0);
}

/// Setting the base does not depend on the base before it: a strength
/// inside `off ..= full` becomes the base exactly, one below `off` gives
/// `off`, one above `full` gives `full`, and nothing else of the state
/// changes.
pub proof fn law_set_base<S: PartialOrd>(v: ControllerView<S>, strength: S, earlier: S)
    ensures
        v.apply(VibrationCmd::SetBase { strength }).base == v.with_base(earlier).apply(
            VibrationCmd::SetBase { strength },
        ).base,
        v.apply(VibrationCmd::SetBase { strength }).with_base(v.base) == v,
        !strength.is_lt(&v.off) && !strength.is_gt(&v.full) ==> v.apply(
            VibrationCmd::SetBase { strength },
        ).base == strength,
        strength.is_lt(&v.off) ==> v.apply(VibrationCmd::SetBase { strength }).base == v.off,
        !strength.is_lt(&v.off) && strength.is_gt(&v.full) ==> v.apply(
            VibrationCmd::SetBase { strength },
        ).base == v.full,
{
}

/// A batch of commands is its commands applied one by one: the empty batch
/// changes nothing, a command other than `Shutdown` appended to a batch
/// without `Shutdown` is applied after the batch, and nothing after a
/// `Shutdown` is applied. So a `SetBase` after a `StopVibration` in the same
/// batch sets the base.
pub proof fn law_batch_applies_in_turn<S: PartialOrd>(
    v: ControllerView<S>,
    cmds: Seq<VibrationCmd<S>>,
    c: VibrationCmd<S>,
    rest: Seq<VibrationCmd<S>>,
    strength: S,
)
    ensures
        v.apply_batch(Seq::empty()) == v,
        !holds_shutdown(cmds) && !(c is Shutdown) ==> v.apply_batch(cmds.push(c)) == v.apply_batch(
            cmds,
        ).apply(c),
        !holds_shutdown(cmds) ==> v.apply_batch(cmds + seq![VibrationCmd::Shutdown] + rest)
            == v.apply_batch(cmds),
        v.apply_batch(
            seq![VibrationCmd::StopVibration, VibrationCmd::SetBase { strength }],
        ).base == clamp_spec(strength, v.off, v.full),
    decreases cmds.len(),
{
    if cmds.len() > 0 && !holds_shutdown(cmds) {
        assert(!(cmds[0] is Shutdown));
        assert(!holds_shutdown(cmds.drop_first())) by {
            if holds_shutdown(cmds.drop_first()) {
                let i = choose|i: int|
                    0 <= i < cmds.drop_first().len() && #[trigger] cmds.drop_first()[i] is Shutdown;
                assert(cmds[i + 1] is Shutdown);
            }
        }
        law_batch_applies_in_turn(v.apply(cmds[0]), cmds.drop_first(), c, rest, strength);
        assert(cmds.push(c).drop_first() =~= cmds.drop_first().push(c));
        assert((cmds + seq![VibrationCmd::Shutdown] + rest).drop_first() =~= cmds.drop_first() + seq![
            VibrationCmd::Shutdown,
        ] + rest);
        assert((cmds.push(c))[0] == cmds[0]);
        assert((cmds + seq![VibrationCmd::Shutdown] + rest)[0] == cmds[0]);
        if !(c is Shutdown) {
            assert(v.apply_batch(cmds.push(c)) == v.apply(cmds[0]).apply_batch(
                cmds.drop_first().push(c),
            ));
            assert(v.apply_batch(cmds) == v.apply(cmds[0]).apply_batch(cmds.drop_first()));
        }
    } else if cmds.len() == 0 {
        assert(cmds.push(c) =~= seq![c]);
        assert(seq![c].drop_first() =~= Seq::<VibrationCmd<S>>::empty());
        assert((cmds + seq![VibrationCmd::Shutdown] + rest)[0] is Shutdown);
        if !(c is Shutdown) {
            assert(seq![c][0] == c);
            assert(v.apply(c).apply_batch(Seq::<VibrationCmd<S>>::empty()) == v.apply(c));
            assert(v.apply_batch(seq![c]) == v.apply(c).apply_batch(seq![c].drop_first()));
        }
    }
    let two = seq![VibrationCmd::StopVibration, VibrationCmd::SetBase { strength }];
    let one = seq![VibrationCmd::SetBase { strength }];
    let none = Seq::<VibrationCmd<S>>::empty();
    assert(two.drop_first() =~= one);
    assert(one.drop_first() =~= none);
    let w = v.apply(VibrationCmd::StopVibration);
    assert(w.apply(VibrationCmd::SetBase { strength }).apply_batch(none) == w.apply(
        VibrationCmd::SetBase { strength },
    ));
    assert(w.apply_batch(one) == w.apply(VibrationCmd::SetBase { strength }).apply_batch(none));
    assert(v.apply_batch(two) == w.apply_batch(one));
}

/// Pruning keeps exactly the live effects, each as often as before, and
/// lists them so: the live effects before the first finished one stay in
/// their places, the place of a finished effect is taken by the effect that
/// was last, and a list with nothing finished is left as it is.
pub proof fn law_pruned_order<S>(effects: Seq<VibrationEffect<S>>, i: int)
    ensures
        forall|j: int|
            0 <= j < pruned_order(effects, 0).len() ==> !(#[trigger] pruned_order(
                effects,
                0,
            )[j].finished()),
        forall|e: VibrationEffect<S>|
            #[trigger] pruned_order(effects, 0).to_multiset().count(e) == if e.finished() {
                0
            } else {
                effects.to_multiset().count(e)
            },
        (forall|j: int| 0 <= j < effects.len() ==> !(#[trigger] effects[j].finished()))
            ==> pruned_order(effects, 0) == effects,
        0 <= i < effects.len() && effects[i].finished() && (forall|j: int|
            0 <= j < i ==> !(#[trigger] effects[j].finished())) ==> {
            &&& forall|j: int| 0 <= j < i ==> #[trigger] pruned_order(effects, 0)[j] == effects[j]
            &&& !effects.last().finished() ==> pruned_order(effects, 0)[i] == effects.last()
        },
{
    lemma_pruned(effects, 0);
    if 0 <= i < effects.len() && effects[i].finished() && (forall|j: int|
        0 <= j < i ==> !(#[trigger] effects[j].finished())) {
        lemma_pruned(effects, i);
        lemma_pruned_skips_live_prefix(effects, i);
        if !effects.last().finished() {
            let t = effects.update(i, effects.last()).drop_last();
            assert(pruned_order(effects, i) == pruned_order(t, i));
            assert(!t[i].finished());
            assert(pruned_order(t, i) == pruned_order(t, i + 1));
            lemma_pruned(t, i + 1);
        }
    }
}

/// Pruning from place 0 goes past a live prefix unchanged.
proof fn lemma_pruned_skips_live_prefix<S>(effects: Seq<VibrationEffect<S>>, k: int)
    requires
        0 <= k <= effects.len(),
        forall|j: int| 0 <= j < k ==> !(#[trigger] effects[j].finished()),
    ensures
        pruned_order(effects, 0) == pruned_order(effects, k),
    decreases k,
{
    if k > 0 {
        lemma_pruned_skips_live_prefix(effects, k - 1);
        assert(!effects[k - 1].finished());
    }
}

/// What pruning from place `idx` keeps, when everything before `idx` is live.
proof fn lemma_pruned<S>(effects: Seq<VibrationEffect<S>>, idx: int)
    requires
        0 <= idx <= effects.len(),
        forall|j: int| 0 <= j < idx ==> !(#[trigger] effects[j].finished()),
    ensures
        pruned_order(effects, idx).len() >= idx,
        forall|j: int| 0 <= j < idx ==> #[trigger] pruned_order(effects, idx)[j] == effects[j],
        forall|j: int|
            0 <= j < pruned_order(effects, idx).len() ==> !(#[trigger] pruned_order(
                effects,
                idx,
            )[j].finished()),
        forall|e: VibrationEffect<S>|
            #[trigger] pruned_order(effects, idx).to_multiset().count(e) == if e.finished() {
                0
            } else {
                effects.to_multiset().count(e)
            },
        (forall|j: int| 0 <= j < effects.len() ==> !(#[trigger] effects[j].finished()))
            ==> pruned_order(effects, idx) == effects,
    decreases 2 * effects.len() - idx,
{
    broadcast use vstd::seq_lib::group_to_multiset_ensures;

    if idx == effects.len() {
        assert forall|e: VibrationEffect<S>| e.finished() implies effects.to_multiset().count(e)
            == 0 by {
            if effects.to_multiset().count(e) > 0 {
                assert(effects.contains(e));
                let k = choose|k: int| 0 <= k < effects.len() && effects[k] == e;
                assert(!effects[k].finished());
            }
        }
    } else if effects[idx].finished() {
        let t = effects.update(idx, effects.last()).drop_last();
        lemma_swap_remove_bag(effects, idx);
        assert forall|j: int| 0 <= j < idx implies !(#[trigger] t[j].finished()) by {
            assert(t[j] == effects[j]);
        }
        lemma_pruned(t, idx);
        assert forall|j: int| 0 <= j < idx implies #[trigger] pruned_order(effects, idx)[j]
            == effects[j] by {
            assert(t[j] == effects[j]);
        }
        assert forall|e: VibrationEffect<S>|
            #[trigger] pruned_order(effects, idx).to_multiset().count(e) == if e.finished() {
                0
            } else {
                effects.to_multiset().count(e)
            } by {
            if !e.finished() {
                assert(e != effects[idx]);
            }
        }
        assert(effects[idx].finished());
    } else {
        lemma_pruned(effects, idx + 1);
    }
}

/// Removing position `i` by `swap_remove` takes exactly that element out of
/// the multiset of a sequence.
proof fn lemma_swap_remove_bag<A>(s: Seq<A>, i: int)
    requires
        0 <= i < s.len(),
    ensures
        s.update(i, s.last()).drop_last().to_multiset() == s.to_multiset().remove(s[i]),
{
    broadcast use vstd::seq_lib::group_to_multiset_ensures;

    let n = s.len() - 1;
    if i == n {
        assert(s.update(i, s.last()).drop_last() =~= s.remove(i));
    } else {
        // Swapping the last element into place i and dropping the end is
        // removing place i and then moving the old last element.
        let t = s.remove(i);
        assert(s.update(i, s.last()).drop_last() =~= t.remove(n - 1).insert(i, s.last()));
        assert(t[n - 1] == s.last());
        assert(t.remove(n - 1).push(s.last()) =~= t.remove(n - 1).insert(n - 1, s.last()));
        lemma_insert_bag(t.remove(n - 1), i, s.last());
        lemma_insert_bag(t.remove(n - 1), n - 1, s.last());
    }
}

/// Inserting anywhere adds the element to the multiset of a sequence.
proof fn lemma_insert_bag<A>(s: Seq<A>, i: int, a: A)
    requires
        0 <= i <= s.len(),
    ensures
        s.insert(i, a).to_multiset() == s.to_multiset().insert(a),
{
    broadcast use vstd::seq_lib::group_to_multiset_ensures;

    let t = s.insert(i, a);
    assert(t.remove(i) =~= s);
    assert(t[i] == a);
    assert(t.to_multiset().remove(a) == s.to_multiset());
    assert(t.to_multiset().count(a) > 0) by {
        assert(t.contains(a));
    }
    assert(t.to_multiset() =~= s.to_multiset().insert(a));
}

} // verus!
