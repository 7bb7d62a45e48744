use vstd::prelude::*;

use vstd::arithmetic::div_mod::{lemma_add_mod_noop_right, lemma_mod_add_multiples_vanish};

use crate::state_machine::{Mode, LEVEL_MAX};

verus! {

/// Pulse width, in microseconds, that stands for a duty of 100 percent.
pub const MAX_DUTY_MICRO: u64 = 2500;

/// Pause between two frames of a slow ramp, in milliseconds.
pub const SLOW_RAMP_MS: u64 = 10;

/// Pause between two frames of a fast ramp, in milliseconds.
pub const FAST_RAMP_MS: u64 = 5;

/// Hold at the end of the standby and pan-shake animations, in milliseconds.
pub const SETTLE_MS: u64 = 500;

/// Which PWM channels a frame writes.
#[derive(Clone, Copy, Debug, PartialEq, Eq, Structural)]
pub enum Output {
    Pwm0,
    Pwm1,
    Both,
}

/// One element of an animation: write a duty percentage, or wait.
#[derive(Clone, Copy, Debug, PartialEq, Eq, Structural)]
pub enum Step {
    /// Set the duty of the given channels to this percentage.
    Duty(Output, u8),
    /// Sleep for this many milliseconds.
    Pause(u64),
}

/// Steady duty percentage of a brightness level.
pub open spec fn target_of(level: int) -> int {
    (level + 1) * 10
}

/// Number of frames of a ramp from `from` to `to`, both ends included.
pub open spec fn ramp_len(from: int, to: int) -> int {
    if from <= to { to - from + 1 } else { from - to + 1 }
}

/// Percentage of frame `i` of a ramp from `from` towards `to`.
pub open spec fn ramp_pct(from: int, to: int, i: int) -> int {
    if from <= to { from + i } else { from - i }
}

/// A ramp by one percentage point per frame from `from` to `to` (both
/// included) on `out`, each frame followed by a pause of `ms`.
pub open spec fn ramp(from: int, to: int, out: Output, ms: u64) -> Seq<Step> {
    Seq::new(
        (2 * ramp_len(from, to)) as nat,
        |k: int|
            if k % 2 == 0 {
                Step::Duty(out, ramp_pct(from, to, k / 2) as u8)
            } else {
                Step::Pause(ms)
            },
    )
}

/// The power-off animation: from the level's duty down to 0 on both channels, then 0 once more.
pub open spec fn power_off_steps(level: int) -> Seq<Step> {
    ramp(target_of(level), 0, Output::Both, SLOW_RAMP_MS).push(Step::Duty(Output::Both, 0))
}

/// The standby animation: 0 up to the level's duty and back to 0, then a hold.
pub open spec fn standby_steps(level: int) -> Seq<Step> {
    ramp(0, target_of(level), Output::Both, SLOW_RAMP_MS) + ramp(target_of(level), 0, Output::Both, SLOW_RAMP_MS)
        + seq![Step::Pause(SETTLE_MS)]
}

/// The power-on animation: both channels straight to the level's duty.
pub open spec fn power_on_steps(level: int) -> Seq<Step> {
    seq![Step::Duty(Output::Both, target_of(level) as u8)]
}

/// The pan-shake animation: two fast ramps from 0 up to the level's duty, then a hold.
pub open spec fn pan_shake_steps(level: int) -> Seq<Step> {
    ramp(0, target_of(level), Output::Both, FAST_RAMP_MS) + ramp(0, target_of(level), Output::Both, FAST_RAMP_MS)
        + seq![Step::Pause(SETTLE_MS)]
}

/// The level-change animation: channel 1 straight to the new level's duty;
/// channel 0 flashes from 50 up to 100 and settles back down to that duty.
pub open spec fn level_change_steps(level: int) -> Seq<Step> {
    seq![Step::Duty(Output::Pwm1, target_of(level) as u8)] + ramp(50, 100, Output::Pwm0, FAST_RAMP_MS)
        + ramp(100, target_of(level), Output::Pwm0, FAST_RAMP_MS)
}

/// The animation played on entering `mode` at `level`; none for the flicker mode,
/// which is driven tick by tick instead.
pub open spec fn entry_steps(mode: Mode, level: int) -> Seq<Step> {
    match mode {
        Mode::PowerOff => power_off_steps(level),
        Mode::Standby => standby_steps(level),
        Mode::PowerOn => power_on_steps(level),
        Mode::PanShake => pan_shake_steps(level),
        Mode::LevelUp | Mode::LevelDown => level_change_steps(level),
        Mode::Nikomi => Seq::empty(),
    }
}

/// Duty percentage of a brightness level: ten points per level, from 10 to 100.
pub fn duty_percent(level: u8) -> (r: u8)
    requires
        level <= LEVEL_MAX,
    ensures
        r == target_of(level as int),
        10 <= r <= 100,
{
    (level + 1) * 10
}

/// Pulse width in microseconds for a duty percentage.
pub fn duty_micros(percent: u8) -> (r: u64)
    requires
        percent <= 100,
    ensures
        r == MAX_DUTY_MICRO * percent / 100,
        r <= MAX_DUTY_MICRO,
{
    MAX_DUTY_MICRO * (percent as u64) / 100
}

/// Appends to `steps` a ramp from `from` to `to` on `out` with `ms` between frames.
fn push_ramp(steps: &mut Vec<Step>, from: u8, to: u8, out: Output, ms: u64)
    requires
        from <= 100,
        to <= 100,
    ensures
        final(steps)@ == old(steps)@ + ramp(from as int, to as int, out, ms),
{
    let ghost start = old(steps)@;
    let ghost whole = ramp(from as int, to as int, out, ms);
    let n: u8 = if from <= to { to - from + 1 } else { from - to + 1 };
    let mut i: u8 = 0;
    while i < n
        invariant
            from <= 100,
            to <= 100,
            n == ramp_len(from as int, to as int),
            whole == ramp(from as int, to as int, out, ms),
            0 <= i <= n,
            steps@ =~= start + whole.take(2 * i),
        decreases n - i,
    {
        let pct: u8 = if from <= to { from + i } else { from - i };
        steps.push(Step::Duty(out, pct));
        steps.push(Step::Pause(ms));
        proof {
            assert(whole[2 * i] == Step::Duty(out, pct));
            assert(whole[2 * i + 1] == Step::Pause(ms));
            assert(whole.take(2 * (i + 1)) =~= whole.take(2 * i).push(Step::Duty(out, pct)).push(Step::Pause(ms)));
        }
        i = i + 1;
    }
    proof {
        assert(whole.take(2 * n) =~= whole);
    }
}

/// The animation engine: turns a mode change into the frames to play on the two
/// PWM channels, and keeps the tick counter of the flicker effect.
pub struct AnimationEngine {
    pub time_stamp: u16,
}

/// The flicker tick `k` steps after a counter at `start`, wrapping at 16 bits.
pub open spec fn flicker_tick(start: u16, k: nat) -> u16 {
    ((start + k) % 0x1_0000) as u16
}

impl AnimationEngine {
    /// An engine whose flicker counter starts at 0.
    pub fn new() -> (r: AnimationEngine)
        ensures
            r.time_stamp == 0,
    {
        AnimationEngine { time_stamp: 0 }
    }

    /// One flicker step: hands out the current tick, from which both channels'
    /// duty is computed, and advances the counter, wrapping at 16 bits.
    pub fn nikomi(&mut self) -> (r: u16)
        ensures
            r == old(self).time_stamp,
            r == flicker_tick(old(self).time_stamp, 0),
            final(self).time_stamp == flicker_tick(old(self).time_stamp, 1),
    {
        let t = self.time_stamp;
        self.time_stamp = self.time_stamp.wrapping_add(1);
        t
    }

    /// Frames of the power-off animation.
    pub fn power_off(&self, level: &u8) -> (r: Vec<Step>)
        requires
            *level <= LEVEL_MAX,
        ensures
            r@ == power_off_steps(*level as int),
    {
        let start = duty_percent(*level);
        let mut steps: Vec<Step> = Vec::new();
        push_ramp(&mut steps, start, 0, Output::Both, SLOW_RAMP_MS);
        steps.push(Step::Duty(Output::Both, 0));
        steps
    }

    /// Frames of the standby animation.
    pub fn standby(&self, level: &u8) -> (r: Vec<Step>)
        requires
            *level <= LEVEL_MAX,
        ensures
            r@ == standby_steps(*level as int),
    {
        let target = duty_percent(*level);
        let mut steps: Vec<Step> = Vec::new();
        push_ramp(&mut steps, 0, target, Output::Both, SLOW_RAMP_MS);
        push_ramp(&mut steps, target, 0, Output::Both, SLOW_RAMP_MS);
        steps.push(Step::Pause(SETTLE_MS));
        proof {
            assert(steps@ =~= standby_steps(*level as int));
        }
        steps
    }

    /// Frames of the power-on animation.
    pub fn power_on(&self, level: &u8) -> (r: Vec<Step>)
        requires
            *level <= LEVEL_MAX,
        ensures
            r@ == power_on_steps(*level as int),
    {
        let target = duty_percent(*level);
        let mut steps: Vec<Step> = Vec::new();
        steps.push(Step::Duty(Output::Both, target));
        proof {
            assert(steps@ =~= power_on_steps(*level as int));
        }
        steps
    }

    /// Frames of the pan-shake animation.
    pub fn pan_shake(&self, level: &u8) -> (r: Vec<Step>)
        requires
            *level <= LEVEL_MAX,
        ensures
            r@ == pan_shake_steps(*level as int),
    {
        let target = duty_percent(*level);
        let mut steps: Vec<Step> = Vec::new();
        let mut rep: u8 = 0;
        while rep < 2
            invariant
                rep <= 2,
                target == target_of(*level as int),
                target <= 100,
                rep == 0 ==> steps@ == Seq::<Step>::empty(),
                rep == 1 ==> steps@ == ramp(0, target as int, Output::Both, FAST_RAMP_MS),
                rep == 2 ==> steps@ == ramp(0, target as int, Output::Both, FAST_RAMP_MS) + ramp(
                    0,
                    target as int,
                    Output::Both,
                    FAST_RAMP_MS,
                ),
            decreases 2 - rep,
        {
            push_ramp(&mut steps, 0, target, Output::Both, FAST_RAMP_MS);
            proof {
                if rep == 0 {
                    assert(steps@ =~= ramp(0, target as int, Output::Both, FAST_RAMP_MS));
                }
            }
            rep = rep + 1;
        }
        steps.push(Step::Pause(SETTLE_MS));
        proof {
            assert(steps@ =~= pan_shake_steps(*level as int));
        }
        steps
    }

    /// Frames of the level-change animation, played for `LevelUp` and `LevelDown`
    /// with the level already changed.
    pub fn level_change(&self, level: &u8) -> (r: Vec<Step>)
        requires
            *level <= LEVEL_MAX,
        ensures
            r@ == level_change_steps(*level as int),
    {
        let target = duty_percent(*level);
        let mut steps: Vec<Step> = Vec::new();
        steps.push(Step::Duty(Output::Pwm1, target));
        push_ramp(&mut steps, 50, 100, Output::Pwm0, FAST_RAMP_MS);
        push_ramp(&mut steps, 100, target, Output::Pwm0, FAST_RAMP_MS);
        proof {
            assert(steps@ =~= level_change_steps(*level as int));
        }
        steps
    }

    /// Frames played on entering `mode` at `level`.
    pub fn enter(&self, mode: Mode, level: &u8) -> (r: Vec<Step>)
        requires
            *level <= LEVEL_MAX,
        ensures
            r@ == entry_steps(mode, *level as int),
    {
        match mode {
            Mode::PowerOff => self.power_off(level),
            Mode::Standby => self.standby(level),
            Mode::PowerOn => self.power_on(level),
            Mode::PanShake => self.pan_shake(level),
            Mode::LevelUp | Mode::LevelDown => self.level_change(level),
            Mode::Nikomi => Vec::new(),
        }
    }
}

/// The ticks handed out by `n` successive flicker steps from a counter at `start`.
pub open spec fn flicker_run(start: u16, n: nat) -> Seq<u16> {
    Seq::new(n, |i: int| flicker_tick(start, i as nat))
}

/// The flicker output depends on nothing but the counter: `j + k` steps from
/// `start` hand out the ticks of `j` steps followed by those of `k` steps from
/// where the first `j` left the counter, so two engines whose counters agree
/// produce the same duty sequence; and the ticks repeat every 65536 steps.
pub proof fn flicker_is_deterministic_and_periodic(start: u16, j: nat, k: nat)
    ensures
        flicker_tick(flicker_tick(start, j), k) == flicker_tick(start, j + k),
        flicker_run(start, j + k) == flicker_run(start, j) + flicker_run(flicker_tick(start, j), k),
        flicker_tick(start, k + 0x1_0000) == flicker_tick(start, k),
{
    assert forall|i: nat| #[trigger] flicker_tick(flicker_tick(start, j), i) == flicker_tick(start, j + i) by {
        lemma_add_mod_noop_right(i as int, start + j, 0x1_0000);
    }
    assert(flicker_run(start, j + k) =~= flicker_run(start, j) + flicker_run(flicker_tick(start, j), k)) by {
        assert forall|i: int| j <= i < j + k implies #[trigger] flicker_run(start, j + k)[i] == flicker_run(
            flicker_tick(start, j),
            k,
        )[i - j] by {
            assert(flicker_tick(flicker_tick(start, j), (i - j) as nat) == flicker_tick(start, j + (i - j) as nat));
        }
    }
    lemma_mod_add_multiples_vanish(start + k, 0x1_0000);
}

} // verus!
