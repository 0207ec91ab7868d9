//! Waveform synthesis: a load-driven oscillator that yields one trace sample
//! per tick, with a periodic decaying pulse under high load and a calm,
//! flattened wave when the processor idles.
//!
//! Loads, phases, pulses, sines and samples are all counted in millionths.
//! The sine itself is taken as an input: the caller evaluates it at the angle
//! that [`sine_angle`] names for the tick.

use vstd::prelude::*;
use crate::units::{clamp_i64, clamp_int, percent_of, percent_of_i32, percent_of_u32, UNIT};

verus! {

/// Vertical trace position of one column, in millionths.
pub type Sample = i32;

/// Lowest sample value.
pub const SIGNAL_MIN: i32 = -1_000_000;

/// Highest sample value.
pub const SIGNAL_MAX: i32 = 1_000_000;

/// Phase advance per tick at zero load, in millionths of a radian.
pub const PHASE_DELTA_BASE: u32 = 250_000;

/// Additional phase advance per tick at full load, as a percentage of the load.
pub const PHASE_DELTA_LOAD_PERCENT: u32 = 70;

/// Phase bound past which the phase restarts from zero.
pub const PHASE_WRAP: u32 = 1_000_000_000;

/// Load above which the pulse may fire.
pub const PULSE_LOAD_THRESHOLD: u32 = 700_000;

/// Number of ticks between two opportunities for the pulse to fire.
pub const PULSE_INTERVAL_TICKS: u64 = 18;

/// Value the pulse is reset to when it fires.
pub const PULSE_PEAK: u32 = 1_000_000;

/// Percentage of the pulse that survives one tick.
pub const PULSE_DECAY_PERCENT: u32 = 65;

/// Percentage of the pulse that is added to the sample.
pub const PULSE_GAIN_PERCENT: u32 = 90;

/// Amplitude of the base wave, as a percentage of the sine.
pub const BASE_AMPLITUDE_PERCENT: u32 = 70;

/// Load below which the processor counts as idle.
pub const LOW_LOAD_THRESHOLD: u32 = 200_000;

/// Amplitude of the idle wave, as a percentage of the sine.
pub const LOW_LOAD_AMPLITUDE_PERCENT: u32 = 40;

/// Percentage of the phase that the idle wave uses as its angle.
pub const LOW_LOAD_PHASE_PERCENT: u32 = 70;

/// The two scalars the oscillator carries from tick to tick.
#[derive(Clone, Copy, Debug, PartialEq, Eq, Structural)]
pub struct OscillatorState {
    /// Accumulated angle, in millionths of a radian.
    pub phase: u32,
    /// Decaying impulse, in millionths.
    pub pulse: u32,
}

impl OscillatorState {
    /// The phase has not passed the wrap bound and the pulse is at most its peak.
    pub open spec fn wf(self) -> bool {
        self.phase <= PHASE_WRAP && self.pulse <= PULSE_PEAK
    }

    /// The state at rest: zero phase, no pulse.
    pub fn new() -> (state: OscillatorState)
        ensures
            state.phase == 0,
            state.pulse == 0,
            state.wf(),
    {
        OscillatorState { phase: 0, pulse: 0 }
    }
}

/// Whether `value` lies within the signal range.
pub open spec fn in_signal_range(value: int) -> bool {
    SIGNAL_MIN <= value <= SIGNAL_MAX
}

/// `value` limited to the signal range.
pub open spec fn clamped_sample(value: int) -> int {
    clamp_int(value, SIGNAL_MIN as int, SIGNAL_MAX as int)
}

/// A raw load reading limited to the range from nothing to one whole.
pub open spec fn clamped_load(raw: int) -> int {
    clamp_int(raw, 0, UNIT as int)
}

/// Whether a load counts as idle.
pub open spec fn is_idle(load: int) -> bool {
    load < LOW_LOAD_THRESHOLD
}

/// The phase advance of one tick under `load`.
pub open spec fn phase_delta_of(load: int) -> int {
    PHASE_DELTA_BASE + percent_of(load, PHASE_DELTA_LOAD_PERCENT as int)
}

/// Whether the pulse is reset to its peak on tick number `tick` under `load`.
pub open spec fn pulse_fires(load: int, tick: int) -> bool {
    load > PULSE_LOAD_THRESHOLD && tick % (PULSE_INTERVAL_TICKS as int) == 0
}

/// The pulse after tick number `tick`: reset to the peak if it fires, then
/// decayed once in either case.
pub open spec fn next_pulse(load: int, tick: int, pulse: int) -> int {
    percent_of(
        if pulse_fires(load, tick) {
            PULSE_PEAK as int
        } else {
            pulse
        },
        PULSE_DECAY_PERCENT as int,
    )
}

/// The angle whose sine shapes the sample of a tick that starts at `phase`.
pub open spec fn sine_angle_of(load: int, phase: int) -> int {
    if is_idle(load) {
        percent_of(phase, LOW_LOAD_PHASE_PERCENT as int)
    } else {
        phase
    }
}

/// The sample of one tick, from the load, the already decayed pulse and the
/// sine of the tick's angle.
pub open spec fn sample_of(load: int, pulse: int, sine: int) -> int {
    let wave: int = clamped_sample(sine);
    if is_idle(load) {
        clamped_sample(percent_of(wave, LOW_LOAD_AMPLITUDE_PERCENT as int))
    } else {
        clamped_sample(
            percent_of(wave, BASE_AMPLITUDE_PERCENT as int) + percent_of(
                pulse,
                PULSE_GAIN_PERCENT as int,
            ),
        )
    }
}

/// The phase after one tick: advanced by the load's delta, restarted from
/// zero once it would pass the wrap bound.
pub open spec fn next_phase(load: int, phase: int) -> int {
    let advanced: int = phase + phase_delta_of(load);
    if advanced > PHASE_WRAP {
        0
    } else {
        advanced
    }
}

/// Limits a value to the signal range.
pub fn clamp_sample(value: i64) -> (sample: Sample)
    ensures
        sample == clamped_sample(value as int),
        in_signal_range(sample as int),
{
    clamp_i64(value, SIGNAL_MIN as i64, SIGNAL_MAX as i64) as i32
}

/// Turns a raw load reading, in millionths of full capacity, into a load:
/// readings below nothing or above one whole are pulled to the nearer bound.
pub fn normalize_load(raw: i64) -> (load: u32)
    ensures
        load == clamped_load(raw as int),
        load <= UNIT,
{
    clamp_i64(raw, 0, UNIT as i64) as u32
}

/// The phase advance of one tick under `load`; a load above one whole counts
/// as one whole.
pub fn phase_delta(load: u32) -> (delta: u32)
    ensures
        delta == phase_delta_of(clamped_load(load as int)),
        PHASE_DELTA_BASE <= delta <= PHASE_DELTA_BASE + PHASE_DELTA_LOAD_PERCENT * 10_000,
{
    let load: u32 = normalize_load(load as i64);
    PHASE_DELTA_BASE + percent_of_u32(load, PHASE_DELTA_LOAD_PERCENT)
}

/// The angle, in millionths of a radian, whose sine the caller must supply to
/// [`advance`] for the tick that starts in `state` under `load`.
pub fn sine_angle(load: u32, state: OscillatorState) -> (angle: u32)
    ensures
        angle == sine_angle_of(clamped_load(load as int), state.phase as int),
        angle <= state.phase,
{
    let load: u32 = normalize_load(load as i64);
    if load < LOW_LOAD_THRESHOLD {
        percent_of_u32(state.phase, LOW_LOAD_PHASE_PERCENT)
    } else {
        state.phase
    }
}

/// The sample of a tick lies within the signal range, whatever the load, the
/// pulse and the sine are.
pub proof fn lemma_sample_in_signal_range(load: int, pulse: int, sine: int)
    ensures
        in_signal_range(sample_of(load, pulse, sine)),
{
}

/// Under an idle load the sample stays within the reduced amplitude band of
/// the idle wave and does not depend on the pulse.
pub proof fn lemma_idle_sample_is_calm(load: int, pulse: int, sine: int)
    requires
        is_idle(load),
    ensures
        -(LOW_LOAD_AMPLITUDE_PERCENT * 10_000) <= sample_of(load, pulse, sine)
            <= LOW_LOAD_AMPLITUDE_PERCENT * 10_000,
        sample_of(load, pulse, sine) == sample_of(load, 0, sine),
{
}

/// The pulse is reset to its peak exactly on the ticks whose number is a
/// multiple of the pulse interval, and only under a load above the pulse
/// threshold; on every other tick it merely decays, so it never grows.
pub proof fn lemma_pulse_cadence(load: int, tick: int, pulse: int)
    requires
        0 <= pulse,
    ensures
        pulse_fires(load, tick) ==> next_pulse(load, tick, pulse) == percent_of(
            PULSE_PEAK as int,
            PULSE_DECAY_PERCENT as int,
        ),
        !pulse_fires(load, tick) ==> next_pulse(load, tick, pulse) == percent_of(
            pulse,
            PULSE_DECAY_PERCENT as int,
        ) && next_pulse(load, tick, pulse) <= pulse,
        load <= PULSE_LOAD_THRESHOLD ==> !pulse_fires(load, tick),
        tick % (PULSE_INTERVAL_TICKS as int) != 0 ==> !pulse_fires(load, tick),
{
}

/// One tick of the oscillator.
///
/// `tick` is the number of the tick, `sine` the sine of the angle that
/// [`sine_angle`] gave for it. Returns the tick's sample and the state for
/// the next tick. The load and the sine are limited to their ranges before
/// use, so the sample lies within the signal range whatever is passed.
pub fn advance(load: u32, state: OscillatorState, tick: u64, sine: i32) -> (out: (
    Sample,
    OscillatorState,
))
    ensures
        out.1.pulse == next_pulse(clamped_load(load as int), tick as int, state.pulse as int),
        out.1.phase == next_phase(clamped_load(load as int), state.phase as int),
        out.0 == sample_of(clamped_load(load as int), out.1.pulse as int, sine as int),
        in_signal_range(out.0 as int),
        out.1.phase <= PHASE_WRAP,
        state.wf() ==> out.1.wf(),
{
    let load: u32 = normalize_load(load as i64);
    let fires = load > PULSE_LOAD_THRESHOLD && tick % PULSE_INTERVAL_TICKS == 0;
    let pulse: u32 = percent_of_u32(
        if fires {
            PULSE_PEAK
        } else {
            state.pulse
        },
        PULSE_DECAY_PERCENT,
    );
    let wave: i32 = clamp_sample(sine as i64);
    let sample: i32 = if load < LOW_LOAD_THRESHOLD {
        clamp_sample(percent_of_i32(wave, LOW_LOAD_AMPLITUDE_PERCENT) as i64)
    } else {
        let base: i32 = percent_of_i32(wave, BASE_AMPLITUDE_PERCENT);
        let lift: u32 = percent_of_u32(pulse, PULSE_GAIN_PERCENT);
        clamp_sample(base as i64 + lift as i64)
    };
    let advanced: u64 = state.phase as u64 + phase_delta(load) as u64;
    let phase: u32 = if advanced > PHASE_WRAP as u64 {
        0
    } else {
        advanced as u32
    };
    (sample, OscillatorState { phase, pulse })
}

} // verus!
