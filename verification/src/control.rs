//! The control loop's decisions: frame pacing, key handling, and the step
//! that carries the whole animation from one drawn tick to the next.

use vstd::prelude::*;
use crate::frame::{
    frame_ops, ops_view, plot_width_of, render, DrawOp, RenderMetrics, FOOTER_ROWS, HEADER_ROWS,
    LEFT_GUTTER,
};
use crate::signal::{
    advance, clamped_load, in_signal_range, next_phase, next_pulse, normalize_load, phase_delta,
    phase_delta_of, sample_of, sine_angle, sine_angle_of, OscillatorState, Sample,
};
use crate::window::{
    lemma_resize_then_push, lemma_resized_contents, pushed, repeated, resized, SampleWindow,
};

verus! {

/// Frame rate at start, in frames per second.
pub const FPS_DEFAULT: u32 = 30;

/// Lowest frame rate.
pub const FPS_MIN: u32 = 10;

/// Highest frame rate.
pub const FPS_MAX: u32 = 60;

/// Change of the frame rate per key press.
pub const FPS_STEP: u32 = 5;

/// Milliseconds in a second.
pub const MILLIS_PER_SEC: u64 = 1000;

/// Nanoseconds in a millisecond.
pub const NANOS_PER_MILLI: u64 = 1_000_000;

/// Number of the first tick.
pub const START_TICK: u64 = 1;

/// The key of a key press, as far as the program tells keys apart.
#[derive(Clone, Copy, Debug, PartialEq, Eq, Structural)]
pub enum Key {
    /// A key that produces a character.
    Char(char),
    /// The escape key.
    Esc,
    /// Any other key.
    Other,
}

/// A key press: the key, and whether the control modifier was held.
#[derive(Clone, Copy, Debug, PartialEq, Eq, Structural)]
pub struct KeyPress {
    pub key: Key,
    pub control: bool,
}

/// What a key press asks for.
#[derive(Clone, Copy, Debug, PartialEq, Eq, Structural)]
pub enum Command {
    /// Leave the program.
    Quit,
    /// Raise the frame rate by one step.
    Faster,
    /// Lower the frame rate by one step.
    Slower,
    /// Nothing: the key has no meaning.
    Ignore,
}

/// What the loop does next.
#[derive(Clone, Copy, Debug, PartialEq, Eq, Structural)]
pub enum Pace {
    /// Wait for input, for at most this many nanoseconds.
    Wait(u64),
    /// Draw the next frame.
    Draw,
}

/// The frame rate one step up, capped at the highest.
pub open spec fn raised_fps(fps: int) -> int {
    if fps + FPS_STEP < FPS_MAX {
        fps + FPS_STEP
    } else {
        FPS_MAX as int
    }
}

/// The frame rate one step down, floored at the lowest.
pub open spec fn lowered_fps(fps: int) -> int {
    if fps - FPS_STEP > FPS_MIN {
        fps - FPS_STEP
    } else {
        FPS_MIN as int
    }
}

/// The frame rate after a command.
pub open spec fn fps_after(fps: int, command: Command) -> int {
    match command {
        Command::Faster => raised_fps(fps),
        Command::Slower => lowered_fps(fps),
        _ => fps,
    }
}

/// The frame rate after a sequence of commands, applied in order.
pub open spec fn fps_after_all(fps: int, commands: Seq<Command>) -> int
    decreases commands.len(),
{
    if commands.len() == 0 {
        fps
    } else {
        fps_after(fps_after_all(fps, commands.drop_last()), commands.last())
    }
}

/// What a key press asks for: `q` and escape quit, as does `c` with the
/// control modifier; `+` and `=` raise the frame rate, `-` and `_` lower it.
pub open spec fn command_of(press: KeyPress) -> Command {
    match press.key {
        Key::Esc => Command::Quit,
        Key::Char(c) => if c == 'q' || (c == 'c' && press.control) {
            Command::Quit
        } else if c == '+' || c == '=' {
            Command::Faster
        } else if c == '-' || c == '_' {
            Command::Slower
        } else {
            Command::Ignore
        },
        Key::Other => Command::Ignore,
    }
}

/// The time one frame may take at a frame rate, in whole milliseconds; a rate
/// of zero counts as one frame per second.
pub open spec fn frame_budget_millis(fps: int) -> int {
    MILLIS_PER_SEC as int / (if fps >= 1 {
        fps
    } else {
        1
    })
}

/// What the loop does when `elapsed_nanos` have passed since the last frame:
/// it draws once the frame's budget is used up, and until then waits for
/// input for what is left of it.
pub open spec fn pace_of(elapsed_nanos: int, fps: int) -> Pace {
    let budget: int = frame_budget_millis(fps) * NANOS_PER_MILLI;
    if elapsed_nanos < budget {
        Pace::Wait((budget - elapsed_nanos) as u64)
    } else {
        Pace::Draw
    }
}

/// A single step never leaves the range of frame rates, and changes the rate
/// by exactly one step unless the bound is nearer than that.
pub proof fn lemma_fps_step(fps: int)
    requires
        FPS_MIN <= fps <= FPS_MAX,
    ensures
        FPS_MIN <= raised_fps(fps) <= FPS_MAX,
        FPS_MIN <= lowered_fps(fps) <= FPS_MAX,
        fps + FPS_STEP <= FPS_MAX ==> raised_fps(fps) == fps + FPS_STEP,
        fps + FPS_STEP > FPS_MAX ==> raised_fps(fps) == FPS_MAX,
        fps - FPS_STEP >= FPS_MIN ==> lowered_fps(fps) == fps - FPS_STEP,
        fps - FPS_STEP < FPS_MIN ==> lowered_fps(fps) == FPS_MIN,
{
}

/// No sequence of commands, however long, takes the frame rate above the
/// highest or below the lowest rate.
pub proof fn lemma_fps_stays_bounded(fps: int, commands: Seq<Command>)
    requires
        FPS_MIN <= fps <= FPS_MAX,
    ensures
        FPS_MIN <= fps_after_all(fps, commands) <= FPS_MAX,
    decreases commands.len(),
{
    if commands.len() > 0 {
        lemma_fps_stays_bounded(fps, commands.drop_last());
    }
}

/// The frame rate one step up, capped at the highest.
pub fn raise_fps(fps: u32) -> (raised: u32)
    ensures
        raised == raised_fps(fps as int),
        raised <= FPS_MAX,
        fps + FPS_STEP <= FPS_MAX ==> raised == fps + FPS_STEP,
        fps + FPS_STEP > FPS_MAX ==> raised == FPS_MAX,
{
    if fps < FPS_MAX - FPS_STEP {
        fps + FPS_STEP
    } else {
        FPS_MAX
    }
}

/// The frame rate one step down, floored at the lowest.
pub fn lower_fps(fps: u32) -> (lowered: u32)
    ensures
        lowered == lowered_fps(fps as int),
        lowered >= FPS_MIN,
        fps - FPS_STEP >= FPS_MIN ==> lowered == fps - FPS_STEP,
        fps - FPS_STEP < FPS_MIN ==> lowered == FPS_MIN,
{
    if fps > FPS_MIN + FPS_STEP {
        fps - FPS_STEP
    } else {
        FPS_MIN
    }
}

/// What a key press asks for.
pub fn command_for(press: KeyPress) -> (command: Command)
    ensures
        command == command_of(press),
{
    match press.key {
        Key::Esc => Command::Quit,
        Key::Char(c) => {
            if c == 'q' || (c == 'c' && press.control) {
                Command::Quit
            } else if c == '+' || c == '=' {
                Command::Faster
            } else if c == '-' || c == '_' {
                Command::Slower
            } else {
                Command::Ignore
            }
        },
        Key::Other => Command::Ignore,
    }
}

/// The time one frame may take at a frame rate, in nanoseconds.
pub fn frame_budget_nanos(fps: u32) -> (budget: u64)
    ensures
        budget == frame_budget_millis(fps as int) * NANOS_PER_MILLI,
        budget <= MILLIS_PER_SEC * NANOS_PER_MILLI,
{
    let rate: u64 = if fps >= 1 {
        fps as u64
    } else {
        1
    };
    (MILLIS_PER_SEC / rate) * NANOS_PER_MILLI
}

/// Decides between waiting for input and drawing, from the nanoseconds that
/// have passed since the last frame and the frame rate.
pub fn pace(elapsed_nanos: u128, fps: u32) -> (next: Pace)
    ensures
        next == pace_of(elapsed_nanos as int, fps as int),
{
    let budget: u64 = frame_budget_nanos(fps);
    if elapsed_nanos < budget as u128 {
        Pace::Wait(budget - elapsed_nanos as u64)
    } else {
        Pace::Draw
    }
}

/// Everything the animation carries from one tick to the next.
#[derive(Debug, PartialEq, Eq)]
pub struct Animation {
    /// Frames per second.
    pub fps: u32,
    /// Phase and pulse of the oscillator.
    pub oscillator: OscillatorState,
    /// The most recent samples, one per plot column.
    pub window: SampleWindow,
    /// Number of the next tick.
    pub tick: u64,
    /// Terminal size, columns then rows, at the last drawn frame.
    pub last_size: (u16, u16),
    /// Whether the window has been filled by a first sample.
    pub seeded: bool,
}

/// Whether a terminal of this size leaves room for a plot at all: more rows
/// than header and footer take, and at least one column right of the gutter.
pub open spec fn has_plot(width: int, height: int) -> bool {
    height > HEADER_ROWS + FOOTER_ROWS && plot_width_of(width) > 0
}

/// The window after a drawn tick: a window that was never seeded is filled
/// with the tick's sample; a seeded one is resized to the plot width, new
/// slots repeating its newest sample, and then takes the tick's sample.
pub open spec fn window_after(
    samples: Seq<Sample>,
    seeded: bool,
    plot_width: int,
    sample: Sample,
) -> Seq<Sample> {
    if !seeded {
        repeated(sample, plot_width)
    } else {
        let fill: Sample = if samples.len() > 0 {
            samples.last()
        } else {
            sample
        };
        pushed(resized(samples, plot_width, fill), plot_width, sample)
    }
}

/// The window of a drawn tick holds one sample per plot column, and all of
/// them lie within the signal range if the earlier ones and the new one do.
pub proof fn lemma_window_after(
    samples: Seq<Sample>,
    seeded: bool,
    plot_width: int,
    sample: Sample,
)
    requires
        0 <= plot_width,
        in_signal_range(sample as int),
        forall|i: int| 0 <= i < samples.len() ==> in_signal_range(#[trigger] samples[i] as int),
    ensures
        window_after(samples, seeded, plot_width, sample).len() == plot_width,
        forall|i: int|
            0 <= i < plot_width ==> in_signal_range(
                #[trigger] window_after(samples, seeded, plot_width, sample)[i] as int,
            ),
{
    if seeded {
        let fill: Sample = if samples.len() > 0 {
            samples.last()
        } else {
            sample
        };
        lemma_resized_contents(samples, plot_width, fill);
        let wide: Seq<Sample> = resized(samples, plot_width, fill);
        assert forall|i: int| 0 <= i < plot_width implies in_signal_range(
            #[trigger] pushed(wide, plot_width, sample)[i] as int,
        ) by {
            if i < plot_width - 1 {
                assert(pushed(wide, plot_width, sample)[i] == wide[i + 1]);
            }
        }
    }
}

impl Animation {
    /// The oscillator is well formed, the frame rate is within its bounds,
    /// the window holds no more samples than its width allows, and every
    /// sample in it lies within the signal range.
    pub open spec fn wf(&self) -> bool {
        &&& self.oscillator.wf()
        &&& FPS_MIN <= self.fps <= FPS_MAX
        &&& self.window.wf()
        &&& forall|i: int|
            0 <= i < self.window@.len() ==> in_signal_range(#[trigger] self.window@[i] as int)
    }

    /// The animation at start: default frame rate, oscillator at rest, empty
    /// window, first tick ahead, and `size` as the terminal size seen last.
    pub fn new(size: (u16, u16)) -> (animation: Animation)
        ensures
            animation.wf(),
            animation.fps == FPS_DEFAULT,
            animation.oscillator == (OscillatorState { phase: 0, pulse: 0 }),
            animation.window@ == Seq::<Sample>::empty(),
            animation.tick == START_TICK,
            animation.last_size == size,
            !animation.seeded,
    {
        Animation {
            fps: FPS_DEFAULT,
            oscillator: OscillatorState::new(),
            window: SampleWindow::new(),
            tick: START_TICK,
            last_size: size,
            seeded: false,
        }
    }

    /// Applies a key press: changes the frame rate if the key asks for it,
    /// and tells whether the key asks to quit. Nothing else changes.
    pub fn handle_key(&mut self, press: KeyPress) -> (quit: bool)
        ensures
            old(self).wf() ==> final(self).wf(),
            quit == (command_of(press) == Command::Quit),
            final(self).fps == fps_after(old(self).fps as int, command_of(press)),
            final(self).oscillator == old(self).oscillator,
            final(self).window == old(self).window,
            final(self).tick == old(self).tick,
            final(self).last_size == old(self).last_size,
            final(self).seeded == old(self).seeded,
    {
        match command_for(press) {
            Command::Quit => true,
            Command::Faster => {
                self.fps = raise_fps(self.fps);
                false
            },
            Command::Slower => {
                self.fps = lower_fps(self.fps);
                false
            },
            Command::Ignore => false,
        }
    }

    /// The angle, in millionths of a radian, whose sine the caller must
    /// supply to [`Animation::step`] for the coming tick under `load`.
    pub fn sine_angle(&self, load: u32) -> (angle: u32)
        ensures
            angle == sine_angle_of(clamped_load(load as int), self.oscillator.phase as int),
    {
        sine_angle(load, self.oscillator)
    }

    /// One tick of the drawing phase on a terminal of `width` columns and
    /// `height` rows, under `load`, with `sine` the sine of the angle that
    /// [`Animation::sine_angle`] gave.
    ///
    /// Where the terminal leaves no room for a plot, only the tick number
    /// advances. Otherwise the oscillator advances, its sample enters the
    /// window, which afterwards holds exactly one sample per plot column, and
    /// the frame is composed; the screen is cleared first if the terminal
    /// size differs from the one seen last. Returns the frame's operations.
    pub fn step(&mut self, load: u32, width: u16, height: u16, sine: i32) -> (ops: Vec<DrawOp>)
        ensures
            old(self).wf() ==> final(self).wf(),
            final(self).fps == old(self).fps,
            final(self).tick == if old(self).tick < u64::MAX {
                old(self).tick + 1
            } else {
                old(self).tick as int
            },
            !has_plot(width as int, height as int) ==> {
                &&& ops@.len() == 0
                &&& final(self).oscillator == old(self).oscillator
                &&& final(self).window == old(self).window
                &&& final(self).last_size == old(self).last_size
                &&& final(self).seeded == old(self).seeded
            },
            has_plot(width as int, height as int) ==> {
                let load: int = clamped_load(load as int);
                let sample: int = sample_of(load, final(self).oscillator.pulse as int, sine as int);
                &&& final(self).oscillator.pulse == next_pulse(
                    load,
                    old(self).tick as int,
                    old(self).oscillator.pulse as int,
                )
                &&& final(self).oscillator.phase == next_phase(
                    load,
                    old(self).oscillator.phase as int,
                )
                &&& final(self).window@ == window_after(
                    old(self).window@,
                    old(self).seeded,
                    plot_width_of(width as int),
                    sample as Sample,
                )
                &&& final(self).window@.len() == plot_width_of(width as int)
                &&& final(self).last_size == (width, height)
                &&& final(self).seeded
                &&& ops_view(ops@) == frame_ops(
                    width as int,
                    height as int,
                    final(self).window@,
                    RenderMetrics {
                        load: load as u32,
                        phase: final(self).oscillator.phase,
                        pulse: final(self).oscillator.pulse,
                        fps: old(self).fps,
                        phase_delta: phase_delta_of(load) as u32,
                    },
                    old(self).last_size != (width, height),
                )
            },
    {
        let load: u32 = normalize_load(load as i64);
        let plot_width: usize = width.saturating_sub(LEFT_GUTTER) as usize;
        let mut ops: Vec<DrawOp> = Vec::new();
        if height > HEADER_ROWS + FOOTER_ROWS && plot_width > 0 {
            let delta: u32 = phase_delta(load);
            let (sample, oscillator) = advance(load, self.oscillator, self.tick, sine);
            self.oscillator = oscillator;
            let full_clear: bool = width != self.last_size.0 || height != self.last_size.1;
            if full_clear {
                self.last_size = (width, height);
            }
            proof {
                if old(self).wf() {
                    lemma_window_after(
                        old(self).window@,
                        old(self).seeded,
                        plot_width as int,
                        sample,
                    );
                }
                lemma_resize_then_push(
                    old(self).window@,
                    plot_width as int,
                    if old(self).window@.len() > 0 {
                        old(self).window@.last()
                    } else {
                        sample
                    },
                    sample,
                );
            }
            if !self.seeded {
                self.window.seed(plot_width, sample);
                self.seeded = true;
            } else {
                let fill: Sample = match self.window.last() {
                    Some(newest) => newest,
                    None => sample,
                };
                self.window.resize(plot_width, fill);
                self.window.push(sample);
            }
            let metrics = RenderMetrics {
                load,
                phase: self.oscillator.phase,
                pulse: self.oscillator.pulse,
                fps: self.fps,
                phase_delta: delta,
            };
            ops = render(width, height, self.window.as_slice(), &metrics, full_clear);
        }
        self.tick = self.tick.saturating_add(1);
        ops
    }
}

} // verus!
