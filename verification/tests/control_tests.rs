use cpu_ecg::control::{
    command_for, frame_budget_nanos, lower_fps, pace, raise_fps, Animation, Command, Key,
    KeyPress, Pace, FPS_DEFAULT, FPS_MAX, FPS_MIN,
};
use cpu_ecg::frame::{render, Color, DrawOp, RenderMetrics};
use cpu_ecg::signal::{OscillatorState, SIGNAL_MAX, SIGNAL_MIN};

fn sine_of(angle: u32) -> i32 {
    ((angle as f64 / 1_000_000.0).sin() * 1_000_000.0).round() as i32
}

fn press(c: char) -> KeyPress {
    KeyPress { key: Key::Char(c), control: false }
}

fn tick(animation: &mut Animation, load: u32, width: u16, height: u16) -> Vec<DrawOp> {
    let sine = sine_of(animation.sine_angle(load));
    animation.step(load, width, height, sine)
}

#[test]
fn raise_fps_steps_by_five_up_to_sixty() {
    assert_eq!(raise_fps(30), 35);
    assert_eq!(raise_fps(10), 15);
    assert_eq!(raise_fps(55), 60);
    assert_eq!(raise_fps(57), 60);
    assert_eq!(raise_fps(60), 60);
    assert_eq!(raise_fps(u32::MAX), 60);
}

#[test]
fn lower_fps_steps_by_five_down_to_ten() {
    assert_eq!(lower_fps(30), 25);
    assert_eq!(lower_fps(60), 55);
    assert_eq!(lower_fps(15), 10);
    assert_eq!(lower_fps(12), 10);
    assert_eq!(lower_fps(10), 10);
    assert_eq!(lower_fps(0), 10);
}

#[test]
fn repeated_rate_changes_stay_within_bounds() {
    let mut fps = FPS_DEFAULT;
    let mut seen = Vec::new();
    for _ in 0..20 {
        let next = raise_fps(fps);
        assert!(next == fps + 5 || next == FPS_MAX);
        assert!(next <= FPS_MAX);
        fps = next;
        seen.push(fps);
    }
    assert_eq!(&seen[..7], &[35, 40, 45, 50, 55, 60, 60]);
    assert_eq!(fps, FPS_MAX);
    for _ in 0..20 {
        let next = lower_fps(fps);
        assert!(next + 5 == fps || next == FPS_MIN);
        assert!(next >= FPS_MIN);
        fps = next;
    }
    assert_eq!(fps, FPS_MIN);
}

#[test]
fn command_for_quit_keys() {
    assert_eq!(command_for(press('q')), Command::Quit);
    assert_eq!(command_for(KeyPress { key: Key::Esc, control: false }), Command::Quit);
    assert_eq!(command_for(KeyPress { key: Key::Esc, control: true }), Command::Quit);
    assert_eq!(command_for(KeyPress { key: Key::Char('c'), control: true }), Command::Quit);
    assert_eq!(command_for(KeyPress { key: Key::Char('q'), control: true }), Command::Quit);
    assert_eq!(command_for(press('c')), Command::Ignore);
    assert_eq!(command_for(press('Q')), Command::Ignore);
}

#[test]
fn command_for_rate_keys() {
    assert_eq!(command_for(press('+')), Command::Faster);
    assert_eq!(command_for(press('=')), Command::Faster);
    assert_eq!(command_for(press('-')), Command::Slower);
    assert_eq!(command_for(press('_')), Command::Slower);
    assert_eq!(command_for(KeyPress { key: Key::Char('+'), control: true }), Command::Faster);
    assert_eq!(command_for(press('x')), Command::Ignore);
    assert_eq!(command_for(KeyPress { key: Key::Other, control: true }), Command::Ignore);
}

#[test]
fn frame_budget_is_whole_milliseconds() {
    assert_eq!(frame_budget_nanos(30), 33_000_000);
    assert_eq!(frame_budget_nanos(10), 100_000_000);
    assert_eq!(frame_budget_nanos(60), 16_000_000);
    assert_eq!(frame_budget_nanos(1), 1_000_000_000);
    assert_eq!(frame_budget_nanos(0), 1_000_000_000);
    assert_eq!(frame_budget_nanos(1_001), 0);
}

#[test]
fn pace_waits_for_the_rest_of_the_budget() {
    assert_eq!(pace(0, 30), Pace::Wait(33_000_000));
    assert_eq!(pace(1, 30), Pace::Wait(32_999_999));
    assert_eq!(pace(32_999_999, 30), Pace::Wait(1));
    assert_eq!(pace(33_000_000, 30), Pace::Draw);
    assert_eq!(pace(u128::MAX, 30), Pace::Draw);
    assert_eq!(pace(99_999_999, 10), Pace::Wait(1));
    assert_eq!(pace(0, 5_000), Pace::Draw);
}

#[test]
fn animation_starts_at_rest() {
    let animation = Animation::new((80, 24));
    assert_eq!(animation.fps, 30);
    assert_eq!(animation.oscillator, OscillatorState { phase: 0, pulse: 0 });
    assert_eq!(animation.window.len(), 0);
    assert_eq!(animation.tick, 1);
    assert_eq!(animation.last_size, (80, 24));
    assert!(!animation.seeded);
}

#[test]
fn handle_key_changes_only_the_frame_rate() {
    let mut animation = Animation::new((80, 24));
    tick(&mut animation, 300_000, 80, 24);
    let window = animation.window.clone();
    let oscillator = animation.oscillator;
    assert!(!animation.handle_key(press('+')));
    assert_eq!(animation.fps, 35);
    assert!(!animation.handle_key(press('-')));
    assert!(!animation.handle_key(press('_')));
    assert_eq!(animation.fps, 25);
    assert!(!animation.handle_key(press('z')));
    assert_eq!(animation.fps, 25);
    assert!(animation.handle_key(press('q')));
    assert!(animation.handle_key(KeyPress { key: Key::Char('c'), control: true }));
    assert_eq!(animation.fps, 25);
    assert_eq!(animation.window, window);
    assert_eq!(animation.oscillator, oscillator);
    assert_eq!(animation.tick, 2);
    for _ in 0..30 {
        animation.handle_key(press('='));
    }
    assert_eq!(animation.fps, 60);
    for _ in 0..30 {
        animation.handle_key(press('-'));
    }
    assert_eq!(animation.fps, 10);
}

#[test]
fn step_without_room_for_a_plot_only_counts_the_tick() {
    let mut animation = Animation::new((0, 0));
    assert!(tick(&mut animation, 900_000, 80, 2).is_empty());
    assert!(tick(&mut animation, 900_000, 5, 24).is_empty());
    assert!(tick(&mut animation, 900_000, 0, 0).is_empty());
    assert_eq!(animation.tick, 4);
    assert_eq!(animation.oscillator, OscillatorState { phase: 0, pulse: 0 });
    assert_eq!(animation.window.len(), 0);
    assert_eq!(animation.last_size, (0, 0));
    assert!(!animation.seeded);
}

#[test]
fn step_below_minimum_plot_advances_without_drawing() {
    let mut animation = Animation::new((0, 0));
    // plot of 3 columns and 1 row: too small to draw, large enough to run
    assert!(tick(&mut animation, 500_000, 8, 3).is_empty());
    assert_eq!(animation.tick, 2);
    assert_eq!(animation.oscillator.phase, 600_000);
    assert_eq!(animation.window.len(), 3);
    assert_eq!(animation.last_size, (8, 3));
    assert!(animation.seeded);
}

#[test]
fn first_frame_seeds_the_whole_window() {
    let mut animation = Animation::new((40, 12));
    animation.oscillator = OscillatorState { phase: 1_570_796, pulse: 0 };
    let ops = tick(&mut animation, 500_000, 40, 12);
    assert_eq!(animation.window.as_slice(), &[700_000; 35]);
    assert!(animation.seeded);
    // same size as seen at start: no clearing
    assert_eq!(ops[0], DrawOp::MoveTo(0, 0));
    assert!(ops.contains(&DrawOp::SetForeground(Color::Yellow)));
}

#[test]
fn step_clears_the_screen_when_the_size_changes() {
    let mut animation = Animation::new((40, 12));
    let first = tick(&mut animation, 0, 41, 12);
    assert_eq!(first[0], DrawOp::ClearAll);
    let second = tick(&mut animation, 0, 41, 12);
    assert_eq!(second[0], DrawOp::MoveTo(0, 0));
    let third = tick(&mut animation, 0, 41, 13);
    assert_eq!(third[0], DrawOp::ClearAll);
    assert_eq!(animation.last_size, (41, 13));
}

#[test]
fn step_matches_render_of_the_new_state() {
    let mut animation = Animation::new((30, 10));
    animation.handle_key(press('+'));
    for _ in 0..5 {
        tick(&mut animation, 810_000, 30, 10);
    }
    let ops = tick(&mut animation, 810_000, 32, 10);
    let metrics = RenderMetrics {
        load: 810_000,
        phase: animation.oscillator.phase,
        pulse: animation.oscillator.pulse,
        fps: 35,
        phase_delta: 817_000,
    };
    assert_eq!(ops, render(32, 10, animation.window.as_slice(), &metrics, true));
    assert_eq!(animation.oscillator.phase, 6 * 817_000);
}

#[test]
fn idle_ticks_fill_a_twenty_column_plot_with_calm_samples() {
    let mut animation = Animation::new((25, 12));
    for _ in 0..3 {
        let ops = tick(&mut animation, 100_000, 25, 12);
        assert!(!ops.is_empty());
        assert_eq!(animation.window.len(), 20);
        assert_eq!(animation.oscillator.pulse, 0);
        assert!(animation.window.as_slice().iter().all(|s| (-400_000..=400_000).contains(s)));
    }
    let samples = animation.window.as_slice();
    // seeded with the first sample, then one new sample per tick
    assert!(samples[..18].iter().all(|s| *s == 0));
    assert_eq!(samples[18], (sine_of(224_000) as i64 * 40).div_euclid(100) as i32);
    assert_eq!(samples[19], (sine_of(448_000) as i64 * 40).div_euclid(100) as i32);
    assert_eq!(animation.tick, 4);
}

#[test]
fn sustained_high_load_fires_the_pulse_on_tick_eighteen() {
    let mut animation = Animation::new((25, 12));
    for number in 1..=17u64 {
        assert_eq!(animation.tick, number);
        tick(&mut animation, 900_000, 25, 12);
        assert_eq!(animation.oscillator.pulse, 0);
    }
    tick(&mut animation, 900_000, 25, 12);
    assert_eq!(animation.oscillator.pulse, 650_000);
    tick(&mut animation, 900_000, 25, 12);
    assert_eq!(animation.oscillator.pulse, 422_500);
    tick(&mut animation, 900_000, 25, 12);
    assert_eq!(animation.oscillator.pulse, 274_625);
}

#[test]
fn widening_the_terminal_repeats_the_newest_sample() {
    let mut animation = Animation::new((25, 12));
    for _ in 0..25 {
        tick(&mut animation, 600_000, 25, 12);
    }
    let before: Vec<i32> = animation.window.as_slice().to_vec();
    assert_eq!(before.len(), 20);
    tick(&mut animation, 600_000, 35, 12);
    let after = animation.window.as_slice();
    assert_eq!(after.len(), 30);
    // the oldest sample left to make room for the newest
    assert_eq!(&after[..19], &before[1..]);
    for slot in 19..29 {
        assert_eq!(after[slot], before[19]);
    }
    assert!(SIGNAL_MIN <= after[29] && after[29] <= SIGNAL_MAX);
}

#[test]
fn narrowing_the_terminal_drops_the_oldest_samples() {
    let mut animation = Animation::new((25, 12));
    for _ in 0..25 {
        tick(&mut animation, 600_000, 25, 12);
    }
    let before: Vec<i32> = animation.window.as_slice().to_vec();
    tick(&mut animation, 600_000, 17, 12);
    let after = animation.window.as_slice();
    assert_eq!(after.len(), 12);
    assert_eq!(&after[..11], &before[9..]);
}

#[test]
fn window_samples_stay_in_signal_range_under_any_load() {
    let mut animation = Animation::new((60, 20));
    let loads = [0u32, 150_000, 999_999, 4_000_000_000, 710_000, 1_000_000];
    for round in 0..120usize {
        let load = loads[round % loads.len()];
        let width = 20 + (round % 7) as u16 * 9;
        let angle = animation.sine_angle(load);
        // a sine far out of range is limited as well
        let sine = if round % 11 == 0 { i32::MAX } else { sine_of(angle) };
        animation.step(load, width, 20, sine);
        assert_eq!(animation.window.len(), width as usize - 5);
        assert!(animation
            .window
            .as_slice()
            .iter()
            .all(|s| SIGNAL_MIN <= *s && *s <= SIGNAL_MAX));
        assert!(animation.oscillator.phase <= 1_000_000_000);
        assert!(animation.oscillator.pulse <= 1_000_000);
    }
    assert_eq!(animation.tick, 121);
}

#[test]
fn tick_number_saturates() {
    let mut animation = Animation::new((25, 12));
    animation.tick = u64::MAX;
    tick(&mut animation, 0, 25, 12);
    assert_eq!(animation.tick, u64::MAX);
}
