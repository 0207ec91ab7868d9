use cpu_ecg::raster::{
    buffer_line, glyph_at, plot_rows, rasterize, row_of_sample, trace_of_rows, TracePoint,
};

fn point(x: usize, y: usize, glyph: char) -> TracePoint {
    TracePoint { x, y, glyph }
}

fn line(text: &str) -> Vec<char> {
    text.chars().collect()
}

#[test]
fn row_of_sample_puts_maximum_on_top() {
    assert_eq!(row_of_sample(1_000_000, 20), 0);
    assert_eq!(row_of_sample(-1_000_000, 20), 19);
    assert_eq!(row_of_sample(0, 21), 10);
    assert_eq!(row_of_sample(500_000, 21), 5);
}

#[test]
fn row_of_sample_rounds_to_nearest_row_halves_down_the_screen() {
    // position 1.5 of rows 0..=3
    assert_eq!(row_of_sample(0, 4), 2);
    // position 0.75
    assert_eq!(row_of_sample(500_000, 4), 1);
    // position 0.4999995
    assert_eq!(row_of_sample(666_667, 4), 0);
    // position 0.5 exactly
    assert_eq!(row_of_sample(666_666, 4), 1);
    assert_eq!(row_of_sample(333_334, 4), 1);
}

#[test]
fn row_of_sample_clamps_out_of_range_samples() {
    assert_eq!(row_of_sample(i32::MAX, 7), 0);
    assert_eq!(row_of_sample(i32::MIN, 7), 6);
    assert_eq!(row_of_sample(5, 1), 0);
    assert_eq!(row_of_sample(-1_000_000, usize::MAX), usize::MAX - 1);
}

#[test]
fn plot_rows_takes_no_more_samples_than_columns() {
    let samples = [1_000_000, 0, -1_000_000, 0];
    assert_eq!(plot_rows(&samples, 5, 10), vec![0, 2, 4, 2]);
    assert_eq!(plot_rows(&samples, 5, 3), vec![0, 2, 4]);
    assert_eq!(plot_rows(&samples, 5, 0), Vec::<usize>::new());
}

#[test]
fn trace_marks_each_column_and_joins_jumps() {
    let trace = trace_of_rows(&vec![0, 3, 2, 2, 0]);
    assert_eq!(
        trace,
        vec![
            point(0, 0, '*'),
            point(1, 3, '*'),
            point(1, 1, '|'),
            point(1, 2, '|'),
            point(2, 2, '*'),
            point(3, 2, '*'),
            point(4, 0, '*'),
            point(4, 1, '|'),
        ]
    );
    assert_eq!(trace_of_rows(&Vec::new()), Vec::<TracePoint>::new());
}

#[test]
fn glyph_at_layers_trace_over_grid() {
    let rows = vec![0, 3, 2];
    assert_eq!(glyph_at(&rows, 0, 0), '*');
    assert_eq!(glyph_at(&rows, 1, 1), '|');
    assert_eq!(glyph_at(&rows, 2, 1), '|');
    assert_eq!(glyph_at(&rows, 3, 1), '*');
    assert_eq!(glyph_at(&rows, 0, 1), ' ');
    assert_eq!(glyph_at(&rows, 2, 2), '*');
    assert_eq!(glyph_at(&rows, 3, 2), ' ');
    assert_eq!(glyph_at(&rows, 0, 6), '.');
    assert_eq!(glyph_at(&rows, 4, 0), '.');
    assert_eq!(glyph_at(&rows, 4, 6), '.');
    assert_eq!(glyph_at(&rows, 4, 5), ' ');
    assert_eq!(glyph_at(&rows, 3, 6), ' ');
}

#[test]
fn buffer_line_has_plot_width_cells() {
    let rows = vec![0, 3, 2];
    assert_eq!(buffer_line(&rows, 0, 13), line("*     .     ."));
    assert_eq!(buffer_line(&rows, 2, 4), line(" |* "));
    assert_eq!(buffer_line(&rows, 1, 0), Vec::<char>::new());
}

#[test]
fn rasterize_skips_plots_below_minimum() {
    let samples = [0; 30];
    assert!(rasterize(&samples, 3, 30).is_none());
    assert!(rasterize(&samples, 30, 9).is_none());
    assert!(rasterize(&samples, 0, 0).is_none());
    assert!(rasterize(&samples, 4, 10).is_some());
    assert!(rasterize(&[], 4, 10).is_some());
}

#[test]
fn rasterize_empty_window_shows_only_the_grid() {
    let raster = rasterize(&[], 5, 13).unwrap();
    assert!(raster.trace.is_empty());
    assert_eq!(
        raster.buffer,
        vec![
            line(".     .     ."),
            line("             "),
            line("             "),
            line("             "),
            line(".     .     ."),
        ]
    );
}

#[test]
fn rasterize_draws_trace_into_buffer() {
    let samples = [1_000_000, -1_000_000, 0, 0];
    let raster = rasterize(&samples, 4, 10).unwrap();
    assert_eq!(
        raster.buffer,
        vec![
            line("*     .   "),
            line(" |        "),
            line(" |**      "),
            line(" *        "),
        ]
    );
    assert_eq!(
        raster.trace,
        vec![
            point(0, 0, '*'),
            point(1, 3, '*'),
            point(1, 1, '|'),
            point(1, 2, '|'),
            point(2, 2, '*'),
            point(3, 2, '*'),
        ]
    );
    for p in raster.trace.iter() {
        assert_eq!(raster.buffer[p.y][p.x], p.glyph);
    }
}

#[test]
fn rasterize_ignores_samples_beyond_plot_width() {
    let samples: Vec<i32> = (0..40).map(|i| (i % 3 - 1) * 900_000).collect();
    let wide = rasterize(&samples, 8, 40).unwrap();
    let narrow = rasterize(&samples, 8, 12).unwrap();
    let cut = rasterize(&samples[..12], 8, 12).unwrap();
    assert_eq!(narrow, cut);
    assert!(narrow.trace.iter().all(|p| p.x < 12 && p.y < 8));
    assert!(wide.trace.iter().any(|p| p.x == 39));
    for (r, row) in narrow.buffer.iter().enumerate() {
        assert_eq!(row.len(), 12);
        assert_eq!(&wide.buffer[r][..12], &row[..]);
    }
}

#[test]
fn rasterize_is_a_function_of_its_inputs() {
    let samples: Vec<i32> = (0..25).map(|i| ((i * 37) % 200 - 100) * 10_000).collect();
    let first = rasterize(&samples, 9, 25);
    let second = rasterize(&samples.clone(), 9, 25);
    assert_eq!(first, second);
    assert!(first.is_some());
}
