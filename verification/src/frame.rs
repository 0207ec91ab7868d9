//! Frame composition: turns a window of samples and the tick's metrics into
//! the ordered list of terminal drawing operations of one frame.

use vstd::prelude::*;
use vstd::string::StringExecFns;
use crate::raster::{
    buffer_cells, lemma_rows_in_plot, lemma_trace_in_plot, plot_too_small, rasterize, rows_of,
    trace_points, Raster, TracePoint,
};
use crate::signal::Sample;
use crate::text::{fixed_text, pad_to_width, padded, push_fixed, right_aligned};
use crate::units::{rounded_div, rounded_div_u128};

verus! {

/// Rows taken by the header line.
pub const HEADER_ROWS: u16 = 1;

/// Rows taken by the footer line.
pub const FOOTER_ROWS: u16 = 1;

/// Columns taken by the axis labels left of the plot.
pub const LEFT_GUTTER: u16 = 5;

/// One full turn, in millionths of a radian.
pub const TAU_MICROS: u32 = 6_283_185;

/// The help text of the footer line.
pub const FOOTER_TEXT: &'static str = "Press Q/Esc to quit  +/- to change FPS";

/// Load from which the trace is drawn in yellow.
pub const YELLOW_FROM: u32 = 500_000;

/// Load from which the trace is drawn in red.
pub const RED_FROM: u32 = 750_000;

/// Foreground colours a frame uses.
#[derive(Clone, Copy, Debug, PartialEq, Eq, Structural)]
pub enum Color {
    White,
    DarkGrey,
    Green,
    Yellow,
    Red,
}

/// The figures of one tick that the header shows, all in millionths except
/// the frame rate.
#[derive(Clone, Copy, Debug, PartialEq, Eq, Structural)]
pub struct RenderMetrics {
    /// Processor load, in millionths of full capacity.
    pub load: u32,
    /// Oscillator phase after the tick, in millionths of a radian.
    pub phase: u32,
    /// Pulse after the tick, in millionths.
    pub pulse: u32,
    /// Frames per second.
    pub fps: u32,
    /// Phase advance of the tick, in millionths of a radian.
    pub phase_delta: u32,
}

/// One terminal drawing operation.
#[derive(Clone, Debug, PartialEq, Eq)]
pub enum DrawOp {
    /// Clear the whole screen.
    ClearAll,
    /// Move the cursor to a column and a row.
    MoveTo(u16, u16),
    /// Set the foreground colour of what is printed next.
    SetForeground(Color),
    /// Print a text at the cursor.
    Print(String),
    /// Print a single glyph at the cursor.
    PrintGlyph(char),
    /// Return to the terminal's default colours.
    ResetColor,
    /// Send everything queued so far to the terminal.
    Flush,
}

/// A drawing operation as a mathematical value: a printed text is the
/// sequence of its characters.
pub enum DrawOpView {
    ClearAll,
    MoveTo(u16, u16),
    SetForeground(Color),
    Print(Seq<char>),
    PrintGlyph(char),
    ResetColor,
    Flush,
}

impl View for DrawOp {
    type V = DrawOpView;

    open spec fn view(&self) -> DrawOpView {
        match *self {
            DrawOp::ClearAll => DrawOpView::ClearAll,
            DrawOp::MoveTo(col, row) => DrawOpView::MoveTo(col, row),
            DrawOp::SetForeground(color) => DrawOpView::SetForeground(color),
            DrawOp::Print(text) => DrawOpView::Print(text@),
            DrawOp::PrintGlyph(glyph) => DrawOpView::PrintGlyph(glyph),
            DrawOp::ResetColor => DrawOpView::ResetColor,
            DrawOp::Flush => DrawOpView::Flush,
        }
    }
}

/// A list of drawing operations as a sequence of mathematical values.
pub open spec fn ops_view(ops: Seq<DrawOp>) -> Seq<DrawOpView> {
    ops.map_values(|op: DrawOp| op@)
}

/// The colour of the trace under `load`: green below one half, yellow from
/// one half to below three quarters, red from three quarters.
pub open spec fn color_band(load: int) -> Color {
    if load < YELLOW_FROM {
        Color::Green
    } else if load < RED_FROM {
        Color::Yellow
    } else {
        Color::Red
    }
}

/// Rows of the plot on a terminal of `height` rows.
pub open spec fn plot_height_of(height: int) -> int {
    if height >= HEADER_ROWS + FOOTER_ROWS {
        height - HEADER_ROWS - FOOTER_ROWS
    } else {
        0
    }
}

/// Columns of the plot on a terminal of `width` columns.
pub open spec fn plot_width_of(width: int) -> int {
    if width >= LEFT_GUTTER {
        width - LEFT_GUTTER
    } else {
        0
    }
}

/// Whether a terminal of this size is left untouched: it is empty, or its
/// plot would be too small.
pub open spec fn nothing_to_draw(width: int, height: int) -> bool {
    width == 0 || height == 0 || plot_too_small(plot_height_of(height), plot_width_of(width))
}

/// The oscillation frequency in hundredths of a hertz: the phase advance per
/// second over one full turn, rounded to the nearest hundredth.
pub open spec fn oscillation_centihertz(phase_delta: int, fps: int) -> int {
    rounded_div(phase_delta * fps * 100, TAU_MICROS as int)
}

/// The text of the header line, before it is fitted to the terminal width.
pub open spec fn header_of(metrics: RenderMetrics) -> Seq<char> {
    "CPU ECG  load: "@ + right_aligned(
        fixed_text(rounded_div(metrics.load as int, 1000) as nat, 1),
        5,
    ) + "%  fps: "@ + right_aligned(fixed_text(metrics.fps as nat, 0), 2) + "  osc: "@
        + right_aligned(
        fixed_text(
            oscillation_centihertz(metrics.phase_delta as int, metrics.fps as int) as nat,
            2,
        ),
        4,
    ) + "Hz  phase: "@ + right_aligned(
        fixed_text(rounded_div(metrics.phase as int, 100_000) as nat, 1),
        5,
    ) + "  pulse: "@ + right_aligned(
        fixed_text(rounded_div(metrics.pulse as int, 10_000) as nat, 2),
        4,
    )
}

/// The text of the footer line, before it is fitted to the terminal width.
pub open spec fn footer_of() -> Seq<char> {
    FOOTER_TEXT@
}

/// The axis label left of plot row `row`: the upper bound on the top row,
/// zero on the middle row, the lower bound on the bottom row, blank elsewhere.
pub open spec fn gutter_of(row: int, plot_height: int) -> Seq<char> {
    if row == 0 {
        " 1.0|"@
    } else if row == plot_height / 2 {
        " 0.0|"@
    } else if row == plot_height - 1 {
        "-1.0|"@
    } else {
        "     "@
    }
}

/// The operations that draw plot row `row`: its axis label at the left
/// edge, then its cells right of the gutter.
pub open spec fn row_ops(cells: Seq<Seq<char>>, row: int) -> Seq<DrawOpView> {
    seq![
        DrawOpView::MoveTo(0, (HEADER_ROWS + row) as u16),
        DrawOpView::Print(gutter_of(row, cells.len() as int)),
        DrawOpView::MoveTo(LEFT_GUTTER, (HEADER_ROWS + row) as u16),
        DrawOpView::Print(cells[row]),
    ]
}

/// The operations that draw the first `count` plot rows, from the top down.
pub open spec fn plot_ops(cells: Seq<Seq<char>>, count: int) -> Seq<DrawOpView>
    decreases count,
{
    if count <= 0 {
        Seq::empty()
    } else {
        plot_ops(cells, count - 1) + row_ops(cells, count - 1)
    }
}

/// The operations that draw one glyph of the trace at its cell.
pub open spec fn point_ops(point: TracePoint) -> Seq<DrawOpView> {
    seq![
        DrawOpView::MoveTo((LEFT_GUTTER + point.x) as u16, (HEADER_ROWS + point.y) as u16),
        DrawOpView::PrintGlyph(point.glyph),
    ]
}

/// The operations that draw the first `count` glyphs of the trace, in order.
pub open spec fn trace_ops(trace: Seq<TracePoint>, count: int) -> Seq<DrawOpView>
    decreases count,
{
    if count <= 0 {
        Seq::empty()
    } else {
        trace_ops(trace, count - 1) + point_ops(trace[count - 1])
    }
}

/// The operations that open a frame: the optional clearing of the screen,
/// then the header in white, fitted to the terminal width.
pub open spec fn opening_ops(width: int, metrics: RenderMetrics, full_clear: bool) -> Seq<
    DrawOpView,
> {
    (if full_clear {
        seq![DrawOpView::ClearAll]
    } else {
        Seq::empty()
    }) + seq![
        DrawOpView::MoveTo(0, 0),
        DrawOpView::SetForeground(Color::White),
        DrawOpView::Print(padded(header_of(metrics), width)),
    ]
}

/// The operations that close a frame: the footer in dark grey on the last
/// row, fitted to the terminal width, the return to the default colours and
/// the flush.
pub open spec fn closing_ops(width: int, height: int) -> Seq<DrawOpView> {
    seq![
        DrawOpView::SetForeground(Color::DarkGrey),
        DrawOpView::MoveTo(0, (height - 1) as u16),
        DrawOpView::Print(padded(footer_of(), width)),
        DrawOpView::ResetColor,
        DrawOpView::Flush,
    ]
}

/// The operations of one frame on a terminal of `width` columns and `height`
/// rows: none where there is nothing to draw; otherwise the opening, the plot
/// rows in dark grey, the trace in the colour of the load, and the closing.
pub open spec fn frame_ops(
    width: int,
    height: int,
    samples: Seq<Sample>,
    metrics: RenderMetrics,
    full_clear: bool,
) -> Seq<DrawOpView> {
    if nothing_to_draw(width, height) {
        Seq::empty()
    } else {
        let plot_height: int = plot_height_of(height);
        let plot_width: int = plot_width_of(width);
        let rows: Seq<usize> = rows_of(samples, plot_height, plot_width);
        let trace: Seq<TracePoint> = trace_points(rows, rows.len() as int);
        opening_ops(width, metrics, full_clear) + seq![
            DrawOpView::SetForeground(Color::DarkGrey),
        ] + plot_ops(buffer_cells(rows, plot_height, plot_width), plot_height) + seq![
            DrawOpView::SetForeground(color_band(metrics.load as int)),
        ] + trace_ops(trace, trace.len() as int) + closing_ops(width, height)
    }
}

/// The colour of the trace under `load`.
pub fn line_color(load: u32) -> (color: Color)
    ensures
        color == color_band(load as int),
        load < YELLOW_FROM <==> color == Color::Green,
        YELLOW_FROM <= load < RED_FROM <==> color == Color::Yellow,
        RED_FROM <= load <==> color == Color::Red,
{
    if load < YELLOW_FROM {
        Color::Green
    } else if load < RED_FROM {
        Color::Yellow
    } else {
        Color::Red
    }
}

/// The text of the header line: load in percent, frame rate, oscillation
/// frequency in hertz, phase in radians and pulse, each right-aligned in its
/// field.
pub fn header_text(metrics: &RenderMetrics) -> (text: String)
    ensures
        text@ == header_of(*metrics),
{
    let load_tenths: u128 = rounded_div_u128(metrics.load as u128, 1000);
    assert(metrics.phase_delta * metrics.fps <= 0xffff_ffff * 0xffff_ffff) by (nonlinear_arith)
        requires
            0 <= metrics.phase_delta <= 0xffff_ffff,
            0 <= metrics.fps <= 0xffff_ffff,
    ;
    let turns: u128 = metrics.phase_delta as u128 * metrics.fps as u128 * 100;
    let centihertz: u128 = rounded_div_u128(turns, TAU_MICROS as u128);
    let phase_tenths: u128 = rounded_div_u128(metrics.phase as u128, 100_000);
    let pulse_hundredths: u128 = rounded_div_u128(metrics.pulse as u128, 10_000);
    let mut out: String = "CPU ECG  load: ".to_owned();
    push_fixed(&mut out, load_tenths as u64, 1, 5);
    out.append("%  fps: ");
    push_fixed(&mut out, metrics.fps as u64, 0, 2);
    out.append("  osc: ");
    push_fixed(&mut out, centihertz as u64, 2, 4);
    out.append("Hz  phase: ");
    push_fixed(&mut out, phase_tenths as u64, 1, 5);
    out.append("  pulse: ");
    push_fixed(&mut out, pulse_hundredths as u64, 2, 4);
    out
}

/// The axis label left of plot row `row`.
pub fn gutter_label(row: usize, plot_height: usize) -> (label: String)
    ensures
        label@ == gutter_of(row as int, plot_height as int),
{
    if row == 0 {
        " 1.0|".to_owned()
    } else if row == plot_height / 2 {
        " 0.0|".to_owned()
    } else if plot_height >= 1 && row == plot_height - 1 {
        "-1.0|".to_owned()
    } else {
        "     ".to_owned()
    }
}

/// Appends one operation to a list.
pub fn emit(ops: &mut Vec<DrawOp>, op: DrawOp)
    ensures
        ops_view(final(ops)@) == ops_view(old(ops)@).push(op@),
{
    ops.push(op);
}

/// The text of one row of cells.
pub fn line_text(line: &Vec<char>) -> (text: String)
    ensures
        text@ == line@,
{
    let mut text = String::new();
    let mut col: usize = 0;
    while col < line.len()
        invariant
            col <= line@.len(),
            text@ == line@.subrange(0, col as int),
        decreases line@.len() - col,
    {
        text.push(line[col]);
        col += 1;
    }
    text
}

/// Appends the operations that draw the plot rows of a raster.
pub fn emit_plot(ops: &mut Vec<DrawOp>, raster: &Raster)
    requires
        raster.buffer@.len() + HEADER_ROWS <= u16::MAX,
    ensures
        ops_view(final(ops)@) == ops_view(old(ops)@) + plot_ops(
            raster.cells(),
            raster.buffer@.len() as int,
        ),
{
    let plot_height: usize = raster.buffer.len();
    let mut row: usize = 0;
    while row < plot_height
        invariant
            row <= plot_height == raster.buffer@.len(),
            plot_height + HEADER_ROWS <= u16::MAX,
            ops_view(ops@) == ops_view(old(ops)@) + plot_ops(raster.cells(), row as int),
        decreases plot_height - row,
    {
        let y: u16 = HEADER_ROWS + row as u16;
        emit(ops, DrawOp::MoveTo(0, y));
        emit(ops, DrawOp::Print(gutter_label(row, plot_height)));
        emit(ops, DrawOp::MoveTo(LEFT_GUTTER, y));
        emit(ops, DrawOp::Print(line_text(&raster.buffer[row])));
        assert(ops_view(ops@) =~= ops_view(old(ops)@) + plot_ops(raster.cells(), row + 1));
        row += 1;
    }
}

/// Appends the operations that draw the glyphs of a trace.
pub fn emit_trace(ops: &mut Vec<DrawOp>, trace: &Vec<TracePoint>)
    requires
        forall|i: int|
            0 <= i < trace@.len() ==> {
                let point: TracePoint = #[trigger] trace@[i];
                LEFT_GUTTER + point.x <= u16::MAX && HEADER_ROWS + point.y <= u16::MAX
            },
    ensures
        ops_view(final(ops)@) == ops_view(old(ops)@) + trace_ops(trace@, trace@.len() as int),
{
    let mut next: usize = 0;
    while next < trace.len()
        invariant
            next <= trace@.len(),
            forall|i: int|
                0 <= i < trace@.len() ==> {
                    let point: TracePoint = #[trigger] trace@[i];
                    LEFT_GUTTER + point.x <= u16::MAX && HEADER_ROWS + point.y <= u16::MAX
                },
            ops_view(ops@) == ops_view(old(ops)@) + trace_ops(trace@, next as int),
        decreases trace@.len() - next,
    {
        let point: TracePoint = trace[next];
        let col: u16 = LEFT_GUTTER + point.x as u16;
        let row: u16 = HEADER_ROWS + point.y as u16;
        emit(ops, DrawOp::MoveTo(col, row));
        emit(ops, DrawOp::PrintGlyph(point.glyph));
        next += 1;
    }
}

/// Composes one frame for a terminal of `width` columns and `height` rows.
///
/// The header shows `metrics`, the plot shows `samples` from its first column
/// on, the trace takes the colour of the load in `metrics`, and `full_clear`
/// asks for the screen to be cleared first. On an empty terminal, or one whose
/// plot would be too small, the frame has no operations at all.
pub fn render(
    width: u16,
    height: u16,
    samples: &[Sample],
    metrics: &RenderMetrics,
    full_clear: bool,
) -> (ops: Vec<DrawOp>)
    ensures
        ops_view(ops@) == frame_ops(width as int, height as int, samples@, *metrics, full_clear),
        nothing_to_draw(width as int, height as int) <==> ops@.len() == 0,
{
    let mut ops: Vec<DrawOp> = Vec::new();
    if width == 0 || height == 0 {
        return ops;
    }
    let plot_height: usize = height.saturating_sub(HEADER_ROWS + FOOTER_ROWS) as usize;
    let plot_width: usize = width.saturating_sub(LEFT_GUTTER) as usize;
    let raster: Raster = match rasterize(samples, plot_height, plot_width) {
        Some(raster) => raster,
        None => return ops,
    };
    let ghost rows: Seq<usize> = rows_of(samples@, plot_height as int, plot_width as int);
    proof {
        lemma_rows_in_plot(samples@, plot_height as int, plot_width as int);
        lemma_trace_in_plot(rows, rows.len() as int, plot_height as int);
        assert(raster.buffer@.len() == raster.cells().len());
    }
    if full_clear {
        emit(&mut ops, DrawOp::ClearAll);
    }
    emit(&mut ops, DrawOp::MoveTo(0, 0));
    emit(&mut ops, DrawOp::SetForeground(Color::White));
    let header: String = header_text(metrics);
    emit(&mut ops, DrawOp::Print(pad_to_width(header.as_str(), width)));
    emit(&mut ops, DrawOp::SetForeground(Color::DarkGrey));
    emit_plot(&mut ops, &raster);
    emit(&mut ops, DrawOp::SetForeground(line_color(metrics.load)));
    emit_trace(&mut ops, &raster.trace);
    emit(&mut ops, DrawOp::SetForeground(Color::DarkGrey));
    emit(&mut ops, DrawOp::MoveTo(0, height - 1));
    emit(&mut ops, DrawOp::Print(pad_to_width(FOOTER_TEXT, width)));
    emit(&mut ops, DrawOp::ResetColor);
    emit(&mut ops, DrawOp::Flush);
    ops
}

} // verus!
