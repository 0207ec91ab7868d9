//! Rasterization: projects a window of samples onto a grid of character
//! cells, with a faint dotted background, one marker per column and vertical
//! connectors wherever the trace jumps between neighbouring columns.

use vstd::prelude::*;
use crate::signal::{clamp_sample, clamped_sample, Sample, SIGNAL_MAX, SIGNAL_MIN};
use crate::units::{rounded_div, rounded_div_u128};

verus! {

/// Every this many rows carries background dots.
pub const GRID_ROW_STEP: usize = 4;

/// Every this many columns carries background dots.
pub const GRID_COL_STEP: usize = 6;

/// Fewest plot rows for which anything is drawn.
pub const MIN_PLOT_HEIGHT: usize = 4;

/// Fewest plot columns for which anything is drawn.
pub const MIN_PLOT_WIDTH: usize = 10;

/// Glyph of an empty cell.
pub const BLANK: char = ' ';

/// Glyph of a background dot.
pub const GRID_DOT: char = '.';

/// Glyph that marks the trace in its column.
pub const TRACE_MARK: char = '*';

/// Glyph that joins the markers of two neighbouring columns.
pub const CONNECTOR: char = '|';

/// One glyph of the trace and the cell it is drawn in.
#[derive(Clone, Copy, Debug, PartialEq, Eq, Structural)]
pub struct TracePoint {
    /// Column of the cell, counted from the left edge of the plot.
    pub x: usize,
    /// Row of the cell, counted from the top of the plot.
    pub y: usize,
    /// The glyph drawn in the cell.
    pub glyph: char,
}

/// The result of rasterizing a window.
#[derive(Clone, Debug, PartialEq, Eq)]
pub struct Raster {
    /// The character cells, row by row from the top.
    pub buffer: Vec<Vec<char>>,
    /// The glyphs of the trace in drawing order: column by column, in each
    /// column the marker first, then its connectors from the top down.
    pub trace: Vec<TracePoint>,
}

impl Raster {
    /// The character cells as a sequence of rows.
    pub open spec fn cells(&self) -> Seq<Seq<char>> {
        self.buffer@.map_values(|line: Vec<char>| line@)
    }
}

/// Whether a plot of this size is too small to draw.
pub open spec fn plot_too_small(plot_height: int, plot_width: int) -> bool {
    plot_height < MIN_PLOT_HEIGHT || plot_width < MIN_PLOT_WIDTH
}

/// The row on which a sample is plotted in a plot of `plot_height` rows: the
/// signal range is laid linearly over the rows, the highest value on row
/// zero, and the position is rounded to the nearest row.
pub open spec fn sample_row(sample: int, plot_height: int) -> int {
    rounded_div(
        (SIGNAL_MAX - clamped_sample(sample)) * (plot_height - 1),
        SIGNAL_MAX - SIGNAL_MIN,
    )
}

/// The rows of the plotted columns: one per sample, for as many of the first
/// samples as the plot has columns.
pub open spec fn rows_of(samples: Seq<Sample>, plot_height: int, plot_width: int) -> Seq<usize> {
    Seq::new(
        if samples.len() <= plot_width {
            samples.len()
        } else if plot_width >= 0 {
            plot_width as nat
        } else {
            0
        },
        |x: int| sample_row(samples[x] as int, plot_height) as usize,
    )
}

/// Whether `row` lies strictly between the rows `a` and `b`, in either order.
pub open spec fn strictly_between(a: int, row: int, b: int) -> bool {
    (a < row && row < b) || (b < row && row < a)
}

/// The first `count` connectors of column `x` below row `low`, from the top
/// down.
pub open spec fn connector_run(x: int, low: int, count: int) -> Seq<TracePoint> {
    Seq::new(
        if count > 0 {
            count as nat
        } else {
            0
        },
        |k: int| TracePoint { x: x as usize, y: (low + 1 + k) as usize, glyph: CONNECTOR },
    )
}

/// The trace glyphs of column `x`: its marker, followed by a connector on
/// every row strictly between the previous column's row and its own.
pub open spec fn column_points(rows: Seq<usize>, x: int) -> Seq<TracePoint> {
    let y: usize = rows[x];
    let marker: Seq<TracePoint> = seq![TracePoint { x: x as usize, y, glyph: TRACE_MARK }];
    if x > 0 && rows[x - 1] < y {
        marker + connector_run(x, rows[x - 1] as int, y - rows[x - 1] - 1)
    } else if x > 0 && rows[x - 1] > y {
        marker + connector_run(x, y as int, rows[x - 1] - y - 1)
    } else {
        marker
    }
}

/// The trace glyphs of the first `columns` columns, in drawing order.
pub open spec fn trace_points(rows: Seq<usize>, columns: int) -> Seq<TracePoint>
    decreases columns,
{
    if columns <= 0 {
        Seq::empty()
    } else {
        trace_points(rows, columns - 1) + column_points(rows, columns - 1)
    }
}

/// The glyph of the background at a cell.
pub open spec fn grid_glyph(row: int, col: int) -> char {
    if row % (GRID_ROW_STEP as int) == 0 && col % (GRID_COL_STEP as int) == 0 {
        GRID_DOT
    } else {
        BLANK
    }
}

/// The glyph of a cell: the marker on the column's row, a connector strictly
/// between that row and the previous column's, the background elsewhere.
pub open spec fn cell_glyph(rows: Seq<usize>, row: int, col: int) -> char {
    if 0 <= col < rows.len() && rows[col] == row {
        TRACE_MARK
    } else if 0 < col < rows.len() && strictly_between(rows[col - 1] as int, row, rows[col] as int) {
        CONNECTOR
    } else {
        grid_glyph(row, col)
    }
}

/// The cells of a plot of `plot_height` rows and `plot_width` columns.
pub open spec fn buffer_cells(rows: Seq<usize>, plot_height: int, plot_width: int) -> Seq<
    Seq<char>,
> {
    Seq::new(
        plot_height as nat,
        |r: int| Seq::new(plot_width as nat, |c: int| cell_glyph(rows, r, c)),
    )
}

/// What `rasterize` returns for a window and plot dimensions: nothing for a
/// plot that is too small, otherwise the cells and the trace of the window.
pub open spec fn rasterizes(
    out: Option<Raster>,
    samples: Seq<Sample>,
    plot_height: int,
    plot_width: int,
) -> bool {
    let rows: Seq<usize> = rows_of(samples, plot_height, plot_width);
    match out {
        None => plot_too_small(plot_height, plot_width),
        Some(raster) => {
            &&& !plot_too_small(plot_height, plot_width)
            &&& raster.cells() == buffer_cells(rows, plot_height, plot_width)
            &&& raster.trace@ == trace_points(rows, rows.len() as int)
        },
    }
}

/// Every sample is plotted on a row of the plot.
pub proof fn lemma_sample_row_in_plot(sample: int, plot_height: int)
    requires
        plot_height >= 1,
    ensures
        0 <= sample_row(sample, plot_height) < plot_height,
{
    let drop: int = SIGNAL_MAX - clamped_sample(sample);
    let span: int = plot_height - 1;
    assert(0 <= drop * span <= 2_000_000 * span) by (nonlinear_arith)
        requires
            0 <= drop <= 2_000_000,
            0 <= span,
    ;
}

/// The rows of the plotted columns all lie within the plot, and there are no
/// more of them than the plot has columns or the window has samples.
pub proof fn lemma_rows_in_plot(samples: Seq<Sample>, plot_height: int, plot_width: int)
    requires
        1 <= plot_height <= usize::MAX,
        0 <= plot_width,
    ensures
        rows_of(samples, plot_height, plot_width).len() <= plot_width,
        rows_of(samples, plot_height, plot_width).len() <= samples.len(),
        forall|x: int|
            0 <= x < rows_of(samples, plot_height, plot_width).len() ==> (#[trigger] rows_of(
                samples,
                plot_height,
                plot_width,
            )[x]) < plot_height,
{
    let rows: Seq<usize> = rows_of(samples, plot_height, plot_width);
    assert forall|x: int| 0 <= x < rows.len() implies (#[trigger] rows[x]) < plot_height by {
        lemma_sample_row_in_plot(samples[x] as int, plot_height);
    }
}

/// Every glyph of the trace lies within the plot: its column is one of the
/// plotted columns and its row is below `plot_height`.
pub proof fn lemma_trace_in_plot(rows: Seq<usize>, columns: int, plot_height: int)
    requires
        0 <= columns <= rows.len() <= usize::MAX,
        forall|x: int| 0 <= x < rows.len() ==> (#[trigger] rows[x]) < plot_height,
    ensures
        forall|i: int|
            0 <= i < trace_points(rows, columns).len() ==> {
                let point: TracePoint = #[trigger] trace_points(rows, columns)[i];
                point.x < columns && point.y < plot_height
            },
    decreases columns,
{
    if columns > 0 {
        lemma_trace_in_plot(rows, columns - 1, plot_height);
        let earlier: Seq<TracePoint> = trace_points(rows, columns - 1);
        let last: Seq<TracePoint> = column_points(rows, columns - 1);
        assert forall|i: int| 0 <= i < trace_points(rows, columns).len() implies {
            let point: TracePoint = #[trigger] trace_points(rows, columns)[i];
            point.x < columns && point.y < plot_height
        } by {
            if i < earlier.len() {
                assert(trace_points(rows, columns)[i] == earlier[i]);
            } else {
                assert(trace_points(rows, columns)[i] == last[i - earlier.len()]);
            }
        }
    }
}

/// Every glyph of the trace stands in its own cell of the buffer: the cell at
/// the glyph's column and row shows that glyph.
pub proof fn lemma_trace_in_cells(rows: Seq<usize>, columns: int)
    requires
        0 <= columns <= rows.len() <= usize::MAX,
    ensures
        forall|i: int|
            0 <= i < trace_points(rows, columns).len() ==> {
                let point: TracePoint = #[trigger] trace_points(rows, columns)[i];
                cell_glyph(rows, point.y as int, point.x as int) == point.glyph
            },
    decreases columns,
{
    if columns > 0 {
        lemma_trace_in_cells(rows, columns - 1);
        let earlier: Seq<TracePoint> = trace_points(rows, columns - 1);
        let last: Seq<TracePoint> = column_points(rows, columns - 1);
        assert forall|i: int| 0 <= i < trace_points(rows, columns).len() implies {
            let point: TracePoint = #[trigger] trace_points(rows, columns)[i];
            cell_glyph(rows, point.y as int, point.x as int) == point.glyph
        } by {
            if i < earlier.len() {
                assert(trace_points(rows, columns)[i] == earlier[i]);
            } else {
                assert(trace_points(rows, columns)[i] == last[i - earlier.len()]);
            }
        }
    }
}

/// Rasterizing is a function of its inputs: any two results for the same
/// window and the same plot dimensions are both nothing, or hold the same
/// cells and the same trace.
pub proof fn lemma_rasterize_deterministic(
    first: Option<Raster>,
    second: Option<Raster>,
    samples: Seq<Sample>,
    plot_height: int,
    plot_width: int,
)
    requires
        rasterizes(first, samples, plot_height, plot_width),
        rasterizes(second, samples, plot_height, plot_width),
    ensures
        first is None <==> second is None,
        first is Some ==> first->0.cells() == second->0.cells() && first->0.trace@
            == second->0.trace@,
{
}

/// The row on which `sample` is plotted in a plot of `plot_height` rows.
pub fn row_of_sample(sample: Sample, plot_height: usize) -> (row: usize)
    requires
        plot_height >= 1,
    ensures
        row == sample_row(sample as int, plot_height as int),
        row < plot_height,
{
    let level: i32 = clamp_sample(sample as i64);
    let drop: u128 = (SIGNAL_MAX - level) as u128;
    let span: u128 = (plot_height - 1) as u128;
    assert(0 <= drop * span <= 2_000_000 * span) by (nonlinear_arith)
        requires
            0 <= drop <= 2_000_000,
            0 <= span,
    ;
    let row: u128 = rounded_div_u128(drop * span, (SIGNAL_MAX - SIGNAL_MIN) as u128);
    row as usize
}

/// The glyph of one cell, given the rows of the plotted columns.
pub fn glyph_at(rows: &Vec<usize>, row: usize, col: usize) -> (glyph: char)
    ensures
        glyph == cell_glyph(rows@, row as int, col as int),
{
    if col < rows.len() {
        let y: usize = rows[col];
        if y == row {
            return TRACE_MARK;
        }
        if col > 0 {
            let prev: usize = rows[col - 1];
            if (prev < row && row < y) || (y < row && row < prev) {
                return CONNECTOR;
            }
        }
    }
    if row % GRID_ROW_STEP == 0 && col % GRID_COL_STEP == 0 {
        GRID_DOT
    } else {
        BLANK
    }
}

/// The rows of the plotted columns of a window.
pub fn plot_rows(samples: &[Sample], plot_height: usize, plot_width: usize) -> (rows: Vec<usize>)
    requires
        plot_height >= 1,
    ensures
        rows@ == rows_of(samples@, plot_height as int, plot_width as int),
        forall|x: int| 0 <= x < rows@.len() ==> rows@[x] < plot_height,
{
    let columns: usize = if samples.len() <= plot_width {
        samples.len()
    } else {
        plot_width
    };
    let mut rows: Vec<usize> = Vec::new();
    let mut x: usize = 0;
    while x < columns
        invariant
            plot_height >= 1,
            x <= columns <= samples@.len(),
            rows@.len() == x,
            forall|i: int|
                0 <= i < x ==> rows@[i] == sample_row(samples@[i] as int, plot_height as int),
            forall|i: int| 0 <= i < x ==> rows@[i] < plot_height,
        decreases columns - x,
    {
        rows.push(row_of_sample(samples[x], plot_height));
        x += 1;
    }
    rows
}

/// The trace glyphs of the plotted columns, in drawing order.
pub fn trace_of_rows(rows: &Vec<usize>) -> (trace: Vec<TracePoint>)
    ensures
        trace@ == trace_points(rows@, rows@.len() as int),
{
    let mut trace: Vec<TracePoint> = Vec::new();
    let mut x: usize = 0;
    while x < rows.len()
        invariant
            x <= rows@.len(),
            trace@ == trace_points(rows@, x as int),
        decreases rows@.len() - x,
    {
        let y: usize = rows[x];
        let ghost before: Seq<TracePoint> = trace@;
        let marker = TracePoint { x, y, glyph: TRACE_MARK };
        trace.push(marker);
        if x > 0 && rows[x - 1] != y {
            let prev: usize = rows[x - 1];
            let low: usize = if prev < y {
                prev
            } else {
                y
            };
            let high: usize = if prev < y {
                y
            } else {
                prev
            };
            let mut row: usize = low + 1;
            while row < high
                invariant
                    low < row <= high,
                    x < rows@.len(),
                    trace@ == before.push(marker) + connector_run(
                        x as int,
                        low as int,
                        row - low - 1,
                    ),
                decreases high - row,
            {
                let connector = TracePoint { x, y: row, glyph: CONNECTOR };
                trace.push(connector);
                row += 1;
            }
        }
        x += 1;
    }
    trace
}

/// One row of cells of a plot of `plot_width` columns.
pub fn buffer_line(rows: &Vec<usize>, row: usize, plot_width: usize) -> (line: Vec<char>)
    ensures
        line@ == Seq::new(plot_width as nat, |c: int| cell_glyph(rows@, row as int, c)),
{
    let mut line: Vec<char> = Vec::new();
    let mut col: usize = 0;
    while col < plot_width
        invariant
            col <= plot_width,
            line@.len() == col,
            forall|c: int| 0 <= c < col ==> line@[c] == cell_glyph(rows@, row as int, c),
        decreases plot_width - col,
    {
        line.push(glyph_at(rows, row, col));
        col += 1;
    }
    line
}

/// Projects a window of samples onto a plot of `plot_height` rows and
/// `plot_width` columns.
///
/// Sample number `x` is plotted in column `x`; samples beyond the last column
/// are left out. A plot below the minimum height or width yields nothing.
pub fn rasterize(samples: &[Sample], plot_height: usize, plot_width: usize) -> (out: Option<
    Raster,
>)
    ensures
        rasterizes(out, samples@, plot_height as int, plot_width as int),
{
    if plot_height < MIN_PLOT_HEIGHT || plot_width < MIN_PLOT_WIDTH {
        return None;
    }
    let rows: Vec<usize> = plot_rows(samples, plot_height, plot_width);
    let trace: Vec<TracePoint> = trace_of_rows(&rows);
    let mut buffer: Vec<Vec<char>> = Vec::new();
    let mut row: usize = 0;
    while row < plot_height
        invariant
            row <= plot_height,
            buffer@.len() == row,
            forall|r: int|
                0 <= r < row ==> (#[trigger] buffer@[r])@ == Seq::new(
                    plot_width as nat,
                    |c: int| cell_glyph(rows@, r, c),
                ),
        decreases plot_height - row,
    {
        buffer.push(buffer_line(&rows, row, plot_width));
        row += 1;
    }
    let raster = Raster { buffer, trace };
    assert(raster.cells() =~= buffer_cells(rows@, plot_height as int, plot_width as int));
    Some(raster)
}

} // verus!
