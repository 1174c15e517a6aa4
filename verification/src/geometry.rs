//! Plot-area geometry: the inner rectangle left for drawing after the
//! padding insets are subtracted from the canvas, and the horizontal
//! placement of category slots across it.

use vstd::prelude::*;

verus! {

/// The default padding insets of the chart design.
pub const DEFAULT_PAD_LEFT: i32 = 60;

pub const DEFAULT_PAD_RIGHT: i32 = 15;

pub const DEFAULT_PAD_TOP: i32 = 45;

pub const DEFAULT_PAD_BOTTOM: i32 = 25;

/// Horizontal shift of the first category label from the plot's left edge.
pub const LABEL_OFFSET: i64 = 20;

/// The inner pixel rectangle available for marks and axes.
#[derive(Clone, Copy, PartialEq, Eq, Structural, Debug)]
pub struct PlotArea {
    pub left: i64,
    pub top: i64,
    pub width: i64,
    pub height: i64,
}

/// A canvas smaller than its padding leaves no room to draw.
#[derive(Clone, Copy, PartialEq, Eq, Structural, Debug)]
pub struct PlotAreaError {
    pub width: i64,
    pub height: i64,
}

impl PlotArea {
    /// Bounds that every plot area derived from an `i32` canvas satisfies;
    /// they keep all later pixel arithmetic inside `i64`.
    pub open spec fn wf(self) -> bool {
        &&& 0 <= self.left <= i32::MAX
        &&& 0 <= self.top <= i32::MAX
        &&& 0 < self.width <= i32::MAX
        &&& 0 < self.height <= i32::MAX
    }
}

/// Derives the plot rectangle from the canvas size and the four padding
/// insets.  Succeeds exactly when both effective dimensions are positive;
/// a canvas smaller than the padding is a configuration error and is
/// rejected, never clamped.
pub fn compute_plot_area(
    canvas_width: i32,
    canvas_height: i32,
    pad_left: i32,
    pad_right: i32,
    pad_top: i32,
    pad_bottom: i32,
) -> (r: Result<PlotArea, PlotAreaError>)
    requires
        0 <= pad_left,
        0 <= pad_right,
        0 <= pad_top,
        0 <= pad_bottom,
    ensures
        r is Ok <==> canvas_width - pad_left - pad_right > 0 && canvas_height - pad_top
            - pad_bottom > 0,
        r matches Ok(p) ==> {
            &&& p.left == pad_left
            &&& p.top == pad_top
            &&& p.width == canvas_width - pad_left - pad_right
            &&& p.height == canvas_height - pad_top - pad_bottom
            &&& p.wf()
        },
        r matches Err(e) ==> {
            &&& e.width == canvas_width - pad_left - pad_right
            &&& e.height == canvas_height - pad_top - pad_bottom
        },
{
    let ew: i64 = canvas_width as i64 - pad_left as i64 - pad_right as i64;
    let eh: i64 = canvas_height as i64 - pad_top as i64 - pad_bottom as i64;
    if ew > 0 && eh > 0 {
        Ok(PlotArea { left: pad_left as i64, top: pad_top as i64, width: ew, height: eh })
    } else {
        Err(PlotAreaError { width: ew, height: eh })
    }
}

/// The pixel x of category slot `i` out of `n`: equal-width slots across
/// the plot width, shifted inward by the fixed label offset.
pub open spec fn spec_category_x(i: int, n: int, plot: PlotArea) -> int {
    plot.left + LABEL_OFFSET + i * ((plot.width as int) / n)
}

/// Computes the horizontal center of category slot `i` out of `n`.
/// A category count of zero must be rejected before layout begins.
pub fn category_x(i: usize, n: usize, plot: &PlotArea) -> (x: i64)
    requires
        0 < n,
        i < n,
        plot.wf(),
    ensures
        x == spec_category_x(i as int, n as int, *plot),
        0 <= x,
{
    let width: usize = plot.width as usize;
    let slot: usize = width / n;
    proof {
        let si = slot as int;
        let ii = i as int;
        let ni = n as int;
        let wi = plot.width as int;
        assert(si == wi / ni);
        assert(ni * si <= wi) by (nonlinear_arith)
            requires
                0 < ni,
                0 < wi,
                si == wi / ni,
        ;
        assert(0 <= ii * si <= ni * si) by (nonlinear_arith)
            requires
                0 <= si,
                0 <= ii < ni,
        ;
    }
    plot.left + LABEL_OFFSET + (i * slot) as i64
}

/// Category spacing is strictly monotone: as long as the plot is at least
/// one pixel wide per category, a later category sits strictly to the
/// right of an earlier one.
pub proof fn lemma_category_x_strictly_increasing(i: int, j: int, n: int, plot: PlotArea)
    requires
        plot.wf(),
        0 <= i < j < n,
        n <= plot.width,
    ensures
        spec_category_x(i, n, plot) < spec_category_x(j, n, plot),
{
    let slot = (plot.width as int) / n;
    assert(1 <= slot) by (nonlinear_arith)
        requires
            0 < n <= plot.width as int,
            slot == (plot.width as int) / n,
    ;
    assert(i * slot < j * slot) by (nonlinear_arith)
        requires
            0 <= i < j,
            1 <= slot,
    ;
}

} // verus!
