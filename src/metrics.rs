//! Line metrics from per-run extents, and placement of runs with their shadows.
use crate::color::Color;
use crate::palette::{get_shadow, shadow_of};
use crate::runs::{lemma_run_scales, runs_of, runs_view, Face, RunView, TextRenderer, TextRun};
use vstd::prelude::*;

verus! {

/// Font size, in hundredths of a pixel, from which shadows are offset further.
pub const LARGE_TEXT_SIZE: i64 = 2500;

/// Shadow offset for text of at least `LARGE_TEXT_SIZE`.
pub const LARGE_SHADOW_OFFSET: i64 = 250;

/// Shadow offset for smaller text.
pub const SMALL_SHADOW_OFFSET: i64 = 200;

/// What a typeface reports for one run drawn at its own size: the advance
/// and the top and bottom of the inked glyph bounds (top is negative above
/// the baseline).
#[derive(Clone, Copy, Debug, PartialEq, Eq, Structural)]
pub struct RunExtent {
    pub advance: i32,
    pub top: i32,
    pub bottom: i32,
}

/// Width of a line of text and its extremal ink bounds around the baseline.
#[derive(Clone, Copy, Debug, PartialEq, Eq, Structural)]
pub struct TextMetrics {
    pub width: i64,
    /// The highest ink top, never below the baseline (`<= 0`).
    pub ascent: i64,
    /// The lowest ink bottom, never above the baseline (`>= 0`).
    pub descent: i64,
}

/// Sum of the advances of the first `k` runs.
pub open spec fn advance_upto(e: Seq<RunExtent>, k: int) -> int
    decreases k,
{
    if k <= 0 || k > e.len() {
        0
    } else {
        advance_upto(e, k - 1) + e[k - 1].advance
    }
}

/// The least of 0 and the tops of the first `k` runs.
pub open spec fn top_upto(e: Seq<RunExtent>, k: int) -> int
    decreases k,
{
    if k <= 0 || k > e.len() {
        0
    } else if e[k - 1].top < top_upto(e, k - 1) {
        e[k - 1].top as int
    } else {
        top_upto(e, k - 1)
    }
}

/// The greatest of 0 and the bottoms of the first `k` runs.
pub open spec fn bottom_upto(e: Seq<RunExtent>, k: int) -> int
    decreases k,
{
    if k <= 0 || k > e.len() {
        0
    } else if e[k - 1].bottom > bottom_upto(e, k - 1) {
        e[k - 1].bottom as int
    } else {
        bottom_upto(e, k - 1)
    }
}

/// Largest magnitude of a line's starting coordinates.
pub const PEN_LIMIT: i64 = 0x2000_0000_0000_0000;

proof fn lemma_advance_bound(e: Seq<RunExtent>, k: int)
    ensures
        -0x8000_0000 * (if k < 0 { 0 } else { k }) <= advance_upto(e, k) <= 0x8000_0000 * (if k < 0 { 0 } else { k }),
    decreases k,
{
    if 0 < k <= e.len() {
        lemma_advance_bound(e, k - 1);
    } else if k > e.len() {
        assert(advance_upto(e, k) == 0);
    }
}

/// The metrics of runs with extents `e`.
pub open spec fn metrics_of(e: Seq<RunExtent>) -> TextMetrics {
    TextMetrics {
        width: advance_upto(e, e.len() as int) as i64,
        ascent: top_upto(e, e.len() as int) as i64,
        descent: bottom_upto(e, e.len() as int) as i64,
    }
}

proof fn lemma_bounds_range(e: Seq<RunExtent>, k: int)
    ensures
        i32::MIN <= top_upto(e, k) <= 0,
        0 <= bottom_upto(e, k) <= i32::MAX,
    decreases k,
{
    if 0 < k <= e.len() {
        lemma_bounds_range(e, k - 1);
    }
}

/// Measures a line from the extents of its runs, in order: the width is
/// the sum of the advances; the ascent is the least top and the descent the
/// greatest bottom, both taken with 0. No runs give all zeros.
pub fn measure(extents: &Vec<RunExtent>) -> (m: TextMetrics)
    requires
        extents@.len() <= i32::MAX,
    ensures
        m == metrics_of(extents@),
        m.width == advance_upto(extents@, extents@.len() as int),
        m.ascent == top_upto(extents@, extents@.len() as int),
        m.descent == bottom_upto(extents@, extents@.len() as int),
{
    let ghost e = extents@;
    let mut width: i64 = 0;
    let mut ascent: i64 = 0;
    let mut descent: i64 = 0;
    let mut i: usize = 0;
    while i < extents.len()
        invariant
            e == extents@,
            i <= e.len(),
            e.len() <= i32::MAX,
            width == advance_upto(e, i as int),
            ascent == top_upto(e, i as int),
            descent == bottom_upto(e, i as int),
        decreases e.len() - i,
    {
        let x = extents[i];
        proof {
            lemma_advance_bound(e, i as int + 1);
            lemma_bounds_range(e, i as int);
        }
        width = width + x.advance as i64;
        if (x.top as i64) < ascent {
            ascent = x.top as i64;
        }
        if (x.bottom as i64) > descent {
            descent = x.bottom as i64;
        }
        i = i + 1;
    }
    proof {
        lemma_bounds_range(e, e.len() as int);
        lemma_advance_bound(e, e.len() as int);
    }
    TextMetrics { width, ascent, descent }
}

/// How far a shadow is offset right and down for text of size `size`.
pub open spec fn shadow_offset_of(size: int) -> int {
    if size >= 2500 {
        250
    } else {
        200
    }
}

/// How far a shadow is offset right and down: two tiers by font size.
pub fn shadow_offset(size: i64) -> (r: i64)
    ensures
        r == shadow_offset_of(size as int),
{
    if size >= LARGE_TEXT_SIZE {
        LARGE_SHADOW_OFFSET
    } else {
        SMALL_SHADOW_OFFSET
    }
}

/// Colour used for text that no tag colours.
pub open spec fn default_text_color() -> Color {
    Color { a: 255, r: 0, g: 0, b: 0 }
}

/// The shadow copy drawn beneath a run.
#[derive(Clone, Copy, Debug, PartialEq, Eq, Structural)]
pub struct ShadowCopy {
    pub x: i64,
    pub y: i64,
    pub color: Color,
}

/// One run placed on the line: text, face, font size and baseline origin,
/// colour, and the shadow copy drawn first when there is one.
#[derive(Clone, Debug)]
pub struct RunDraw {
    pub text: String,
    pub face: Face,
    pub size: i64,
    pub x: i64,
    pub y: i64,
    pub color: Color,
    pub shadow: Option<ShadowCopy>,
}

pub type RunDrawView = (Seq<char>, Face, int, int, int, Color, Option<ShadowCopy>);

impl View for RunDraw {
    type V = RunDrawView;

    open spec fn view(&self) -> RunDrawView {
        (
            self.text@,
            self.face,
            self.size as int,
            self.x as int,
            self.y as int,
            self.color,
            self.shadow,
        )
    }
}

/// Where and how run `i` of `runs` is drawn when the line starts at
/// `(x, y)`: after the advances of the runs before it, at the requested
/// size scaled by the run's scale (rounded down), in the run's colour or
/// black, with a shadow of the derived colour offset by the size tier.
pub open spec fn placed(
    runs: Seq<RunView>,
    e: Seq<RunExtent>,
    x: int,
    y: int,
    size: int,
    shadow: bool,
    i: int,
) -> RunDrawView {
    let run = runs[i];
    let color = match run.3 {
        Some(c) => c,
        None => default_text_color(),
    };
    let pen = x + advance_upto(e, i);
    let off = shadow_offset_of(size);
    (
        run.0,
        run.1,
        size * run.2 / 100,
        pen,
        y,
        color,
        if shadow {
            Some(ShadowCopy { x: (pen + off) as i64, y: (y + off) as i64, color: shadow_of(color) })
        } else {
            None
        },
    )
}

impl TextRenderer {
    /// Measures a line of markup from the extents of its runs (the runs that
    /// `extract_text_runs` gives and `draw_text` draws). `None` when the
    /// extents are not one per run.
    pub fn measure_text(&self, input: &str, extents: &Vec<RunExtent>) -> (r: Option<TextMetrics>)
        requires
            extents@.len() <= i32::MAX,
        ensures
            r is Some <==> extents@.len() == runs_of(input@, self.coverage).len(),
            r matches Some(m) ==> m == metrics_of(extents@),
    {
        let runs = self.extract_text_runs(input);
        if runs.len() != extents.len() {
            return None;
        }
        Some(measure(extents))
    }

    /// Lays out a line of markup starting at `(x, y)` from the extents of
    /// its runs, measured at their own sizes. `None` when the extents are not
    /// one per run.
    pub fn draw_text(
        &self,
        input: &str,
        x: i64,
        y: i64,
        size: i64,
        shadow: bool,
        extents: &Vec<RunExtent>,
    ) -> (r: Option<Vec<RunDraw>>)
        requires
            0 <= size <= i64::MAX / 100,
            extents@.len() <= i32::MAX,
            -PEN_LIMIT <= x <= PEN_LIMIT,
            y <= i64::MAX - 250,
        ensures
            r is Some <==> extents@.len() == runs_of(input@, self.coverage).len(),
            r matches Some(d) ==> d@.len() == extents@.len() && forall|i: int|
                0 <= i < d@.len() ==> #[trigger] d@[i]@ == placed(
                    runs_of(input@, self.coverage),
                    extents@,
                    x as int,
                    y as int,
                    size as int,
                    shadow,
                    i,
                ),
    {
        let runs = self.extract_text_runs(input);
        if runs.len() != extents.len() {
            return None;
        }
        let ghost rv = runs_view(runs@);
        let ghost e = extents@;
        proof {
            lemma_run_scales(input@, self.coverage);
        }
        let mut out: Vec<RunDraw> = Vec::new();
        let mut pen: i64 = x;
        let mut i: usize = 0;
        while i < runs.len()
            invariant
                rv == runs_view(runs@),
                forall|j: int| 0 <= j < rv.len() ==> #[trigger] rv[j].2 <= 100,
                e == extents@,
                rv.len() == e.len(),
                0 <= size <= i64::MAX / 100,
                e.len() <= i32::MAX,
                -PEN_LIMIT <= x <= PEN_LIMIT,
                y <= i64::MAX - 250,
                i <= e.len(),
                pen == x + advance_upto(e, i as int),
                out@.len() == i,
                forall|j: int|
                    0 <= j < i ==> #[trigger] out@[j]@ == placed(
                        rv,
                        e,
                        x as int,
                        y as int,
                        size as int,
                        shadow,
                        j,
                    ),
            decreases e.len() - i,
        {
            let run: &TextRun = &runs[i];
            assert(rv[i as int] == run@);
            let color = match run.color {
                Some(c) => c,
                None => Color::from_rgb(0, 0, 0),
            };
            assert(rv[i as int].2 <= 100);
            assert(size * (run.scale as i64) <= i64::MAX) by (nonlinear_arith)
                requires
                    0 <= size <= i64::MAX / 100,
                    run.scale <= 100,
            ;
            let scaled = size * (run.scale as i64) / 100;
            proof {
                lemma_advance_bound(e, i as int);
                lemma_advance_bound(e, i as int + 1);
            }
            let shadow_copy = if shadow {
                let off = shadow_offset(size);
                Some(ShadowCopy { x: pen + off, y: y + off, color: get_shadow(color) })
            } else {
                None
            };
            out.push(
                RunDraw {
                    text: run.text.clone(),
                    face: run.face,
                    size: scaled,
                    x: pen,
                    y,
                    color,
                    shadow: shadow_copy,
                },
            );
            pen = pen + extents[i].advance as i64;
            i = i + 1;
        }
        Some(out)
    }
}

/// Measuring agrees with drawing: each run is drawn where the advances of
/// the runs before it end, and after the last run the pen stands exactly
/// the measured width from where the line began.
pub proof fn lemma_measure_matches_draw(
    runs: Seq<RunView>,
    e: Seq<RunExtent>,
    x: int,
    y: int,
    size: int,
    shadow: bool,
)
    requires
        runs.len() == e.len(),
        e.len() <= i32::MAX,
    ensures
        forall|i: int|
            0 <= i < runs.len() ==> #[trigger] placed(runs, e, x, y, size, shadow, i).3 + e[i].advance
                == placed(runs, e, x, y, size, shadow, 0).3 + advance_upto(e, i + 1),
        runs.len() > 0 ==> placed(runs, e, x, y, size, shadow, runs.len() - 1).3 + e[runs.len()
            - 1].advance == x + metrics_of(e).width,
{
    assert(advance_upto(e, 0) == 0);
    lemma_advance_bound(e, e.len() as int);
}

} // verus!
