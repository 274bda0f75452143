//! A drawing surface that records operations, path and paint state for a raster backend to carry out.
use crate::color::Color;
use vstd::prelude::*;

verus! {

/// Whether shapes are filled or outlined.
#[derive(Clone, Copy, Debug, PartialEq, Eq, Structural)]
pub enum PaintStyle {
    Fill,
    Stroke,
}

/// Colour, style and stroke width used by the next drawing operation.
#[derive(Clone, Copy, Debug, PartialEq, Eq, Structural)]
pub struct Paint {
    pub color: Color,
    pub style: PaintStyle,
    pub stroke_width: i64,
}

/// One step of a path.
#[derive(Clone, Copy, Debug, PartialEq, Eq, Structural)]
pub enum PathVerb {
    MoveTo(i64, i64),
    LineTo(i64, i64),
    QuadTo(i64, i64, i64, i64),
    CubicTo(i64, i64, i64, i64, i64, i64),
    Close,
}

/// A drawing operation, in the order it is to be carried out on a raster.
#[derive(Clone, Debug)]
pub enum DrawOp {
    /// Fill the whole surface.
    Clear(Color),
    /// Push the current transform.
    Save,
    /// Pop the transform pushed last.
    Restore,
    Translate(i64, i64),
    /// Scale by percentages along x and y.
    Scale(i64, i64),
    Path(Vec<PathVerb>, Paint),
    Rect(i64, i64, i64, i64, Paint),
    Circle(i64, i64, i64, Paint),
    Oval(i64, i64, i64, i64, Paint),
    RoundedRect(i64, i64, i64, i64, i64, i64, Paint),
    /// Styled markup text, its baseline origin, size and whether it has a shadow.
    Text(String, i64, i64, i64, bool),
    /// An encoded image, placed with its top-left corner at the point.
    Image(Vec<u8>, i64, i64),
}

pub ghost enum DrawOpView {
    Clear(Color),
    Save,
    Restore,
    Translate(int, int),
    Scale(int, int),
    Path(Seq<PathVerb>, Paint),
    Rect(int, int, int, int, Paint),
    Circle(int, int, int, Paint),
    Oval(int, int, int, int, Paint),
    RoundedRect(int, int, int, int, int, int, Paint),
    Text(Seq<char>, int, int, int, bool),
    Image(Seq<u8>, int, int),
}

impl View for DrawOp {
    type V = DrawOpView;

    open spec fn view(&self) -> DrawOpView {
        match self {
            DrawOp::Clear(c) => DrawOpView::Clear(*c),
            DrawOp::Save => DrawOpView::Save,
            DrawOp::Restore => DrawOpView::Restore,
            DrawOp::Translate(x, y) => DrawOpView::Translate(*x as int, *y as int),
            DrawOp::Scale(x, y) => DrawOpView::Scale(*x as int, *y as int),
            DrawOp::Path(p, paint) => DrawOpView::Path(p@, *paint),
            DrawOp::Rect(x, y, w, h, p) => DrawOpView::Rect(
                *x as int,
                *y as int,
                *w as int,
                *h as int,
                *p,
            ),
            DrawOp::Circle(x, y, r, p) => DrawOpView::Circle(*x as int, *y as int, *r as int, *p),
            DrawOp::Oval(x, y, w, h, p) => DrawOpView::Oval(
                *x as int,
                *y as int,
                *w as int,
                *h as int,
                *p,
            ),
            DrawOp::RoundedRect(x, y, w, h, rx, ry, p) => DrawOpView::RoundedRect(
                *x as int,
                *y as int,
                *w as int,
                *h as int,
                *rx as int,
                *ry as int,
                *p,
            ),
            DrawOp::Text(t, x, y, s, sh) => DrawOpView::Text(
                t@,
                *x as int,
                *y as int,
                *s as int,
                *sh,
            ),
            DrawOp::Image(b, x, y) => DrawOpView::Image(b@, *x as int, *y as int),
        }
    }
}

pub open spec fn ops_view(v: Seq<DrawOp>) -> Seq<DrawOpView> {
    v.map_values(|o: DrawOp| o@)
}

/// A drawing surface that records what is drawn on it, together with the
/// path being built and the current paint.
pub struct Canvas {
    pub width: i32,
    pub height: i32,
    pub ops: Vec<DrawOp>,
    pub path: Vec<PathVerb>,
    pub paint: Paint,
}

/// The paint of a new canvas: black, filled, one pixel wide.
pub open spec fn initial_paint() -> Paint {
    Paint { color: Color { a: 255, r: 0, g: 0, b: 0 }, style: PaintStyle::Fill, stroke_width: 100 }
}

impl Canvas {
    pub open spec fn ops_seq(&self) -> Seq<DrawOpView> {
        ops_view(self.ops@)
    }

    /// A white canvas of the given size in pixels.
    pub fn new(width: i32, height: i32) -> (c: Canvas)
        ensures
            c.width == width,
            c.height == height,
            c.ops_seq() == seq![DrawOpView::Clear(Color { a: 255, r: 255, g: 255, b: 255 })],
            c.path@ == Seq::<PathVerb>::empty(),
            c.paint == initial_paint(),
    {
        let mut ops: Vec<DrawOp> = Vec::new();
        ops.push(DrawOp::Clear(Color::from_rgb(255, 255, 255)));
        let c = Canvas {
            width,
            height,
            ops,
            path: Vec::new(),
            paint: Paint { color: Color::from_rgb(0, 0, 0), style: PaintStyle::Fill, stroke_width: 100 },
        };
        assert(c.ops_seq() =~= seq![DrawOpView::Clear(Color { a: 255, r: 255, g: 255, b: 255 })]);
        c
    }

    fn record(&mut self, op: DrawOp)
        ensures
            final(self).ops_seq() == old(self).ops_seq().push(op@),
            final(self).path == old(self).path,
            final(self).paint == old(self).paint,
            final(self).width == old(self).width,
            final(self).height == old(self).height,
    {
        self.ops.push(op);
        assert(self.ops_seq() =~= old(self).ops_seq().push(op@));
    }

    pub fn set_color(&mut self, color: Color)
        ensures
            final(self).paint == (Paint { color, ..old(self).paint }),
            final(self).ops == old(self).ops,
            final(self).path == old(self).path,
            final(self).width == old(self).width,
            final(self).height == old(self).height,
    {
        self.paint.color = color;
    }

    pub fn set_style(&mut self, style: PaintStyle)
        ensures
            final(self).paint == (Paint { style, ..old(self).paint }),
            final(self).ops == old(self).ops,
            final(self).path == old(self).path,
            final(self).width == old(self).width,
            final(self).height == old(self).height,
    {
        self.paint.style = style;
    }

    pub fn set_line_width(&mut self, width: i64)
        ensures
            final(self).paint == (Paint { stroke_width: width, ..old(self).paint }),
            final(self).ops == old(self).ops,
            final(self).path == old(self).path,
            final(self).width == old(self).width,
            final(self).height == old(self).height,
    {
        self.paint.stroke_width = width;
    }

    pub fn save(&mut self)
        ensures
            final(self).ops_seq() == old(self).ops_seq().push(DrawOpView::Save),
            final(self).path == old(self).path,
            final(self).paint == old(self).paint,
            final(self).width == old(self).width,
            final(self).height == old(self).height,
    {
        self.record(DrawOp::Save);
    }

    pub fn restore(&mut self)
        ensures
            final(self).ops_seq() == old(self).ops_seq().push(DrawOpView::Restore),
            final(self).path == old(self).path,
            final(self).paint == old(self).paint,
            final(self).width == old(self).width,
            final(self).height == old(self).height,
    {
        self.record(DrawOp::Restore);
    }

    pub fn translate(&mut self, dx: i64, dy: i64)
        ensures
            final(self).ops_seq() == old(self).ops_seq().push(
                DrawOpView::Translate(dx as int, dy as int),
            ),
            final(self).path == old(self).path,
            final(self).paint == old(self).paint,
            final(self).width == old(self).width,
            final(self).height == old(self).height,
    {
        self.record(DrawOp::Translate(dx, dy));
    }

    /// Scales later drawing by `sx` and `sy` percent.
    pub fn scale(&mut self, sx: i64, sy: i64)
        ensures
            final(self).ops_seq() == old(self).ops_seq().push(
                DrawOpView::Scale(sx as int, sy as int),
            ),
            final(self).path == old(self).path,
            final(self).paint == old(self).paint,
            final(self).width == old(self).width,
            final(self).height == old(self).height,
    {
        self.record(DrawOp::Scale(sx, sy));
    }

    /// Draws the path built so far with the current paint and starts an
    /// empty one.
    pub fn begin_path(&mut self)
        ensures
            final(self).ops_seq() == old(self).ops_seq().push(
                DrawOpView::Path(old(self).path@, old(self).paint),
            ),
            final(self).path@ == Seq::<PathVerb>::empty(),
            final(self).paint == old(self).paint,
            final(self).width == old(self).width,
            final(self).height == old(self).height,
    {
        let finished = self.path.clone();
        self.path = Vec::new();
        let paint = self.paint;
        self.record(DrawOp::Path(finished, paint));
    }

    fn add_verb(&mut self, verb: PathVerb)
        ensures
            final(self).path@ == old(self).path@.push(verb),
            final(self).ops == old(self).ops,
            final(self).paint == old(self).paint,
            final(self).width == old(self).width,
            final(self).height == old(self).height,
    {
        self.path.push(verb);
    }

    /// Flushes the current path, then starts a new one at `(x, y)`.
    pub fn move_to(&mut self, x: i64, y: i64)
        ensures
            final(self).ops_seq() == old(self).ops_seq().push(
                DrawOpView::Path(old(self).path@, old(self).paint),
            ),
            final(self).path@ == seq![PathVerb::MoveTo(x, y)],
            final(self).paint == old(self).paint,
            final(self).width == old(self).width,
            final(self).height == old(self).height,
    {
        self.begin_path();
        self.add_verb(PathVerb::MoveTo(x, y));
        assert(self.path@ =~= seq![PathVerb::MoveTo(x, y)]);
    }

    pub fn line_to(&mut self, x: i64, y: i64)
        ensures
            final(self).path@ == old(self).path@.push(PathVerb::LineTo(x, y)),
            final(self).ops == old(self).ops,
            final(self).paint == old(self).paint,
            final(self).width == old(self).width,
            final(self).height == old(self).height,
    {
        self.add_verb(PathVerb::LineTo(x, y));
    }

    pub fn quad_to(&mut self, cpx: i64, cpy: i64, x: i64, y: i64)
        ensures
            final(self).path@ == old(self).path@.push(PathVerb::QuadTo(cpx, cpy, x, y)),
            final(self).ops == old(self).ops,
            final(self).paint == old(self).paint,
            final(self).width == old(self).width,
            final(self).height == old(self).height,
    {
        self.add_verb(PathVerb::QuadTo(cpx, cpy, x, y));
    }

    pub fn bezier_curve_to(&mut self, cp1x: i64, cp1y: i64, cp2x: i64, cp2y: i64, x: i64, y: i64)
        ensures
            final(self).path@ == old(self).path@.push(
                PathVerb::CubicTo(cp1x, cp1y, cp2x, cp2y, x, y),
            ),
            final(self).ops == old(self).ops,
            final(self).paint == old(self).paint,
            final(self).width == old(self).width,
            final(self).height == old(self).height,
    {
        self.add_verb(PathVerb::CubicTo(cp1x, cp1y, cp2x, cp2y, x, y));
    }

    pub fn close_path(&mut self)
        ensures
            final(self).path@ == old(self).path@.push(PathVerb::Close),
            final(self).ops == old(self).ops,
            final(self).paint == old(self).paint,
            final(self).width == old(self).width,
            final(self).height == old(self).height,
    {
        self.add_verb(PathVerb::Close);
    }

    /// Outlines the current path; the paint's style becomes `Stroke` and the
    /// path is kept.
    pub fn stroke(&mut self)
        ensures
            final(self).paint == (Paint { style: PaintStyle::Stroke, ..old(self).paint }),
            final(self).ops_seq() == old(self).ops_seq().push(
                DrawOpView::Path(old(self).path@, final(self).paint),
            ),
            final(self).path == old(self).path,
            final(self).width == old(self).width,
            final(self).height == old(self).height,
    {
        self.paint.style = PaintStyle::Stroke;
        let p = self.path.clone();
        let paint = self.paint;
        self.record(DrawOp::Path(p, paint));
    }

    /// Fills the current path; the paint's style becomes `Fill` and the path
    /// is kept.
    pub fn fill(&mut self)
        ensures
            final(self).paint == (Paint { style: PaintStyle::Fill, ..old(self).paint }),
            final(self).ops_seq() == old(self).ops_seq().push(
                DrawOpView::Path(old(self).path@, final(self).paint),
            ),
            final(self).path == old(self).path,
            final(self).width == old(self).width,
            final(self).height == old(self).height,
    {
        self.paint.style = PaintStyle::Fill;
        let p = self.path.clone();
        let paint = self.paint;
        self.record(DrawOp::Path(p, paint));
    }

    pub fn draw_rect(&mut self, x: i64, y: i64, width: i64, height: i64)
        ensures
            final(self).ops_seq() == old(self).ops_seq().push(
                DrawOpView::Rect(x as int, y as int, width as int, height as int, old(self).paint),
            ),
            final(self).path == old(self).path,
            final(self).paint == old(self).paint,
            final(self).width == old(self).width,
            final(self).height == old(self).height,
    {
        let paint = self.paint;
        self.record(DrawOp::Rect(x, y, width, height, paint));
    }

    pub fn draw_circle(&mut self, cx: i64, cy: i64, radius: i64)
        ensures
            final(self).ops_seq() == old(self).ops_seq().push(
                DrawOpView::Circle(cx as int, cy as int, radius as int, old(self).paint),
            ),
            final(self).path == old(self).path,
            final(self).paint == old(self).paint,
            final(self).width == old(self).width,
            final(self).height == old(self).height,
    {
        let paint = self.paint;
        self.record(DrawOp::Circle(cx, cy, radius, paint));
    }

    pub fn draw_oval(&mut self, x: i64, y: i64, width: i64, height: i64)
        ensures
            final(self).ops_seq() == old(self).ops_seq().push(
                DrawOpView::Oval(x as int, y as int, width as int, height as int, old(self).paint),
            ),
            final(self).path == old(self).path,
            final(self).paint == old(self).paint,
            final(self).width == old(self).width,
            final(self).height == old(self).height,
    {
        let paint = self.paint;
        self.record(DrawOp::Oval(x, y, width, height, paint));
    }

    pub fn draw_rounded_rect(&mut self, x: i64, y: i64, width: i64, height: i64, rx: i64, ry: i64)
        ensures
            final(self).ops_seq() == old(self).ops_seq().push(
                DrawOpView::RoundedRect(
                    x as int,
                    y as int,
                    width as int,
                    height as int,
                    rx as int,
                    ry as int,
                    old(self).paint,
                ),
            ),
            final(self).path == old(self).path,
            final(self).paint == old(self).paint,
            final(self).width == old(self).width,
            final(self).height == old(self).height,
    {
        let paint = self.paint;
        self.record(DrawOp::RoundedRect(x, y, width, height, rx, ry, paint));
    }

    /// Draws styled markup text with its baseline origin at `(x, y)`.
    pub fn draw_text(&mut self, text: &str, x: i64, y: i64, size: i64, shadow: bool)
        ensures
            final(self).ops_seq() == old(self).ops_seq().push(
                DrawOpView::Text(text@, x as int, y as int, size as int, shadow),
            ),
            final(self).path == old(self).path,
            final(self).paint == old(self).paint,
            final(self).width == old(self).width,
            final(self).height == old(self).height,
    {
        let t = text.to_owned();
        self.record(DrawOp::Text(t, x, y, size, shadow));
    }

    /// Draws an encoded image with its top-left corner at `(x, y)`.
    pub fn draw_image_from_bytes(&mut self, bytes: &Vec<u8>, x: i64, y: i64)
        ensures
            final(self).ops_seq() == old(self).ops_seq().push(
                DrawOpView::Image(bytes@, x as int, y as int),
            ),
            final(self).path == old(self).path,
            final(self).paint == old(self).paint,
            final(self).width == old(self).width,
            final(self).height == old(self).height,
    {
        let b = bytes.clone();
        self.record(DrawOp::Image(b, x, y));
    }
}

} // verus!
