//! Content boxes: shapes, images and text aligned inside a padded rectangle.
use crate::canvas::{Canvas, DrawOpView, Paint, PaintStyle, PathVerb};
use crate::color::Color;
use crate::metrics::{metrics_of, RunExtent, TextMetrics};
use crate::runs::{runs_of, TextRenderer};
use vstd::prelude::*;

verus! {

/// Magnitude bound on box geometry, item offsets, measured sizes and
/// padding, in hundredths of a pixel, that keeps layout arithmetic inside `i64`.
pub const COORD_LIMIT: i64 = 0x0400_0000_0000_0000;

/// Corner radius of backgrounds and borders.
pub const CORNER_RADIUS: i64 = 500;

pub open spec fn bounded(v: int) -> bool {
    -COORD_LIMIT <= v <= COORD_LIMIT
}

/// Horizontal placement of an item inside a box.
#[derive(Clone, Copy, Debug, PartialEq, Eq, Structural)]
pub enum Alignment {
    Left,
    Center,
    Right,
}

/// Vertical placement of an item inside a box.
#[derive(Clone, Copy, Debug, PartialEq, Eq, Structural)]
pub enum VerticalAlignment {
    Top,
    Middle,
    Bottom,
}

impl Default for Alignment {
    fn default() -> (r: Alignment)
        ensures
            r == Alignment::Left,
    {
        Alignment::Left
    }
}

/// Left edge of an item of width `w` with offset `lx` in an interior of width `inner_w`.
pub open spec fn align_x(a: Alignment, inner_w: int, w: int, lx: int) -> int {
    match a {
        Alignment::Left => lx,
        Alignment::Center => (inner_w - w) / 2 + lx,
        Alignment::Right => inner_w - w - lx,
    }
}

/// Baseline of text with offset `ly` and ink bounds `ascent <= 0 <= descent`:
/// `Top` puts the ink's top at `ly`, `Middle` centres the ink, `Bottom` puts
/// the ink's bottom on the interior's bottom edge.
pub open spec fn text_y(v: VerticalAlignment, inner_h: int, ly: int, ascent: int, descent: int) -> int {
    match v {
        VerticalAlignment::Top => ly - ascent,
        VerticalAlignment::Middle => ly + inner_h / 2 - ascent - (descent - ascent) / 2,
        VerticalAlignment::Bottom => ly + inner_h - descent,
    }
}

/// Top edge of an image of height `h` with offset `ly`. `Top` places the
/// image's bottom edge at `ly`, unlike text.
pub open spec fn image_y(v: VerticalAlignment, inner_h: int, ly: int, h: int) -> int {
    match v {
        VerticalAlignment::Top => ly - h,
        VerticalAlignment::Middle => ly + inner_h / 2 - h / 2,
        VerticalAlignment::Bottom => ly + inner_h - h,
    }
}

/// `v / 2`, rounded down.
fn half(v: i64) -> (r: i64)
    ensures
        r == v as int / 2,
{
    if v >= 0 {
        v / 2
    } else {
        let r = -((-(v as i128) + 1) / 2);
        r as i64
    }
}

fn aligned_x(a: Alignment, inner_w: i64, w: i64, lx: i64) -> (r: i64)
    requires
        -3 * COORD_LIMIT <= inner_w <= 3 * COORD_LIMIT,
        bounded(w as int),
        -2 * COORD_LIMIT <= lx <= 2 * COORD_LIMIT,
    ensures
        r == align_x(a, inner_w as int, w as int, lx as int),
{
    match a {
        Alignment::Left => lx,
        Alignment::Center => half(inner_w - w) + lx,
        Alignment::Right => inner_w - w - lx,
    }
}

fn text_baseline(v: VerticalAlignment, inner_h: i64, ly: i64, ascent: i64, descent: i64) -> (r: i64)
    requires
        -3 * COORD_LIMIT <= inner_h <= 3 * COORD_LIMIT,
        -2 * COORD_LIMIT <= ly <= 2 * COORD_LIMIT,
        bounded(ascent as int),
        bounded(descent as int),
    ensures
        r == text_y(v, inner_h as int, ly as int, ascent as int, descent as int),
{
    match v {
        VerticalAlignment::Top => ly - ascent,
        VerticalAlignment::Middle => ly + half(inner_h) - ascent - half(descent - ascent),
        VerticalAlignment::Bottom => ly + inner_h - descent,
    }
}

fn image_top(v: VerticalAlignment, inner_h: i64, ly: i64, h: i64) -> (r: i64)
    requires
        -3 * COORD_LIMIT <= inner_h <= 3 * COORD_LIMIT,
        -2 * COORD_LIMIT <= ly <= 2 * COORD_LIMIT,
        bounded(h as int),
    ensures
        r == image_y(v, inner_h as int, ly as int, h as int),
{
    match v {
        VerticalAlignment::Top => ly - h,
        VerticalAlignment::Middle => ly + half(inner_h) - half(h),
        VerticalAlignment::Bottom => ly + inner_h - h,
    }
}

/// Kind of a shape.
#[derive(Clone, Copy, Debug, PartialEq, Eq, Structural)]
pub enum ShapeType {
    Rectangle,
    Circle,
    Line,
    RoundedRectangle,
}

/// A shape drawn in a box's coordinates. A circle keeps its radius in
/// `width`; a line runs from `(x, y)` to `(x + width, y + height)`.
#[derive(Clone, Copy, Debug, PartialEq, Eq, Structural)]
pub struct Shape {
    pub shape_type: ShapeType,
    pub x: i64,
    pub y: i64,
    pub width: i64,
    pub height: i64,
    pub color: Color,
    pub style: PaintStyle,
    pub rx: i64,
    pub ry: i64,
}

/// The operations that draw shape `s` on a canvas whose path is `path` and
/// whose paint is `paint`.
pub open spec fn shape_ops(path: Seq<PathVerb>, paint: Paint, s: Shape) -> Seq<DrawOpView> {
    let p = Paint { color: s.color, style: s.style, ..paint };
    match s.shape_type {
        ShapeType::Rectangle => seq![
            DrawOpView::Rect(s.x as int, s.y as int, s.width as int, s.height as int, p),
        ],
        ShapeType::Circle => seq![DrawOpView::Circle(s.x as int, s.y as int, s.width as int, p)],
        ShapeType::Line => seq![
            DrawOpView::Path(path, p),
            DrawOpView::Path(line_path(s), Paint { style: PaintStyle::Stroke, ..p }),
        ],
        ShapeType::RoundedRectangle => seq![
            DrawOpView::RoundedRect(
                s.x as int,
                s.y as int,
                s.width as int,
                s.height as int,
                s.rx as int,
                s.ry as int,
                p,
            ),
        ],
    }
}

pub open spec fn line_path(s: Shape) -> Seq<PathVerb> {
    seq![PathVerb::MoveTo(s.x, s.y), PathVerb::LineTo((s.x + s.width) as i64, (s.y + s.height) as i64)]
}

/// The canvas path once shape `s` is drawn: a line leaves its own path.
pub open spec fn shape_path(path: Seq<PathVerb>, s: Shape) -> Seq<PathVerb> {
    if s.shape_type == ShapeType::Line {
        line_path(s)
    } else {
        path
    }
}

/// The path after drawing `shapes` in order.
pub open spec fn shapes_path(path: Seq<PathVerb>, shapes: Seq<Shape>) -> Seq<PathVerb>
    decreases shapes.len(),
{
    if shapes.len() == 0 {
        path
    } else {
        shape_path(shapes_path(path, shapes.drop_last()), shapes.last())
    }
}

/// The operations that draw `shapes` in order.
pub open spec fn shapes_ops(path: Seq<PathVerb>, paint: Paint, shapes: Seq<Shape>) -> Seq<
    DrawOpView,
>
    decreases shapes.len(),
{
    if shapes.len() == 0 {
        seq![]
    } else {
        shapes_ops(path, paint, shapes.drop_last()) + shape_ops(
            shapes_path(path, shapes.drop_last()),
            paint,
            shapes.last(),
        )
    }
}

impl Shape {
    pub open spec fn wf(&self) -> bool {
        bounded(self.x as int) && bounded(self.y as int) && bounded(self.width as int) && bounded(
            self.height as int,
        )
    }

    fn plain(shape_type: ShapeType, x: i64, y: i64, width: i64, height: i64, style: PaintStyle) -> (r: Shape)
        ensures
            r == (Shape {
                shape_type,
                x,
                y,
                width,
                height,
                color: Color { a: 255, r: 0, g: 0, b: 0 },
                style,
                rx: 0,
                ry: 0,
            }),
    {
        Shape {
            shape_type,
            x,
            y,
            width,
            height,
            color: Color::from_rgb(0, 0, 0),
            style,
            rx: 0,
            ry: 0,
        }
    }

    /// A filled black rectangle.
    pub fn rect(x: i64, y: i64, width: i64, height: i64) -> (r: Shape)
        ensures
            r == (Shape {
                shape_type: ShapeType::Rectangle,
                x,
                y,
                width,
                height,
                color: Color { a: 255, r: 0, g: 0, b: 0 },
                style: PaintStyle::Fill,
                rx: 0,
                ry: 0,
            }),
    {
        Shape::plain(ShapeType::Rectangle, x, y, width, height, PaintStyle::Fill)
    }

    /// A filled black circle centred on `(x, y)`.
    pub fn circle(x: i64, y: i64, radius: i64) -> (r: Shape)
        ensures
            r == (Shape {
                shape_type: ShapeType::Circle,
                x,
                y,
                width: radius,
                height: radius,
                color: Color { a: 255, r: 0, g: 0, b: 0 },
                style: PaintStyle::Fill,
                rx: 0,
                ry: 0,
            }),
    {
        Shape::plain(ShapeType::Circle, x, y, radius, radius, PaintStyle::Fill)
    }

    /// A black line from `(x, y)` by `(x2, y2)`.
    pub fn line(x: i64, y: i64, x2: i64, y2: i64) -> (r: Shape)
        ensures
            r == (Shape {
                shape_type: ShapeType::Line,
                x,
                y,
                width: x2,
                height: y2,
                color: Color { a: 255, r: 0, g: 0, b: 0 },
                style: PaintStyle::Stroke,
                rx: 0,
                ry: 0,
            }),
    {
        Shape::plain(ShapeType::Line, x, y, x2, y2, PaintStyle::Stroke)
    }

    /// A filled black rectangle with corner radii `rx` and `ry`.
    pub fn rounded_rect(x: i64, y: i64, width: i64, height: i64, rx: i64, ry: i64) -> (r: Shape)
        ensures
            r == (Shape {
                shape_type: ShapeType::RoundedRectangle,
                x,
                y,
                width,
                height,
                color: Color { a: 255, r: 0, g: 0, b: 0 },
                style: PaintStyle::Fill,
                rx,
                ry,
            }),
    {
        Shape {
            shape_type: ShapeType::RoundedRectangle,
            x,
            y,
            width,
            height,
            color: Color::from_rgb(0, 0, 0),
            style: PaintStyle::Fill,
            rx,
            ry,
        }
    }

    /// Draws the shape in its own colour and style, then puts the canvas's
    /// colour and style back.
    pub fn render(&self, canvas: &mut Canvas)
        requires
            self.wf(),
        ensures
            final(canvas).ops_seq() == old(canvas).ops_seq() + shape_ops(
                old(canvas).path@,
                old(canvas).paint,
                *self,
            ),
            final(canvas).path@ == shape_path(old(canvas).path@, *self),
            final(canvas).paint == old(canvas).paint,
            final(canvas).width == old(canvas).width,
            final(canvas).height == old(canvas).height,
    {
        let saved_color = canvas.paint.color;
        canvas.set_color(self.color);
        let saved_style = canvas.paint.style;
        canvas.set_style(self.style);
        match self.shape_type {
            ShapeType::Rectangle => {
                canvas.draw_rect(self.x, self.y, self.width, self.height);
            },
            ShapeType::Circle => {
                canvas.draw_circle(self.x, self.y, self.width);
            },
            ShapeType::Line => {
                canvas.move_to(self.x, self.y);
                canvas.line_to(self.x + self.width, self.y + self.height);
                canvas.stroke();
                assert(canvas.path@ =~= line_path(*self));
            },
            ShapeType::RoundedRectangle => {
                canvas.draw_rounded_rect(
                    self.x,
                    self.y,
                    self.width,
                    self.height,
                    self.rx,
                    self.ry,
                );
            },
        }
        canvas.set_color(saved_color);
        canvas.set_style(saved_style);
        assert(canvas.ops_seq() =~= old(canvas).ops_seq() + shape_ops(
            old(canvas).path@,
            old(canvas).paint,
            *self,
        ));
    }
}

/// An image placed in a box. Placement uses the decoded image's own size;
/// `width` and `height` are kept but not used.
#[derive(Clone, Debug)]
pub struct ImageContent {
    pub bytes: Vec<u8>,
    pub x: i64,
    pub y: i64,
    pub width: i64,
    pub height: i64,
    pub alignment: Alignment,
    pub vertical_alignment: VerticalAlignment,
}

impl ImageContent {
    pub open spec fn wf(&self) -> bool {
        -2 * COORD_LIMIT <= self.x <= 2 * COORD_LIMIT && -2 * COORD_LIMIT <= self.y <= 2
            * COORD_LIMIT
    }

    /// An image at `(x, y)`, aligned left and top.
    pub fn new(bytes: Vec<u8>, x: i64, y: i64, width: i64, height: i64) -> (r: ImageContent)
        ensures
            r.bytes@ == bytes@,
            r.x == x && r.y == y && r.width == width && r.height == height,
            r.alignment == Alignment::Left,
            r.vertical_alignment == VerticalAlignment::Top,
    {
        ImageContent {
            bytes,
            x,
            y,
            width,
            height,
            alignment: Alignment::Left,
            vertical_alignment: VerticalAlignment::Top,
        }
    }

    pub fn with_alignment(self, alignment: Alignment) -> (r: ImageContent)
        ensures
            r == (ImageContent { alignment, ..self }),
    {
        ImageContent { alignment, ..self }
    }

    pub fn with_vertical_alignment(self, alignment: VerticalAlignment) -> (r: ImageContent)
        ensures
            r == (ImageContent { vertical_alignment: alignment, ..self }),
    {
        ImageContent { vertical_alignment: alignment, ..self }
    }

    /// The operation that draws this image, decoded to `image_width` by
    /// `image_height`, in an interior of the given size.
    pub open spec fn op(&self, inner_width: int, inner_height: int, image_width: int, image_height: int) -> DrawOpView {
        DrawOpView::Image(
            self.bytes@,
            align_x(self.alignment, inner_width, image_width, self.x as int),
            image_y(self.vertical_alignment, inner_height, self.y as int, image_height),
        )
    }

    /// Draws the image, whose decoded size is `image_width` by
    /// `image_height`, aligned in an interior of the given size.
    pub fn render(
        &self,
        canvas: &mut Canvas,
        inner_width: i64,
        inner_height: i64,
        image_width: i64,
        image_height: i64,
    )
        requires
            self.wf(),
            -3 * COORD_LIMIT <= inner_width <= 3 * COORD_LIMIT,
            -3 * COORD_LIMIT <= inner_height <= 3 * COORD_LIMIT,
            bounded(image_width as int),
            bounded(image_height as int),
        ensures
            final(canvas).ops_seq() == old(canvas).ops_seq().push(
                self.op(
                    inner_width as int,
                    inner_height as int,
                    image_width as int,
                    image_height as int,
                ),
            ),
            final(canvas).path == old(canvas).path,
            final(canvas).paint == old(canvas).paint,
            final(canvas).width == old(canvas).width,
            final(canvas).height == old(canvas).height,
    {
        let x = aligned_x(self.alignment, inner_width, image_width, self.x);
        let y = image_top(self.vertical_alignment, inner_height, self.y, image_height);
        canvas.draw_image_from_bytes(&self.bytes, x, y);
    }
}

/// A line of markup text placed in a box.
#[derive(Clone, Debug)]
pub struct TextContent {
    pub text: String,
    pub x: i64,
    pub y: i64,
    pub size: i64,
    pub shadow: bool,
    pub alignment: Alignment,
    pub vertical_alignment: VerticalAlignment,
}

impl TextContent {
    pub open spec fn wf(&self) -> bool {
        -2 * COORD_LIMIT <= self.x <= 2 * COORD_LIMIT && -2 * COORD_LIMIT <= self.y <= 2
            * COORD_LIMIT
    }

    /// Text at `(x, y)` of the given size, with a shadow, aligned left and top.
    pub fn new(text: String, x: i64, y: i64, size: i64) -> (r: TextContent)
        ensures
            r.text@ == text@,
            r.x == x && r.y == y && r.size == size,
            r.shadow,
            r.alignment == Alignment::Left,
            r.vertical_alignment == VerticalAlignment::Top,
    {
        TextContent {
            text,
            x,
            y,
            size,
            shadow: true,
            alignment: Alignment::Left,
            vertical_alignment: VerticalAlignment::Top,
        }
    }

    pub fn with_shadow(self, shadow: bool) -> (r: TextContent)
        ensures
            r == (TextContent { shadow, ..self }),
    {
        TextContent { shadow, ..self }
    }

    pub fn with_alignment(self, alignment: Alignment) -> (r: TextContent)
        ensures
            r == (TextContent { alignment, ..self }),
    {
        TextContent { alignment, ..self }
    }

    pub fn with_vertical_alignment(self, alignment: VerticalAlignment) -> (r: TextContent)
        ensures
            r == (TextContent { vertical_alignment: alignment, ..self }),
    {
        TextContent { vertical_alignment: alignment, ..self }
    }

    /// The metrics that place this item: those of its own markup, from the
    /// extents of the runs that drawing it uses. `None` when the extents are
    /// not one per run.
    pub fn metrics(&self, renderer: &TextRenderer, extents: &Vec<RunExtent>) -> (r: Option<TextMetrics>)
        requires
            extents@.len() <= i32::MAX,
        ensures
            r is Some <==> extents@.len() == runs_of(self.text@, renderer.coverage).len(),
            r matches Some(m) ==> m == metrics_of(extents@),
    {
        renderer.measure_text(self.text.as_str(), extents)
    }

    /// The operation that draws this text, measured as `m`, in an interior
    /// of the given size.
    pub open spec fn op(&self, inner_width: int, inner_height: int, m: TextMetrics) -> DrawOpView {
        DrawOpView::Text(
            self.text@,
            align_x(self.alignment, inner_width, m.width as int, self.x as int),
            text_y(
                self.vertical_alignment,
                inner_height,
                self.y as int,
                m.ascent as int,
                m.descent as int,
            ),
            self.size as int,
            self.shadow,
        )
    }

    /// Draws the text, whose markup measures `metrics` (see `metrics`), aligned in
    /// an interior of the given size.
    pub fn render(&self, canvas: &mut Canvas, inner_width: i64, inner_height: i64, metrics: TextMetrics)
        requires
            self.wf(),
            -3 * COORD_LIMIT <= inner_width <= 3 * COORD_LIMIT,
            -3 * COORD_LIMIT <= inner_height <= 3 * COORD_LIMIT,
            metrics_bounded(metrics),
        ensures
            final(canvas).ops_seq() == old(canvas).ops_seq().push(
                self.op(inner_width as int, inner_height as int, metrics),
            ),
            final(canvas).path == old(canvas).path,
            final(canvas).paint == old(canvas).paint,
            final(canvas).width == old(canvas).width,
            final(canvas).height == old(canvas).height,
    {
        let x = aligned_x(self.alignment, inner_width, metrics.width, self.x);
        let y = text_baseline(
            self.vertical_alignment,
            inner_height,
            self.y,
            metrics.ascent,
            metrics.descent,
        );
        canvas.draw_text(self.text.as_str(), x, y, self.size, self.shadow);
    }
}

/// Whether measured metrics are within the layout bound.
pub open spec fn metrics_bounded(m: TextMetrics) -> bool {
    bounded(m.width as int) && bounded(m.ascent as int) && bounded(m.descent as int)
}

/// A rectangular region with shapes, images and text, laid out inside its
/// padding. A background, if any, is shape 0 and a border shape 1, so that
/// shapes added later are drawn over them.
#[derive(Clone, Debug)]
pub struct ContentBox {
    pub x: i64,
    pub y: i64,
    pub width: i64,
    pub height: i64,
    pub shapes: Vec<Shape>,
    pub texts: Vec<TextContent>,
    pub images: Vec<ImageContent>,
    pub padding: i64,
}

impl ContentBox {
    pub open spec fn wf(&self) -> bool {
        &&& bounded(self.x as int)
        &&& bounded(self.y as int)
        &&& bounded(self.width as int)
        &&& bounded(self.height as int)
        &&& bounded(self.padding as int)
        &&& forall|i: int| 0 <= i < self.shapes@.len() ==> #[trigger] self.shapes@[i].wf()
        &&& forall|i: int| 0 <= i < self.texts@.len() ==> #[trigger] self.texts@[i].wf()
        &&& forall|i: int| 0 <= i < self.images@.len() ==> #[trigger] self.images@[i].wf()
    }

    pub open spec fn inner_width(&self) -> int {
        self.width - 2 * self.padding
    }

    pub open spec fn inner_height(&self) -> int {
        self.height - 2 * self.padding
    }

    /// The operations that draw the images, decoded to `sizes`, in order.
    pub open spec fn image_ops(&self, sizes: Seq<(i64, i64)>) -> Seq<DrawOpView> {
        Seq::new(
            self.images@.len(),
            |i: int|
                self.images@[i].op(
                    self.inner_width(),
                    self.inner_height(),
                    sizes[i].0 as int,
                    sizes[i].1 as int,
                ),
        )
    }

    /// The operations that draw the texts, measured as `metrics`, in order.
    pub open spec fn text_ops(&self, metrics: Seq<TextMetrics>) -> Seq<DrawOpView> {
        Seq::new(
            self.texts@.len(),
            |i: int| self.texts@[i].op(self.inner_width(), self.inner_height(), metrics[i]),
        )
    }

    /// Everything rendering draws, on a canvas with path `path` and paint
    /// `paint`: the box's origin becomes the origin, then the shapes, the
    /// images and the texts are drawn in order, and the origin is restored.
    pub open spec fn render_ops(
        &self,
        path: Seq<PathVerb>,
        paint: Paint,
        metrics: Seq<TextMetrics>,
        sizes: Seq<(i64, i64)>,
    ) -> Seq<DrawOpView> {
        seq![DrawOpView::Save, DrawOpView::Translate(self.x as int, self.y as int)] + shapes_ops(
            path,
            paint,
            self.shapes@,
        ) + self.image_ops(sizes) + self.text_ops(metrics) + seq![DrawOpView::Restore]
    }

    /// Whether text metrics and decoded image sizes fit this box's items.
    pub open spec fn measurements_fit(&self, metrics: Seq<TextMetrics>, sizes: Seq<(i64, i64)>) -> bool {
        &&& metrics.len() == self.texts@.len()
        &&& sizes.len() == self.images@.len()
        &&& forall|i: int| 0 <= i < metrics.len() ==> #[trigger] metrics_bounded(metrics[i])
        &&& forall|i: int|
            0 <= i < sizes.len() ==> bounded(#[trigger] sizes[i].0 as int) && bounded(
                sizes[i].1 as int,
            )
    }

    /// An empty box at `(x, y)` of the given size, without padding.
    pub fn new(x: i64, y: i64, width: i64, height: i64) -> (r: ContentBox)
        requires
            bounded(x as int),
            bounded(y as int),
            bounded(width as int),
            bounded(height as int),
        ensures
            r.wf(),
            r.x == x && r.y == y && r.width == width && r.height == height,
            r.shapes@.len() == 0 && r.texts@.len() == 0 && r.images@.len() == 0,
            r.padding == 0,
    {
        ContentBox {
            x,
            y,
            width,
            height,
            shapes: Vec::new(),
            texts: Vec::new(),
            images: Vec::new(),
            padding: 0,
        }
    }

    /// Sets the padding that items added from now on are offset by.
    pub fn with_padding(self, padding: i64) -> (r: ContentBox)
        requires
            self.wf(),
            bounded(padding as int),
        ensures
            r.wf(),
            r == (ContentBox { padding, ..self }),
    {
        ContentBox { padding, ..self }
    }

    /// Inserts a rounded background of colour `color` covering the box, as
    /// shape 0.
    pub fn with_background(self, color: Color) -> (r: ContentBox)
        requires
            self.wf(),
        ensures
            r.wf(),
            r.shapes@ == self.shapes@.insert(
                0,
                Shape {
                    shape_type: ShapeType::RoundedRectangle,
                    x: 0,
                    y: 0,
                    width: self.width,
                    height: self.height,
                    color,
                    style: PaintStyle::Fill,
                    rx: 500,
                    ry: 500,
                },
            ),
            r.texts == self.texts && r.images == self.images,
            r.x == self.x && r.y == self.y && r.width == self.width && r.height == self.height,
            r.padding == self.padding,
    {
        let mut b = self;
        let background = Shape {
            color,
            ..Shape::rounded_rect(0, 0, b.width, b.height, CORNER_RADIUS, CORNER_RADIUS)
        };
        b.shapes.insert(0, background);
        assert forall|i: int| 0 <= i < b.shapes@.len() implies #[trigger] b.shapes@[i].wf() by {
            if i > 0 {
                assert(b.shapes@[i] == self.shapes@[i - 1]);
            }
        }
        b
    }

    /// Inserts a rounded outline of colour `color` around the box, as shape 1
    /// (above the background).
    pub fn with_border(self, color: Color) -> (r: ContentBox)
        requires
            self.wf(),
            self.shapes@.len() >= 1,
        ensures
            r.wf(),
            r.shapes@ == self.shapes@.insert(
                1,
                Shape {
                    shape_type: ShapeType::RoundedRectangle,
                    x: 0,
                    y: 0,
                    width: self.width,
                    height: self.height,
                    color,
                    style: PaintStyle::Stroke,
                    rx: 500,
                    ry: 500,
                },
            ),
            r.texts == self.texts && r.images == self.images,
            r.x == self.x && r.y == self.y && r.width == self.width && r.height == self.height,
            r.padding == self.padding,
    {
        let mut b = self;
        let border = Shape {
            style: PaintStyle::Stroke,
            color,
            ..Shape::rounded_rect(0, 0, b.width, b.height, CORNER_RADIUS, CORNER_RADIUS)
        };
        b.shapes.insert(1, border);
        assert forall|i: int| 0 <= i < b.shapes@.len() implies #[trigger] b.shapes@[i].wf() by {
            if i > 1 {
                assert(b.shapes@[i] == self.shapes@[i - 1]);
            } else if i == 0 {
                assert(b.shapes@[i] == self.shapes@[0]);
            }
        }
        b
    }

    /// Appends a text item, offset by the padding in both directions.
    pub fn add_text(self, text: TextContent) -> (r: ContentBox)
        requires
            self.wf(),
            bounded(text.x as int),
            bounded(text.y as int),
        ensures
            r.wf(),
            r.texts@.len() == self.texts@.len() + 1,
            forall|i: int| 0 <= i < self.texts@.len() ==> #[trigger] r.texts@[i] == self.texts@[i],
            r.texts@.last() == (TextContent {
                x: (text.x + self.padding) as i64,
                y: (text.y + self.padding) as i64,
                ..text
            }),
            r.shapes == self.shapes && r.images == self.images,
            r.x == self.x && r.y == self.y && r.width == self.width && r.height == self.height,
            r.padding == self.padding,
    {
        let mut b = self;
        let padded = TextContent { x: text.x + b.padding, y: text.y + b.padding, ..text };
        b.texts.push(padded);
        assert forall|i: int| 0 <= i < b.texts@.len() implies #[trigger] b.texts@[i].wf() by {
            if i < self.texts@.len() {
                assert(b.texts@[i] == self.texts@[i]);
            }
        }
        b
    }

    /// Appends a shape, drawn after those already there.
    pub fn add_shape(self, shape: Shape) -> (r: ContentBox)
        requires
            self.wf(),
            shape.wf(),
        ensures
            r.wf(),
            r.shapes@ == self.shapes@.push(shape),
            r.texts == self.texts && r.images == self.images,
            r.x == self.x && r.y == self.y && r.width == self.width && r.height == self.height,
            r.padding == self.padding,
    {
        let mut b = self;
        b.shapes.push(shape);
        assert forall|i: int| 0 <= i < b.shapes@.len() implies #[trigger] b.shapes@[i].wf() by {
            if i < self.shapes@.len() {
                assert(b.shapes@[i] == self.shapes@[i]);
            }
        }
        b
    }

    /// Appends an image item, offset by the padding in both directions.
    pub fn add_image(self, image: ImageContent) -> (r: ContentBox)
        requires
            self.wf(),
            bounded(image.x as int),
            bounded(image.y as int),
        ensures
            r.wf(),
            r.images@.len() == self.images@.len() + 1,
            forall|i: int| 0 <= i < self.images@.len() ==> #[trigger] r.images@[i] == self.images@[i],
            r.images@.last() == (ImageContent {
                x: (image.x + self.padding) as i64,
                y: (image.y + self.padding) as i64,
                ..image
            }),
            r.shapes == self.shapes && r.texts == self.texts,
            r.x == self.x && r.y == self.y && r.width == self.width && r.height == self.height,
            r.padding == self.padding,
    {
        let mut b = self;
        let padded = ImageContent { x: image.x + b.padding, y: image.y + b.padding, ..image };
        b.images.push(padded);
        assert forall|i: int| 0 <= i < b.images@.len() implies #[trigger] b.images@[i].wf() by {
            if i < self.images@.len() {
                assert(b.images@[i] == self.images@[i]);
            }
        }
        b
    }

    /// Draws the box: moves the origin to the box, draws its shapes, then
    /// each image at its decoded size (`image_sizes`, width and height) and
    /// each text with the metrics of its own markup (`text_metrics`),
    /// aligned in the padded interior, and restores the origin.
    pub fn render(
        &self,
        canvas: &mut Canvas,
        text_metrics: &Vec<TextMetrics>,
        image_sizes: &Vec<(i64, i64)>,
    )
        requires
            self.wf(),
            self.measurements_fit(text_metrics@, image_sizes@),
        ensures
            final(canvas).ops_seq() == old(canvas).ops_seq() + self.render_ops(
                old(canvas).path@,
                old(canvas).paint,
                text_metrics@,
                image_sizes@,
            ),
            final(canvas).path@ == shapes_path(old(canvas).path@, self.shapes@),
            final(canvas).paint == old(canvas).paint,
            final(canvas).width == old(canvas).width,
            final(canvas).height == old(canvas).height,
    {
        let ghost base = old(canvas).ops_seq();
        let ghost path0 = old(canvas).path@;
        let ghost paint0 = old(canvas).paint;
        canvas.save();
        canvas.translate(self.x, self.y);
        let ghost start = canvas.ops_seq();
        assert(start == base + seq![DrawOpView::Save, DrawOpView::Translate(self.x as int, self.y as int)]);
        let mut i: usize = 0;
        assert(self.shapes@.take(0) =~= seq![]);
        assert(start + shapes_ops(path0, paint0, self.shapes@.take(0)) =~= start);
        while i < self.shapes.len()
            invariant
                self.wf(),
                i <= self.shapes@.len(),
                canvas.ops_seq() == start + shapes_ops(path0, paint0, self.shapes@.take(i as int)),
                canvas.path@ == shapes_path(path0, self.shapes@.take(i as int)),
                canvas.paint == paint0,
                canvas.width == old(canvas).width,
                canvas.height == old(canvas).height,
            decreases self.shapes@.len() - i,
        {
            self.shapes[i].render(canvas);
            assert(self.shapes@.take(i as int + 1).drop_last() =~= self.shapes@.take(i as int));
            assert(self.shapes@.take(i as int + 1).last() == self.shapes@[i as int]);
            assert(canvas.ops_seq() =~= start + shapes_ops(path0, paint0, self.shapes@.take(i as int + 1)));
            i = i + 1;
        }
        assert(self.shapes@.take(i as int) =~= self.shapes@);
        let inner_width = self.width - self.padding * 2;
        let inner_height = self.height - self.padding * 2;
        let ghost after_shapes = canvas.ops_seq();
        let ghost imgs = self.image_ops(image_sizes@);
        let mut k: usize = 0;
        assert(after_shapes + imgs.take(0) =~= after_shapes);
        while k < self.images.len()
            invariant
                self.wf(),
                self.measurements_fit(text_metrics@, image_sizes@),
                inner_width == self.inner_width(),
                inner_height == self.inner_height(),
                imgs == self.image_ops(image_sizes@),
                k <= self.images@.len(),
                canvas.ops_seq() == after_shapes + imgs.take(k as int),
                canvas.path@ == shapes_path(path0, self.shapes@),
                canvas.paint == paint0,
                canvas.width == old(canvas).width,
                canvas.height == old(canvas).height,
            decreases self.images@.len() - k,
        {
            let (w, h) = image_sizes[k];
            assert(bounded(image_sizes@[k as int].0 as int));
            self.images[k].render(canvas, inner_width, inner_height, w, h);
            assert(imgs.take(k as int + 1) =~= imgs.take(k as int).push(imgs[k as int]));
            k = k + 1;
        }
        assert(imgs.take(k as int) =~= imgs);
        let ghost after_images = canvas.ops_seq();
        let ghost txts = self.text_ops(text_metrics@);
        let mut j: usize = 0;
        assert(after_images + txts.take(0) =~= after_images);
        while j < self.texts.len()
            invariant
                self.wf(),
                self.measurements_fit(text_metrics@, image_sizes@),
                inner_width == self.inner_width(),
                inner_height == self.inner_height(),
                txts == self.text_ops(text_metrics@),
                j <= self.texts@.len(),
                canvas.ops_seq() == after_images + txts.take(j as int),
                canvas.path@ == shapes_path(path0, self.shapes@),
                canvas.paint == paint0,
                canvas.width == old(canvas).width,
                canvas.height == old(canvas).height,
            decreases self.texts@.len() - j,
        {
            assert(metrics_bounded(text_metrics@[j as int]));
            assert(self.texts@[j as int].wf());
            self.texts[j].render(canvas, inner_width, inner_height, text_metrics[j]);
            assert(txts.take(j as int + 1) =~= txts.take(j as int).push(txts[j as int]));
            j = j + 1;
        }
        assert(txts.take(j as int) =~= txts);
        canvas.restore();
        assert(canvas.ops_seq() =~= base + self.render_ops(path0, paint0, text_metrics@, image_sizes@));
    }
}

pub open spec fn metrics_view(v: Seq<Vec<TextMetrics>>) -> Seq<Seq<TextMetrics>> {
    v.map_values(|m: Vec<TextMetrics>| m@)
}

pub open spec fn sizes_view(v: Seq<Vec<(i64, i64)>>) -> Seq<Seq<(i64, i64)>> {
    v.map_values(|m: Vec<(i64, i64)>| m@)
}

/// The canvas path after rendering the first `k` boxes.
pub open spec fn boxes_path(path: Seq<PathVerb>, boxes: Seq<ContentBox>, k: int) -> Seq<PathVerb>
    decreases k,
{
    if k <= 0 || k > boxes.len() {
        path
    } else {
        shapes_path(boxes_path(path, boxes, k - 1), boxes[k - 1].shapes@)
    }
}

/// The operations that render the first `k` boxes in order.
pub open spec fn boxes_ops(
    path: Seq<PathVerb>,
    paint: Paint,
    boxes: Seq<ContentBox>,
    metrics: Seq<Seq<TextMetrics>>,
    sizes: Seq<Seq<(i64, i64)>>,
    k: int,
) -> Seq<DrawOpView>
    decreases k,
{
    if k <= 0 || k > boxes.len() {
        seq![]
    } else {
        boxes_ops(path, paint, boxes, metrics, sizes, k - 1) + boxes[k - 1].render_ops(
            boxes_path(path, boxes, k - 1),
            paint,
            metrics[k - 1],
            sizes[k - 1],
        )
    }
}

impl Canvas {
    /// Renders boxes in order; box `i` uses `text_metrics[i]` and
    /// `image_sizes[i]`.
    pub fn render_content_boxes(
        &mut self,
        boxes: &Vec<ContentBox>,
        text_metrics: &Vec<Vec<TextMetrics>>,
        image_sizes: &Vec<Vec<(i64, i64)>>,
    )
        requires
            text_metrics@.len() == boxes@.len(),
            image_sizes@.len() == boxes@.len(),
            forall|i: int|
                0 <= i < boxes@.len() ==> #[trigger] boxes@[i].wf() && boxes@[i].measurements_fit(
                    text_metrics@[i]@,
                    image_sizes@[i]@,
                ),
        ensures
            final(self).ops_seq() == old(self).ops_seq() + boxes_ops(
                old(self).path@,
                old(self).paint,
                boxes@,
                metrics_view(text_metrics@),
                sizes_view(image_sizes@),
                boxes@.len() as int,
            ),
            final(self).path@ == boxes_path(old(self).path@, boxes@, boxes@.len() as int),
            final(self).paint == old(self).paint,
            final(self).width == old(self).width,
            final(self).height == old(self).height,
    {
        let ghost base = old(self).ops_seq();
        let ghost path0 = old(self).path@;
        let ghost paint0 = old(self).paint;
        let ghost mv = metrics_view(text_metrics@);
        let ghost sv = sizes_view(image_sizes@);
        let mut i: usize = 0;
        assert(base + boxes_ops(path0, paint0, boxes@, mv, sv, 0) =~= base);
        while i < boxes.len()
            invariant
                text_metrics@.len() == boxes@.len(),
                image_sizes@.len() == boxes@.len(),
                forall|i: int|
                    0 <= i < boxes@.len() ==> #[trigger] boxes@[i].wf() && boxes@[i].measurements_fit(
                        text_metrics@[i]@,
                        image_sizes@[i]@,
                    ),
                mv == metrics_view(text_metrics@),
                sv == sizes_view(image_sizes@),
                i <= boxes@.len(),
                self.ops_seq() == base + boxes_ops(path0, paint0, boxes@, mv, sv, i as int),
                self.path@ == boxes_path(path0, boxes@, i as int),
                self.paint == paint0,
                self.width == old(self).width,
                self.height == old(self).height,
            decreases boxes@.len() - i,
        {
            assert(boxes@[i as int].wf());
            boxes[i].render(self, &text_metrics[i], &image_sizes[i]);
            assert(mv[i as int] == text_metrics@[i as int]@);
            assert(sv[i as int] == image_sizes@[i as int]@);
            assert(self.ops_seq() =~= base + boxes_ops(path0, paint0, boxes@, mv, sv, i as int + 1));
            i = i + 1;
        }
    }
}

/// A centred, middle-aligned text item is drawn centred in the padded
/// interior: for a 200 by 100 pixel box with 10 pixels of padding, text of
/// measured width `w` and ink bounds `a` and `d` has its origin at
/// `((180 - w) / 2 + 10, 10 + 80 / 2 - a - (d - a) / 2)` (in hundredths).
pub proof fn lemma_centred_text(b: ContentBox, m: TextMetrics)
    requires
        b.width == 20000,
        b.height == 10000,
        b.padding == 1000,
        b.texts@.len() == 1,
        b.texts@[0].x == 1000,
        b.texts@[0].y == 1000,
        b.texts@[0].alignment == Alignment::Center,
        b.texts@[0].vertical_alignment == VerticalAlignment::Middle,
    ensures
        b.text_ops(seq![m]) == seq![
            DrawOpView::Text(
                b.texts@[0].text@,
                (18000 - m.width as int) / 2 + 1000,
                1000 + 8000int / 2 - m.ascent as int - (m.descent as int - m.ascent as int) / 2,
                b.texts@[0].size as int,
                b.texts@[0].shadow,
            ),
        ],
{
    assert(b.text_ops(seq![m]) =~= seq![
        DrawOpView::Text(
            b.texts@[0].text@,
            (18000 - m.width as int) / 2 + 1000,
            1000 + 8000int / 2 - m.ascent as int - (m.descent as int - m.ascent as int) / 2,
            b.texts@[0].size as int,
            b.texts@[0].shadow,
        ),
    ]);
}

/// Rendering keeps no hidden state: two canvases that start alike (same
/// operations so far, path and paint) and render the same box with the same
/// measurements end with the same operations, path and paint.
pub proof fn lemma_render_repeatable(
    b: ContentBox,
    c1: Seq<DrawOpView>,
    path1: Seq<PathVerb>,
    paint1: Paint,
    c2: Seq<DrawOpView>,
    path2: Seq<PathVerb>,
    paint2: Paint,
    metrics: Seq<TextMetrics>,
    sizes: Seq<(i64, i64)>,
)
    requires
        c1 == c2,
        path1 == path2,
        paint1 == paint2,
    ensures
        c1 + b.render_ops(path1, paint1, metrics, sizes) == c2 + b.render_ops(
            path2,
            paint2,
            metrics,
            sizes,
        ),
        shapes_path(path1, b.shapes@) == shapes_path(path2, b.shapes@),
{
}

} // verus!
