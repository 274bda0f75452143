use mango::canvas::{Canvas, DrawOp, Paint, PaintStyle, PathVerb};
use mango::color::Color;
use mango::content_box::{Alignment, ContentBox, ImageContent, Shape, ShapeType, TextContent, VerticalAlignment};
use mango::metrics::{RunExtent, ShadowCopy, TextMetrics};
use mango::runs::{GlyphCoverage, TextRenderer};

fn metrics(width: i64, ascent: i64, descent: i64) -> TextMetrics {
    TextMetrics { width, ascent, descent }
}

fn text_position(op: &DrawOp) -> (i64, i64) {
    match op {
        DrawOp::Text(_, x, y, _, _) => (*x, *y),
        other => panic!("not text: {:?}", other),
    }
}

fn image_position(op: &DrawOp) -> (i64, i64) {
    match op {
        DrawOp::Image(_, x, y) => (*x, *y),
        other => panic!("not an image: {:?}", other),
    }
}

fn render_one_text(item: TextContent, m: TextMetrics) -> Vec<DrawOp> {
    let b = ContentBox::new(0, 0, 10000, 5000).add_text(item);
    let mut canvas = Canvas::new(100, 50);
    b.render(&mut canvas, &vec![m], &vec![]);
    canvas.ops
}

#[test]
fn center_and_right_alignment() {
    let center = render_one_text(
        TextContent::new("x".to_string(), 0, 0, 1600).with_alignment(Alignment::Center),
        metrics(4000, 0, 0),
    );
    assert_eq!(text_position(&center[3]).0, 3000);
    let right = render_one_text(
        TextContent::new("x".to_string(), 0, 0, 1600).with_alignment(Alignment::Right),
        metrics(4000, 0, 0),
    );
    assert_eq!(text_position(&right[3]).0, 6000);
    let left = render_one_text(TextContent::new("x".to_string(), 700, 0, 1600), metrics(4000, 0, 0));
    assert_eq!(text_position(&left[3]).0, 700);
}

#[test]
fn vertical_text_alignment() {
    let top = render_one_text(TextContent::new("x".to_string(), 0, 100, 1600), metrics(10, -1200, 300));
    assert_eq!(text_position(&top[3]).1, 1300);
    let middle = render_one_text(
        TextContent::new("x".to_string(), 0, 0, 1600).with_vertical_alignment(VerticalAlignment::Middle),
        metrics(10, -1200, 300),
    );
    assert_eq!(text_position(&middle[3]).1, 2500 + 1200 - 750);
    let bottom = render_one_text(
        TextContent::new("x".to_string(), 0, 0, 1600).with_vertical_alignment(VerticalAlignment::Bottom),
        metrics(10, -1200, 300),
    );
    assert_eq!(text_position(&bottom[3]).1, 4700);
}

#[test]
fn image_top_anchors_bottom_edge() {
    let img = ImageContent::new(vec![1, 2, 3], 0, 1000, 7900, 12800);
    let b = ContentBox::new(0, 0, 14000, 24500).add_image(img.with_alignment(Alignment::Center));
    let mut canvas = Canvas::new(140, 245);
    b.render(&mut canvas, &vec![], &vec![(7900, 12800)]);
    assert_eq!(image_position(&canvas.ops[3]), (3050, 1000 - 12800));
    let middle = ContentBox::new(0, 0, 14000, 24500)
        .add_image(ImageContent::new(vec![], 0, 1000, 0, 0).with_vertical_alignment(VerticalAlignment::Middle));
    let mut c2 = Canvas::new(140, 245);
    middle.render(&mut c2, &vec![], &vec![(7900, 12800)]);
    assert_eq!(image_position(&c2.ops[3]).1, 1000 + 12250 - 6400);
}

#[test]
fn padding_added_to_text_once() {
    let b = ContentBox::new(500, 600, 10000, 5000)
        .with_padding(1000)
        .add_text(TextContent::new("x".to_string(), 50, 60, 1600));
    assert_eq!((b.texts[0].x, b.texts[0].y), (1050, 1060));
    let mut canvas = Canvas::new(100, 50);
    b.render(&mut canvas, &vec![metrics(0, 0, 0)], &vec![]);
    assert!(matches!(canvas.ops[1], DrawOp::Save));
    assert!(matches!(canvas.ops[2], DrawOp::Translate(500, 600)));
    assert_eq!(text_position(&canvas.ops[3]), (1050, 1060));
    assert!(matches!(canvas.ops[4], DrawOp::Restore));
}

#[test]
fn background_below_border_below_shapes() {
    let bg = Color::from_argb(100, 0, 0, 0);
    let border = Color::from_argb(180, 0, 0, 0);
    let b = ContentBox::new(0, 0, 2000, 1000)
        .add_shape(Shape::rect(1, 2, 3, 4))
        .with_background(bg)
        .with_border(border);
    assert_eq!(b.shapes[0].color, bg);
    assert_eq!(b.shapes[1].style, PaintStyle::Stroke);
    assert_eq!(b.shapes[2].shape_type, ShapeType::Rectangle);
}

#[test]
fn line_shape_flushes_and_keeps_path() {
    let b = ContentBox::new(0, 0, 100, 100).add_shape(Shape::line(1, 2, 10, 20));
    let mut canvas = Canvas::new(1, 1);
    b.render(&mut canvas, &vec![], &vec![]);
    let black = Paint { color: Color::from_rgb(0, 0, 0), style: PaintStyle::Stroke, stroke_width: 100 };
    match (&canvas.ops[3], &canvas.ops[4]) {
        (DrawOp::Path(first, p1), DrawOp::Path(second, p2)) => {
            assert!(first.is_empty());
            assert_eq!(*p1, black);
            assert_eq!(second, &vec![PathVerb::MoveTo(1, 2), PathVerb::LineTo(11, 22)]);
            assert_eq!(*p2, black);
        }
        other => panic!("unexpected {:?}", other),
    }
    assert_eq!(canvas.path, vec![PathVerb::MoveTo(1, 2), PathVerb::LineTo(11, 22)]);
    assert_eq!(canvas.paint.style, PaintStyle::Fill);
}

#[test]
fn end_to_end_centered_text() {
    let background = Color::from_argb(100, 0, 0, 0);
    let b = ContentBox::new(0, 0, 20000, 10000)
        .with_padding(1000)
        .with_background(background)
        .add_text(
            TextContent::new("Hi".to_string(), 0, 0, 2000)
                .with_shadow(true)
                .with_alignment(Alignment::Center)
                .with_vertical_alignment(VerticalAlignment::Middle),
        );
    let renderer = TextRenderer::new(GlyphCoverage::new(vec!['H', 'i']));
    let runs = renderer.extract_text_runs(&b.texts[0].text);
    assert_eq!(runs.len(), 1);
    let extents = vec![RunExtent { advance: 2400, top: -1400, bottom: 0 }];
    let m = b.texts[0].metrics(&renderer, &extents).unwrap();
    let mut canvas = Canvas::new(200, 100);
    b.render(&mut canvas, &vec![m], &vec![]);
    assert_eq!(canvas.ops.len(), 6);
    match &canvas.ops[3] {
        DrawOp::RoundedRect(0, 0, 20000, 10000, 500, 500, p) => assert_eq!(p.color, background),
        other => panic!("unexpected {:?}", other),
    }
    let (x, y) = text_position(&canvas.ops[4]);
    assert_eq!(x, (18000 - 2400) / 2 + 1000);
    assert_eq!(y, 1000 + 4000 + 1400 - 700);
    let draws = renderer.draw_text("Hi", x, y, 2000, true, &extents).unwrap();
    assert_eq!(draws.len(), 1);
    assert_eq!((draws[0].x, draws[0].y), (8800, 5700));
    assert_eq!(
        draws[0].shadow,
        Some(ShadowCopy { x: 9000, y: 5900, color: Color::from_rgb(0, 0, 0) })
    );
}

#[test]
fn text_metrics_measure_the_drawn_markup() {
    let renderer = TextRenderer::new(GlyphCoverage::new((' '..='~').collect()));
    let t = TextContent::new("<gold>[1</gold></bogus>x".to_string(), 0, 0, 100);
    let runs = renderer.extract_text_runs(&t.text);
    let texts: Vec<String> = runs.iter().map(|r| r.text.clone()).collect();
    assert_eq!(texts, vec!["[1".to_string(), "</bogus>x".to_string()]);
    let extents = vec![
        RunExtent { advance: 300, top: -800, bottom: 0 },
        RunExtent { advance: 900, top: -900, bottom: 100 },
    ];
    assert_eq!(t.metrics(&renderer, &extents), Some(metrics(1200, -900, 100)));
    assert_eq!(t.metrics(&renderer, &extents[..1].to_vec()), None);
}

#[test]
fn images_padded_when_attached() {
    let b = ContentBox::new(0, 0, 10000, 10000)
        .with_padding(1000)
        .add_image(ImageContent::new(vec![], 0, 0, 0, 0).with_vertical_alignment(VerticalAlignment::Bottom));
    assert_eq!((b.images[0].x, b.images[0].y), (1000, 1000));
    let mut canvas = Canvas::new(100, 100);
    b.render(&mut canvas, &vec![], &vec![(1600, 1600)]);
    assert_eq!(image_position(&canvas.ops[3]), (1000, 1000 + 8000 - 1600));
}

#[test]
fn rendering_twice_gives_same_operations() {
    let make = || {
        ContentBox::new(100, 200, 3000, 2000)
            .with_padding(100)
            .with_background(Color::from_rgb(1, 2, 3))
            .with_border(Color::from_rgb(4, 5, 6))
            .add_shape(Shape::circle(5, 5, 50))
            .add_image(ImageContent::new(vec![9, 9], 10, 20, 30, 40))
            .add_text(TextContent::new("<red>a</red>b".to_string(), 0, 0, 1500).with_alignment(Alignment::Right))
    };
    let render = || {
        let mut canvas = Canvas::new(30, 20);
        make().render(&mut canvas, &vec![metrics(900, -700, 100)], &vec![(16, 16)]);
        format!("{:?}", canvas.ops)
    };
    assert_eq!(render(), render());
}

#[test]
fn canvas_records_primitives() {
    let mut c = Canvas::new(10, 10);
    c.set_color(Color::from_rgb(1, 1, 1));
    c.move_to(0, 0);
    c.line_to(5, 5);
    c.quad_to(1, 2, 3, 4);
    c.close_path();
    c.fill();
    c.begin_path();
    c.draw_rect(1, 2, 3, 4);
    c.draw_circle(1, 1, 2);
    c.draw_oval(0, 0, 2, 2);
    c.scale(200, 50);
    c.draw_text("t", 1, 2, 3, false);
    c.draw_image_from_bytes(&vec![7], 4, 5);
    assert_eq!(c.ops.len(), 10);
    assert!(matches!(c.ops[0], DrawOp::Clear(_)));
    match &c.ops[2] {
        DrawOp::Path(p, paint) => {
            assert_eq!(p.len(), 4);
            assert_eq!(paint.style, PaintStyle::Fill);
        }
        other => panic!("unexpected {:?}", other),
    }
    assert!(c.path.is_empty());
}
