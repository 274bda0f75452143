use mango::color::{color_to_hex, darken_color, Color};
use mango::metrics::{measure, RunExtent, ShadowCopy, TextMetrics};
use mango::palette::{get_color, get_shadow, hex_exists, hex_to_color};
use mango::runs::{Face, GlyphCoverage, TextRenderer};

fn ascii_renderer() -> TextRenderer {
    let covered: Vec<char> = (' '..='~').collect();
    TextRenderer::new(GlyphCoverage::new(covered))
}

fn ext(advance: i32, top: i32, bottom: i32) -> RunExtent {
    RunExtent { advance, top, bottom }
}

#[test]
fn covered_text_is_one_primary_run() {
    let runs = ascii_renderer().extract_text_runs("Hello");
    assert_eq!(runs.len(), 1);
    assert_eq!(runs[0].text, "Hello");
    assert_eq!(runs[0].face, Face::Primary);
    assert_eq!(runs[0].scale, 100);
}

#[test]
fn symbol_falls_back_at_reduced_scale() {
    let runs = ascii_renderer().extract_text_runs("[12\u{272B}]");
    let parts: Vec<(String, Face, u32)> = runs.iter().map(|r| (r.text.clone(), r.face, r.scale)).collect();
    assert_eq!(
        parts,
        vec![
            ("[12".to_string(), Face::Primary, 100),
            ("\u{272B}".to_string(), Face::Fallback, 80),
            ("]".to_string(), Face::Primary, 100),
        ]
    );
}

#[test]
fn scale_change_alone_breaks_run() {
    let runs = ascii_renderer().extract_text_runs("\u{00E9}\u{2725}");
    let parts: Vec<(Face, u32)> = runs.iter().map(|r| (r.face, r.scale)).collect();
    assert_eq!(parts, vec![(Face::Fallback, 100), (Face::Fallback, 80)]);
}

#[test]
fn covered_symbol_stays_primary() {
    let renderer = TextRenderer::new(GlyphCoverage::new(vec!['\u{272B}']));
    let runs = renderer.extract_text_runs("\u{272B}");
    assert_eq!((runs[0].face, runs[0].scale), (Face::Primary, 100));
}

#[test]
fn runs_do_not_cross_segments() {
    let runs = ascii_renderer().extract_text_runs("<red>ab</red>cd");
    let parts: Vec<(String, Option<Color>)> = runs.iter().map(|r| (r.text.clone(), r.color)).collect();
    assert_eq!(
        parts,
        vec![
            ("ab".to_string(), Some(Color::from_rgb(0xFF, 0x55, 0x55))),
            ("cd".to_string(), None),
        ]
    );
}

#[test]
fn measure_sums_and_bounds() {
    let m = measure(&vec![ext(1000, -1200, 200), ext(500, -1500, 0), ext(300, 0, 400)]);
    assert_eq!(m, TextMetrics { width: 1800, ascent: -1500, descent: 400 });
}

#[test]
fn measure_of_nothing_is_zero() {
    assert_eq!(measure(&vec![]), TextMetrics { width: 0, ascent: 0, descent: 0 });
}

#[test]
fn measured_width_matches_drawn_advances() {
    let renderer = ascii_renderer();
    let text = "<gold>[12\u{272B}]</gold> x";
    let runs = renderer.extract_text_runs(text);
    let extents: Vec<RunExtent> = (0..runs.len() as i32).map(|i| ext(700 + 13 * i, -900, 100)).collect();
    let draws = renderer.draw_text(text, 0, 0, 2000, false, &extents).unwrap();
    let mut pen = 0;
    for (d, e) in draws.iter().zip(extents.iter()) {
        assert_eq!(d.x, pen);
        pen += e.advance as i64;
    }
    assert_eq!(pen, measure(&extents).width);
}

#[test]
fn draw_needs_one_extent_per_run() {
    let renderer = ascii_renderer();
    assert!(renderer.draw_text("ab\u{272B}", 0, 0, 2000, true, &vec![ext(1, 0, 0)]).is_none());
}

#[test]
fn draw_places_shadows_by_size_tier() {
    let renderer = ascii_renderer();
    let small = renderer.draw_text("<red>Hi", 100, 200, 2000, true, &vec![ext(50, -10, 0)]).unwrap();
    assert_eq!(
        small[0].shadow,
        Some(ShadowCopy { x: 300, y: 400, color: Color::from_rgb(0x3F, 0x15, 0x15) })
    );
    let large = renderer.draw_text("Hi", 0, 0, 2500, true, &vec![ext(50, -10, 0)]).unwrap();
    assert_eq!(large[0].shadow.unwrap().x, 250);
    assert_eq!(large[0].color, Color::from_rgb(0, 0, 0));
    let none = renderer.draw_text("Hi", 0, 0, 2500, false, &vec![ext(50, -10, 0)]).unwrap();
    assert_eq!(none[0].shadow, None);
}

#[test]
fn symbol_runs_drawn_smaller() {
    let renderer = ascii_renderer();
    let draws = renderer.draw_text("a\u{272A}", 0, 0, 2000, false, &vec![ext(10, 0, 0), ext(10, 0, 0)]).unwrap();
    assert_eq!(draws[0].size, 2000);
    assert_eq!(draws[1].size, 1600);
    assert_eq!(draws[1].x, 10);
}

#[test]
fn palette_shadow_is_paired_entry() {
    assert_eq!(get_shadow(Color::from_rgb(0xFF, 0x55, 0x55)), Color::from_rgb(0x3F, 0x15, 0x15));
    assert_eq!(get_shadow(Color::from_rgb(0xFF, 0xFF, 0xFF)), Color::from_rgb(0x3F, 0x3F, 0x3F));
    assert_eq!(get_shadow(Color::from_argb(100, 0x55, 0x55, 0x55)), Color::from_rgb(0x15, 0x15, 0x15));
}

#[test]
fn other_shadow_is_quarter_brightness() {
    assert_eq!(get_shadow(Color::from_rgb(200, 101, 2)), Color::from_rgb(50, 25, 1));
    assert_eq!(get_shadow(Color::from_rgb(3, 4, 255)), Color::from_rgb(1, 1, 64));
}

#[test]
fn negative_factor_lightens() {
    assert_eq!(darken_color(Color::from_rgb(0, 100, 255), -50), Color::from_rgb(128, 178, 255));
    assert_eq!(darken_color(Color::from_rgb(10, 20, 30), 200), Color::from_rgb(0, 0, 0));
}

#[test]
fn hex_round_trip() {
    let hex: String = color_to_hex(Color::from_rgb(0xAB, 0x05, 0xF0)).into_iter().collect();
    assert_eq!(hex, "#AB05F0");
    assert_eq!(hex_to_color("#AB05F0"), Some(Color::from_rgb(0xAB, 0x05, 0xF0)));
    assert_eq!(hex_to_color("AB05F0"), None);
}

#[test]
fn palette_lookups() {
    assert_eq!(get_color("gold"), Some("#FFAA00"));
    assert_eq!(get_color("Gold"), None);
    assert!(hex_exists("#55FF55"));
    assert!(!hex_exists("#55ff55"));
}
