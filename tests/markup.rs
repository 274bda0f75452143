use mango::color::Color;
use mango::markup::{parse, parse_color, parse_nodes, Node, TextSegment};

fn seg(text: &str, color: Option<Color>) -> (String, Option<Color>) {
    (text.to_string(), color)
}

fn view(segs: &[TextSegment]) -> Vec<(String, Option<Color>)> {
    segs.iter().map(|s| (s.text.clone(), s.color)).collect()
}

fn red() -> Option<Color> {
    Some(Color::from_rgb(0xFF, 0x55, 0x55))
}

fn blue() -> Option<Color> {
    Some(Color::from_rgb(0x55, 0x55, 0xFF))
}

#[test]
fn unmatched_delimiters_stay_literal() {
    let segs = parse("<red>Hi</red> <bogus");
    assert_eq!(view(&segs), vec![seg("Hi", red()), seg(" <bogus", None)]);
}

#[test]
fn nested_color_innermost_wins() {
    let segs = parse("<red>A<blue>B</blue>C</red>");
    assert_eq!(view(&segs), vec![seg("A", red()), seg("B", blue()), seg("C", red())]);
}

#[test]
fn joined_text_drops_only_matched_tags() {
    let input = "x</y><a>b</c></a><gold>z";
    let joined: String = parse(input).iter().map(|s| s.text.clone()).collect();
    assert_eq!(joined, "x</y>b</c>z");
}

#[test]
fn closing_tag_without_open_scope_is_text() {
    let segs = parse("</red>tail");
    assert_eq!(view(&segs), vec![seg("</red>tail", None)]);
}

#[test]
fn mismatched_closing_tag_is_text_inside_scope() {
    let segs = parse("<red>a</blue>b</red>c");
    assert_eq!(view(&segs), vec![seg("a</blue>b", red()), seg("c", None)]);
}

#[test]
fn unclosed_tag_colors_to_end() {
    let segs = parse("<aqua>open");
    assert_eq!(view(&segs), vec![seg("open", Some(Color::from_rgb(0x55, 0xFF, 0xFF)))]);
}

#[test]
fn unknown_tag_groups_without_color() {
    let segs = parse("<red><group>in</group>out</red>");
    assert_eq!(view(&segs), vec![seg("inout", red())]);
}

#[test]
fn tag_names_match_in_any_case() {
    let segs = parse("<RED>x</RED>");
    assert_eq!(view(&segs), vec![seg("x", red())]);
}

#[test]
fn hex_tags_give_colors() {
    let segs = parse("<#102030>a</#102030><#80102030>b");
    assert_eq!(
        view(&segs),
        vec![
            seg("a", Some(Color::from_argb(255, 0x10, 0x20, 0x30))),
            seg("b", Some(Color::from_argb(0x80, 0x10, 0x20, 0x30))),
        ]
    );
}

#[test]
fn malformed_hex_tag_gives_no_color() {
    let tag: Vec<char> = "#12345".chars().collect();
    assert_eq!(parse_color(&tag), None);
    let tag: Vec<char> = "#zz0000".chars().collect();
    assert_eq!(parse_color(&tag), None);
}

#[test]
fn neighbouring_same_color_segments_merge() {
    let segs = parse("<red>a</red><red>b</red><blue>c</blue>");
    assert_eq!(view(&segs), vec![seg("ab", red()), seg("c", blue())]);
}

#[test]
fn empty_input_gives_no_segments() {
    assert!(parse("").is_empty());
}

#[test]
fn tokens_record_tags() {
    let input: Vec<char> = "<red>a</red><b>".chars().collect();
    let nodes = parse_nodes(&input);
    assert_eq!(nodes.len(), 5);
    assert!(matches!(&nodes[0], Node::Open(t) if t.iter().collect::<String>() == "red"));
    assert!(matches!(&nodes[1], Node::Text(t) if t.iter().collect::<String>() == "a"));
    assert!(matches!(&nodes[2], Node::Close(_, true)));
    assert!(matches!(&nodes[3], Node::Open(_)));
    assert!(matches!(&nodes[4], Node::Close(_, false)));
}
