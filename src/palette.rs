//! The sixteen named colours, their shadow colours and shadow derivation.
use crate::chars::{chars_of, same_str};
use crate::color::{color_to_hex, darken_color, darkened, hex_color, hex_text, parse_hex, Color};
use vstd::prelude::*;

verus! {

/// Number of entries in the named palette and in its shadow table.
pub const PALETTE_LEN: usize = 16;

/// Percentage by which a colour outside the palette is darkened for its shadow.
pub const SHADOW_DARKEN_PERCENT: i32 = 75;

/// Name of palette entry `i`.
pub open spec fn palette_name(i: int) -> Seq<char> {
    if i == 0 { "black"@ }
    else if i == 1 { "dark_blue"@ }
    else if i == 2 { "dark_green"@ }
    else if i == 3 { "dark_aqua"@ }
    else if i == 4 { "dark_red"@ }
    else if i == 5 { "dark_purple"@ }
    else if i == 6 { "gold"@ }
    else if i == 7 { "gray"@ }
    else if i == 8 { "dark_gray"@ }
    else if i == 9 { "blue"@ }
    else if i == 10 { "green"@ }
    else if i == 11 { "aqua"@ }
    else if i == 12 { "red"@ }
    else if i == 13 { "light_purple"@ }
    else if i == 14 { "yellow"@ }
    else { "white"@ }
}

/// `#RRGGBB` text of palette entry `i`.
pub open spec fn palette_hex(i: int) -> Seq<char> {
    if i == 0 { "#000000"@ }
    else if i == 1 { "#0000AA"@ }
    else if i == 2 { "#00AA00"@ }
    else if i == 3 { "#00AAAA"@ }
    else if i == 4 { "#AA0000"@ }
    else if i == 5 { "#AA00AA"@ }
    else if i == 6 { "#FFAA00"@ }
    else if i == 7 { "#AAAAAA"@ }
    else if i == 8 { "#555555"@ }
    else if i == 9 { "#5555FF"@ }
    else if i == 10 { "#55FF55"@ }
    else if i == 11 { "#55FFFF"@ }
    else if i == 12 { "#FF5555"@ }
    else if i == 13 { "#FF55FF"@ }
    else if i == 14 { "#FFFF55"@ }
    else { "#FFFFFF"@ }
}

/// `#RRGGBB` text of the shadow paired with palette entry `i`.
pub open spec fn shadow_hex(i: int) -> Seq<char> {
    if i == 0 { "#000000"@ }
    else if i == 1 { "#00002A"@ }
    else if i == 2 { "#002A00"@ }
    else if i == 3 { "#002A2A"@ }
    else if i == 4 { "#2A0000"@ }
    else if i == 5 { "#2A002A"@ }
    else if i == 6 { "#2A2A00"@ }
    else if i == 7 { "#2A2A2A"@ }
    else if i == 8 { "#151515"@ }
    else if i == 9 { "#15153F"@ }
    else if i == 10 { "#153F15"@ }
    else if i == 11 { "#153F3F"@ }
    else if i == 12 { "#3F1515"@ }
    else if i == 13 { "#3F153F"@ }
    else if i == 14 { "#3F3F15"@ }
    else { "#3F3F3F"@ }
}

/// The first palette entry at or after `from` whose name is `name`.
pub open spec fn name_index(name: Seq<char>, from: int) -> Option<int>
    decreases 16 - from,
{
    if from < 0 || from >= 16 {
        None
    } else if palette_name(from) == name {
        Some(from)
    } else {
        name_index(name, from + 1)
    }
}

/// The first palette entry at or after `from` whose hex text is `hex`.
pub open spec fn hex_index(hex: Seq<char>, from: int) -> Option<int>
    decreases 16 - from,
{
    if from < 0 || from >= 16 {
        None
    } else if palette_hex(from) == hex {
        Some(from)
    } else {
        hex_index(hex, from + 1)
    }
}

proof fn lemma_hex_index_range(hex: Seq<char>, from: int)
    ensures
        hex_index(hex, from) matches Some(i) ==> from <= i < 16 && palette_hex(i) == hex,
    decreases 16 - from,
{
    if 0 <= from < 16 && palette_hex(from) != hex {
        lemma_hex_index_range(hex, from + 1);
    }
}

/// The colour written by `#`-prefixed hex text.
pub open spec fn color_of_hex_text(text: Seq<char>) -> Option<Color> {
    if text.len() > 0 {
        hex_color(text.skip(1))
    } else {
        None
    }
}

/// The palette colour called `name` (names are matched exactly).
pub open spec fn named_color(name: Seq<char>) -> Option<Color> {
    match name_index(name, 0) {
        Some(i) => color_of_hex_text(palette_hex(i)),
        None => None,
    }
}

/// The shadow colour drawn beneath text of colour `c`: the paired table entry
/// when `c` has exactly the red, green and blue of a palette colour, otherwise
/// `c` darkened by 75 percent.
pub open spec fn shadow_of(c: Color) -> Color {
    match hex_index(hex_text(c), 0) {
        Some(i) => match color_of_hex_text(shadow_hex(i)) {
            Some(s) => s,
            None => darkened(c, 75),
        },
        None => darkened(c, 75),
    }
}

/// Palette entry `i`: its name, its hex text and the hex text of its shadow.
fn palette_entry(i: usize) -> (r: (&'static str, &'static str, &'static str))
    requires
        i < 16,
    ensures
        r.0@ == palette_name(i as int),
        r.1@ == palette_hex(i as int),
        r.2@ == shadow_hex(i as int),
{
    match i {
        0 => ("black", "#000000", "#000000"),
        1 => ("dark_blue", "#0000AA", "#00002A"),
        2 => ("dark_green", "#00AA00", "#002A00"),
        3 => ("dark_aqua", "#00AAAA", "#002A2A"),
        4 => ("dark_red", "#AA0000", "#2A0000"),
        5 => ("dark_purple", "#AA00AA", "#2A002A"),
        6 => ("gold", "#FFAA00", "#2A2A00"),
        7 => ("gray", "#AAAAAA", "#2A2A2A"),
        8 => ("dark_gray", "#555555", "#151515"),
        9 => ("blue", "#5555FF", "#15153F"),
        10 => ("green", "#55FF55", "#153F15"),
        11 => ("aqua", "#55FFFF", "#153F3F"),
        12 => ("red", "#FF5555", "#3F1515"),
        13 => ("light_purple", "#FF55FF", "#3F153F"),
        14 => ("yellow", "#FFFF55", "#3F3F15"),
        _ => ("white", "#FFFFFF", "#3F3F3F"),
    }
}

/// The `#RRGGBB` text of the palette colour called `name`, if there is one.
pub fn get_color(name: &str) -> (r: Option<&'static str>)
    ensures
        match name_index(name@, 0) {
            Some(i) => r is Some && r->0@ == palette_hex(i),
            None => r is None,
        },
{
    let mut i: usize = 0;
    while i < PALETTE_LEN
        invariant
            i <= 16,
            name_index(name@, 0) == name_index(name@, i as int),
        decreases 16 - i,
    {
        let (n, hex, _) = palette_entry(i);
        if same_str(n, name) {
            return Some(hex);
        }
        i = i + 1;
    }
    None
}

/// Whether `hex` is the `#RRGGBB` text of a palette colour (upper-case digits).
pub fn hex_exists(hex: &str) -> (r: bool)
    ensures
        r == hex_index(hex@, 0) is Some,
{
    position_of_hex(hex).is_some()
}

/// Index of the first palette colour whose hex text is `hex`.
fn position_of_hex(hex: &str) -> (r: Option<usize>)
    ensures
        match hex_index(hex@, 0) {
            Some(i) => r == Some(i as usize),
            None => r is None,
        },
        r matches Some(i) ==> i < 16,
{
    proof {
        lemma_hex_index_range(hex@, 0);
    }
    let mut i: usize = 0;
    while i < PALETTE_LEN
        invariant
            i <= 16,
            hex_index(hex@, 0) == hex_index(hex@, i as int),
        decreases 16 - i,
    {
        let (_, h, _) = palette_entry(i);
        if same_str(h, hex) {
            return Some(i);
        }
        i = i + 1;
    }
    None
}

/// Reads `#`-prefixed hex colour text.
pub fn hex_to_color(text: &str) -> (r: Option<Color>)
    ensures
        r == color_of_hex_text(text@),
{
    let cs = chars_of(text);
    if cs.len() == 0 {
        return None;
    }
    let digits = vstd::slice::slice_subrange(cs.as_slice(), 1, cs.len());
    assert(digits@ =~= text@.skip(1));
    parse_hex(digits)
}

/// The palette colour called exactly `name`.
pub fn lookup_named_color(name: &str) -> (r: Option<Color>)
    ensures
        r == named_color(name@),
{
    match get_color(name) {
        Some(hex) => hex_to_color(hex),
        None => None,
    }
}

/// The colour of the shadow drawn beneath text of colour `color`.
pub fn get_shadow(color: Color) -> (r: Color)
    ensures
        r == shadow_of(color),
{
    let hex = color_to_hex(color);
    let text = crate::chars::string_from_chars(&hex);
    let text_ref = text.as_str();
    let found = position_of_hex(text_ref);
    proof {
        lemma_hex_index_range(hex_text(color), 0);
    }
    assert(text_ref@ == hex_text(color));
    match found {
        Some(i) => {
            assert(hex_index(hex_text(color), 0) == Some(i as int));
            let (_, _, shadow) = palette_entry(i);
            match hex_to_color(shadow) {
                Some(s) => s,
                None => darken_color(color, SHADOW_DARKEN_PERCENT),
            }
        },
        None => darken_color(color, SHADOW_DARKEN_PERCENT),
    }
}

proof fn lemma_shadow_hex_parses(i: int)
    requires
        0 <= i < 16,
    ensures
        color_of_hex_text(shadow_hex(i)) is Some,
{
    if i == 0 {
        reveal_strlit("#000000");
        assert(shadow_hex(i).skip(1) =~= seq!['0', '0', '0', '0', '0', '0']);
    } else if i == 1 {
        reveal_strlit("#00002A");
        assert(shadow_hex(i).skip(1) =~= seq!['0', '0', '0', '0', '2', 'A']);
    } else if i == 2 {
        reveal_strlit("#002A00");
        assert(shadow_hex(i).skip(1) =~= seq!['0', '0', '2', 'A', '0', '0']);
    } else if i == 3 {
        reveal_strlit("#002A2A");
        assert(shadow_hex(i).skip(1) =~= seq!['0', '0', '2', 'A', '2', 'A']);
    } else if i == 4 {
        reveal_strlit("#2A0000");
        assert(shadow_hex(i).skip(1) =~= seq!['2', 'A', '0', '0', '0', '0']);
    } else if i == 5 {
        reveal_strlit("#2A002A");
        assert(shadow_hex(i).skip(1) =~= seq!['2', 'A', '0', '0', '2', 'A']);
    } else if i == 6 {
        reveal_strlit("#2A2A00");
        assert(shadow_hex(i).skip(1) =~= seq!['2', 'A', '2', 'A', '0', '0']);
    } else if i == 7 {
        reveal_strlit("#2A2A2A");
        assert(shadow_hex(i).skip(1) =~= seq!['2', 'A', '2', 'A', '2', 'A']);
    } else if i == 8 {
        reveal_strlit("#151515");
        assert(shadow_hex(i).skip(1) =~= seq!['1', '5', '1', '5', '1', '5']);
    } else if i == 9 {
        reveal_strlit("#15153F");
        assert(shadow_hex(i).skip(1) =~= seq!['1', '5', '1', '5', '3', 'F']);
    } else if i == 10 {
        reveal_strlit("#153F15");
        assert(shadow_hex(i).skip(1) =~= seq!['1', '5', '3', 'F', '1', '5']);
    } else if i == 11 {
        reveal_strlit("#153F3F");
        assert(shadow_hex(i).skip(1) =~= seq!['1', '5', '3', 'F', '3', 'F']);
    } else if i == 12 {
        reveal_strlit("#3F1515");
        assert(shadow_hex(i).skip(1) =~= seq!['3', 'F', '1', '5', '1', '5']);
    } else if i == 13 {
        reveal_strlit("#3F153F");
        assert(shadow_hex(i).skip(1) =~= seq!['3', 'F', '1', '5', '3', 'F']);
    } else if i == 14 {
        reveal_strlit("#3F3F15");
        assert(shadow_hex(i).skip(1) =~= seq!['3', 'F', '3', 'F', '1', '5']);
    } else if true {
        reveal_strlit("#3F3F3F");
        assert(shadow_hex(i).skip(1) =~= seq!['3', 'F', '3', 'F', '3', 'F']);
    }
}

/// A palette colour's shadow is the entry paired with it in the shadow
/// table; any other colour's shadow is the colour darkened by 75 percent.
pub proof fn lemma_shadow_pairs(c: Color)
    ensures
        hex_index(hex_text(c), 0) matches Some(i) ==> 0 <= i < 16 && Some(shadow_of(c))
            == color_of_hex_text(shadow_hex(i)),
        hex_index(hex_text(c), 0) is None ==> shadow_of(c) == darkened(c, 75),
{
    lemma_hex_index_range(hex_text(c), 0);
    if let Some(i) = hex_index(hex_text(c), 0) {
        lemma_shadow_hex_parses(i);
    }
}

} // verus!
