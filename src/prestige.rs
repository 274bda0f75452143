//! Prestige levels: level markup, levels from experience and progress text.
use crate::chars::{chars_of, string_from_chars};
use crate::numbers::{decimal, digit_char, push_decimal};
use vstd::prelude::*;

verus! {

/// Number of prestiges; every level from the last one's on shares it.
pub const PRESTIGE_COUNT: usize = 51;

/// Experience of one full prestige (a hundred levels).
pub const PRESTIGE_XP: u32 = 487000;

/// The symbol a prestige shows after the level.
#[derive(Clone, Copy, Debug, PartialEq, Eq, Structural)]
pub enum PrestigeSymbol {
    First,
    Second,
    Third,
    Fourth,
}

/// A prestige: its name, its colour pattern (palette names separated by
/// `|`, one per character of the level text when there are several) and its
/// symbol.
#[derive(Clone, Copy, Debug)]
pub struct Prestige {
    pub name: &'static str,
    pub color_pattern: &'static str,
    pub symbol: PrestigeSymbol,
}

/// Prestige `i` of the table: name, colour pattern, symbol.
pub open spec fn prestige_entry(i: usize) -> (Seq<char>, Seq<char>, PrestigeSymbol) {
    match i {
        0 => ("Stone"@, "gray"@, PrestigeSymbol::First),
        1 => ("Iron"@, "white"@, PrestigeSymbol::First),
        2 => ("Gold"@, "gold"@, PrestigeSymbol::First),
        3 => ("Diamond"@, "aqua"@, PrestigeSymbol::First),
        4 => ("Emerald"@, "dark_green"@, PrestigeSymbol::First),
        5 => ("Sapphire"@, "dark_aqua"@, PrestigeSymbol::First),
        6 => ("Ruby"@, "dark_red"@, PrestigeSymbol::First),
        7 => ("Crystal"@, "light_purple"@, PrestigeSymbol::First),
        8 => ("Opal"@, "blue"@, PrestigeSymbol::First),
        9 => ("Amethyst"@, "dark_purple"@, PrestigeSymbol::First),
        10 => ("Rainbow"@, "red|gold|yellow|green|aqua|light_purple|dark_purple"@, PrestigeSymbol::First),
        11 => ("Iron Prime"@, "gray|white|white|white|white|gray|gray"@, PrestigeSymbol::Second),
        12 => ("Gold Prime"@, "gray|yellow|yellow|yellow|yellow|gold|gray"@, PrestigeSymbol::Second),
        13 => ("Diamond Prime"@, "gray|aqua|aqua|aqua|aqua|dark_aqua|gray"@, PrestigeSymbol::Second),
        14 => ("Emerald Prime"@, "gray|green|green|green|green|dark_green|gray"@, PrestigeSymbol::Second),
        15 => ("Sapphire Prime"@, "gray|dark_aqua|dark_aqua|dark_aqua|dark_aqua|blue|gray"@, PrestigeSymbol::Second),
        16 => ("Ruby Prime"@, "gray|red|red|red|red|dark_red|gray"@, PrestigeSymbol::Second),
        17 => ("Crystal Prime"@, "gray|light_purple|light_purple|light_purple|light_purple|dark_purple|gray"@, PrestigeSymbol::Second),
        18 => ("Opal Prime"@, "gray|blue|blue|blue|blue|dark_blue|gray"@, PrestigeSymbol::Second),
        19 => ("Amethyst Prime"@, "gray|dark_purple|dark_purple|dark_purple|dark_purple|dark_gray|gray"@, PrestigeSymbol::Second),
        20 => ("Mirror"@, "dark_gray|gray|white|white|gray|gray|dark_gray"@, PrestigeSymbol::Second),
        21 => ("Light"@, "white|white|yellow|yellow|gold|gold|gold"@, PrestigeSymbol::Third),
        22 => ("Dawn"@, "gold|gold|white|white|aqua|dark_aqua|dark_aqua"@, PrestigeSymbol::Third),
        23 => ("Dusk"@, "dark_purple|dark_purple|light_purple|light_purple|gold|yellow|yellow"@, PrestigeSymbol::Third),
        24 => ("Air"@, "aqua|aqua|white|white|gray|gray|dark_gray"@, PrestigeSymbol::Third),
        25 => ("Wind"@, "white|white|green|green|dark_green|dark_green|dark_green"@, PrestigeSymbol::Third),
        26 => ("Nebula"@, "dark_red|dark_red|red|red|light_purple|light_purple|dark_purple"@, PrestigeSymbol::Third),
        27 => ("Thunder"@, "yellow|yellow|white|white|dark_gray|dark_gray|dark_gray"@, PrestigeSymbol::Third),
        28 => ("Earth"@, "green|green|dark_green|dark_green|gold|gold|yellow"@, PrestigeSymbol::Third),
        29 => ("Water"@, "aqua|aqua|dark_aqua|dark_aqua|blue|blue|dark_blue"@, PrestigeSymbol::Third),
        30 => ("Fire"@, "yellow|yellow|gold|gold|red|red|dark_red"@, PrestigeSymbol::Third),
        31 => ("Sunrise"@, "blue|blue|dark_aqua|dark_aqua|gold|gold|yellowred"@, PrestigeSymbol::Fourth),
        32 => ("Eclipse"@, "red|dark_red|gray|gray|dark_red|red|red"@, PrestigeSymbol::Fourth),
        33 => ("Gamma"@, "blue|blue|blue|light_purple|red|red|dark_red"@, PrestigeSymbol::Fourth),
        34 => ("Majestic"@, "dark_green|green|light_purple|light_purple|dark_purple|dark_purple|dark_green"@, PrestigeSymbol::Fourth),
        35 => ("Andesine"@, "red|red|dark_red|dark_red|dark_green|green|green"@, PrestigeSymbol::Fourth),
        36 => ("Marine"@, "green|green|green|aqua|blue|blue|dark_blue"@, PrestigeSymbol::Fourth),
        37 => ("Element"@, "dark_red|dark_red|red|red|aqua|dark_aqua|dark_aqua"@, PrestigeSymbol::Fourth),
        38 => ("Galaxy"@, "dark_blue|dark_blue|blue|dark_purple|dark_purple|light_purple|dark_blue"@, PrestigeSymbol::Fourth),
        39 => ("Atomic"@, "red|red|green|green|dark_aqua|blue|blue"@, PrestigeSymbol::Fourth),
        40 => ("Sunset"@, "dark_purple|dark_purple|red|red|gold|gold|yellow"@, PrestigeSymbol::Fourth),
        41 => ("Time"@, "yellow|yellow|gold|red|light_purple|light_purple|dark_purple"@, PrestigeSymbol::Fourth),
        42 => ("Winter"@, "dark_blue|blue|dark_aqua|aqua|white|gray|gray"@, PrestigeSymbol::Fourth),
        43 => ("Obsidian"@, "black|dark_purple|dark_gray|dark_gray|dark_purple|dark_purple|black"@, PrestigeSymbol::Fourth),
        44 => ("Spring"@, "dark_green|dark_green|green|yellow|gold|dark_purple|light_purple"@, PrestigeSymbol::Fourth),
        45 => ("Ice"@, "white|white|aqua|aqua|dark_aqua|dark_aqua|dark_aqua"@, PrestigeSymbol::Fourth),
        46 => ("Summer"@, "dark_aqua|aqua|yellow|yellow|gold|light_purple|dark_purple"@, PrestigeSymbol::Fourth),
        47 => ("Spinel"@, "white|dark_red|red|red|blue|dark_blue|blue"@, PrestigeSymbol::Fourth),
        48 => ("Autumn"@, "dark_purple|dark_purple|red|gold|yellow|aqua|dark_aqua"@, PrestigeSymbol::Fourth),
        49 => ("Mystic"@, "dark_green|green|white|white|green|green|dark_green"@, PrestigeSymbol::Fourth),
        _ => ("Eternal"@, "dark_red|dark_red|dark_purple|blue|blue|dark_blue|black"@, PrestigeSymbol::Fourth),
    }
}

/// Prestige `i` of the table (the last one for any larger `i`).
pub fn prestige_at(i: usize) -> (r: Prestige)
    ensures
        (r.name@, r.color_pattern@, r.symbol) == prestige_entry(if i < 50 { i } else { 50 }),
{
    match i {
        0 => Prestige { name: "Stone", color_pattern: "gray", symbol: PrestigeSymbol::First },
        1 => Prestige { name: "Iron", color_pattern: "white", symbol: PrestigeSymbol::First },
        2 => Prestige { name: "Gold", color_pattern: "gold", symbol: PrestigeSymbol::First },
        3 => Prestige { name: "Diamond", color_pattern: "aqua", symbol: PrestigeSymbol::First },
        4 => Prestige { name: "Emerald", color_pattern: "dark_green", symbol: PrestigeSymbol::First },
        5 => Prestige { name: "Sapphire", color_pattern: "dark_aqua", symbol: PrestigeSymbol::First },
        6 => Prestige { name: "Ruby", color_pattern: "dark_red", symbol: PrestigeSymbol::First },
        7 => Prestige { name: "Crystal", color_pattern: "light_purple", symbol: PrestigeSymbol::First },
        8 => Prestige { name: "Opal", color_pattern: "blue", symbol: PrestigeSymbol::First },
        9 => Prestige { name: "Amethyst", color_pattern: "dark_purple", symbol: PrestigeSymbol::First },
        10 => Prestige { name: "Rainbow", color_pattern: "red|gold|yellow|green|aqua|light_purple|dark_purple", symbol: PrestigeSymbol::First },
        11 => Prestige { name: "Iron Prime", color_pattern: "gray|white|white|white|white|gray|gray", symbol: PrestigeSymbol::Second },
        12 => Prestige { name: "Gold Prime", color_pattern: "gray|yellow|yellow|yellow|yellow|gold|gray", symbol: PrestigeSymbol::Second },
        13 => Prestige { name: "Diamond Prime", color_pattern: "gray|aqua|aqua|aqua|aqua|dark_aqua|gray", symbol: PrestigeSymbol::Second },
        14 => Prestige { name: "Emerald Prime", color_pattern: "gray|green|green|green|green|dark_green|gray", symbol: PrestigeSymbol::Second },
        15 => Prestige { name: "Sapphire Prime", color_pattern: "gray|dark_aqua|dark_aqua|dark_aqua|dark_aqua|blue|gray", symbol: PrestigeSymbol::Second },
        16 => Prestige { name: "Ruby Prime", color_pattern: "gray|red|red|red|red|dark_red|gray", symbol: PrestigeSymbol::Second },
        17 => Prestige { name: "Crystal Prime", color_pattern: "gray|light_purple|light_purple|light_purple|light_purple|dark_purple|gray", symbol: PrestigeSymbol::Second },
        18 => Prestige { name: "Opal Prime", color_pattern: "gray|blue|blue|blue|blue|dark_blue|gray", symbol: PrestigeSymbol::Second },
        19 => Prestige { name: "Amethyst Prime", color_pattern: "gray|dark_purple|dark_purple|dark_purple|dark_purple|dark_gray|gray", symbol: PrestigeSymbol::Second },
        20 => Prestige { name: "Mirror", color_pattern: "dark_gray|gray|white|white|gray|gray|dark_gray", symbol: PrestigeSymbol::Second },
        21 => Prestige { name: "Light", color_pattern: "white|white|yellow|yellow|gold|gold|gold", symbol: PrestigeSymbol::Third },
        22 => Prestige { name: "Dawn", color_pattern: "gold|gold|white|white|aqua|dark_aqua|dark_aqua", symbol: PrestigeSymbol::Third },
        23 => Prestige { name: "Dusk", color_pattern: "dark_purple|dark_purple|light_purple|light_purple|gold|yellow|yellow", symbol: PrestigeSymbol::Third },
        24 => Prestige { name: "Air", color_pattern: "aqua|aqua|white|white|gray|gray|dark_gray", symbol: PrestigeSymbol::Third },
        25 => Prestige { name: "Wind", color_pattern: "white|white|green|green|dark_green|dark_green|dark_green", symbol: PrestigeSymbol::Third },
        26 => Prestige { name: "Nebula", color_pattern: "dark_red|dark_red|red|red|light_purple|light_purple|dark_purple", symbol: PrestigeSymbol::Third },
        27 => Prestige { name: "Thunder", color_pattern: "yellow|yellow|white|white|dark_gray|dark_gray|dark_gray", symbol: PrestigeSymbol::Third },
        28 => Prestige { name: "Earth", color_pattern: "green|green|dark_green|dark_green|gold|gold|yellow", symbol: PrestigeSymbol::Third },
        29 => Prestige { name: "Water", color_pattern: "aqua|aqua|dark_aqua|dark_aqua|blue|blue|dark_blue", symbol: PrestigeSymbol::Third },
        30 => Prestige { name: "Fire", color_pattern: "yellow|yellow|gold|gold|red|red|dark_red", symbol: PrestigeSymbol::Third },
        31 => Prestige { name: "Sunrise", color_pattern: "blue|blue|dark_aqua|dark_aqua|gold|gold|yellowred", symbol: PrestigeSymbol::Fourth },
        32 => Prestige { name: "Eclipse", color_pattern: "red|dark_red|gray|gray|dark_red|red|red", symbol: PrestigeSymbol::Fourth },
        33 => Prestige { name: "Gamma", color_pattern: "blue|blue|blue|light_purple|red|red|dark_red", symbol: PrestigeSymbol::Fourth },
        34 => Prestige { name: "Majestic", color_pattern: "dark_green|green|light_purple|light_purple|dark_purple|dark_purple|dark_green", symbol: PrestigeSymbol::Fourth },
        35 => Prestige { name: "Andesine", color_pattern: "red|red|dark_red|dark_red|dark_green|green|green", symbol: PrestigeSymbol::Fourth },
        36 => Prestige { name: "Marine", color_pattern: "green|green|green|aqua|blue|blue|dark_blue", symbol: PrestigeSymbol::Fourth },
        37 => Prestige { name: "Element", color_pattern: "dark_red|dark_red|red|red|aqua|dark_aqua|dark_aqua", symbol: PrestigeSymbol::Fourth },
        38 => Prestige { name: "Galaxy", color_pattern: "dark_blue|dark_blue|blue|dark_purple|dark_purple|light_purple|dark_blue", symbol: PrestigeSymbol::Fourth },
        39 => Prestige { name: "Atomic", color_pattern: "red|red|green|green|dark_aqua|blue|blue", symbol: PrestigeSymbol::Fourth },
        40 => Prestige { name: "Sunset", color_pattern: "dark_purple|dark_purple|red|red|gold|gold|yellow", symbol: PrestigeSymbol::Fourth },
        41 => Prestige { name: "Time", color_pattern: "yellow|yellow|gold|red|light_purple|light_purple|dark_purple", symbol: PrestigeSymbol::Fourth },
        42 => Prestige { name: "Winter", color_pattern: "dark_blue|blue|dark_aqua|aqua|white|gray|gray", symbol: PrestigeSymbol::Fourth },
        43 => Prestige { name: "Obsidian", color_pattern: "black|dark_purple|dark_gray|dark_gray|dark_purple|dark_purple|black", symbol: PrestigeSymbol::Fourth },
        44 => Prestige { name: "Spring", color_pattern: "dark_green|dark_green|green|yellow|gold|dark_purple|light_purple", symbol: PrestigeSymbol::Fourth },
        45 => Prestige { name: "Ice", color_pattern: "white|white|aqua|aqua|dark_aqua|dark_aqua|dark_aqua", symbol: PrestigeSymbol::Fourth },
        46 => Prestige { name: "Summer", color_pattern: "dark_aqua|aqua|yellow|yellow|gold|light_purple|dark_purple", symbol: PrestigeSymbol::Fourth },
        47 => Prestige { name: "Spinel", color_pattern: "white|dark_red|red|red|blue|dark_blue|blue", symbol: PrestigeSymbol::Fourth },
        48 => Prestige { name: "Autumn", color_pattern: "dark_purple|dark_purple|red|gold|yellow|aqua|dark_aqua", symbol: PrestigeSymbol::Fourth },
        49 => Prestige { name: "Mystic", color_pattern: "dark_green|green|white|white|green|green|dark_green", symbol: PrestigeSymbol::Fourth },
        _ => Prestige { name: "Eternal", color_pattern: "dark_red|dark_red|dark_purple|blue|blue|dark_blue|black", symbol: PrestigeSymbol::Fourth },
    }
}

/// The character of a prestige symbol.
pub open spec fn symbol_char(s: PrestigeSymbol) -> char {
    match s {
        PrestigeSymbol::First => '\u{272B}',
        PrestigeSymbol::Second => '\u{272A}',
        PrestigeSymbol::Third => '\u{269D}',
        PrestigeSymbol::Fourth => '\u{2725}',
    }
}

fn symbol(s: PrestigeSymbol) -> (c: char)
    ensures
        c == symbol_char(s),
{
    match s {
        PrestigeSymbol::First => '\u{272B}',
        PrestigeSymbol::Second => '\u{272A}',
        PrestigeSymbol::Third => '\u{269D}',
        PrestigeSymbol::Fourth => '\u{2725}',
    }
}

/// The pieces of `s` between `|` separators, in order (one empty piece
/// for an empty `s`).
pub open spec fn split_bars(s: Seq<char>) -> Seq<Seq<char>>
    decreases s.len(),
{
    if s.len() == 0 {
        seq![seq![]]
    } else {
        let prev = split_bars(s.drop_last());
        if s.last() == '|' {
            prev.push(seq![])
        } else {
            prev.update(prev.len() - 1, prev.last().push(s.last()))
        }
    }
}

proof fn lemma_split_bars_nonempty(s: Seq<char>)
    ensures
        split_bars(s).len() >= 1,
    decreases s.len(),
{
    if s.len() > 0 {
        lemma_split_bars_nonempty(s.drop_last());
    }
}

/// `text` wrapped in a colour tag: `<color>text</color>`.
pub open spec fn tagged(color: Seq<char>, text: Seq<char>) -> Seq<char> {
    seq!['<'] + color + seq!['>'] + text + seq!['<', '/'] + color + seq!['>']
}

/// The first `k` characters of `text`, each wrapped in its own colour.
pub open spec fn tag_each(colors: Seq<Seq<char>>, text: Seq<char>, k: int) -> Seq<char>
    decreases k,
{
    if k <= 0 {
        seq![]
    } else {
        tag_each(colors, text, k - 1) + tagged(colors[k - 1], seq![text[k - 1]])
    }
}

/// Index of the prestige of a level.
pub open spec fn prestige_index(level: u32) -> usize {
    if level / 100 < 50 {
        (level / 100) as usize
    } else {
        50
    }
}

/// `[` level symbol `]`.
pub open spec fn level_text(level: u32) -> Seq<char> {
    seq!['['] + decimal(level as nat) + seq![
        symbol_char(prestige_entry(prestige_index(level)).2),
        ']',
    ]
}

/// The markup of a level: the level text in the prestige's colour, or with
/// one colour per character when the pattern has several.
pub open spec fn level_markup(level: u32) -> Seq<char> {
    let colors = split_bars(prestige_entry(prestige_index(level)).1);
    let text = level_text(level);
    if colors.len() > 1 {
        tag_each(colors, text, if text.len() < colors.len() { text.len() as int } else { colors.len() as int })
    } else {
        tagged(colors[0], text)
    }
}

fn split_pattern(pattern: &str) -> (r: Vec<Vec<char>>)
    ensures
        r@.map_values(|v: Vec<char>| v@) == split_bars(pattern@),
{
    let cs = chars_of(pattern);
    let mut parts: Vec<Vec<char>> = Vec::new();
    parts.push(Vec::new());
    let mut i: usize = 0;
    assert(cs@.take(0) =~= seq![]);
    assert(parts@.map_values(|v: Vec<char>| v@) =~= split_bars(cs@.take(0)));
    while i < cs.len()
        invariant
            i <= cs@.len(),
            cs@ == pattern@,
            parts@.len() >= 1,
            parts@.map_values(|v: Vec<char>| v@) == split_bars(cs@.take(i as int)),
        decreases cs@.len() - i,
    {
        let c = cs[i];
        let ghost before = parts@.map_values(|v: Vec<char>| v@);
        assert(cs@.take(i as int + 1).drop_last() =~= cs@.take(i as int));
        assert(cs@.take(i as int + 1).last() == c);
        if c == '|' {
            parts.push(Vec::new());
            assert(parts@.map_values(|v: Vec<char>| v@) =~= before.push(seq![]));
        } else {
            let last = parts.len() - 1;
            let mut piece = parts[last].clone();
            assert(piece@ == before[last as int]);
            piece.push(c);
            parts.set(last, piece);
            assert(parts@.map_values(|v: Vec<char>| v@) =~= before.update(
                last as int,
                before.last().push(c),
            ));
        }
        i = i + 1;
    }
    assert(cs@.take(i as int) =~= pattern@);
    parts
}

/// Appends `<color>text</color>`.
fn push_tagged(out: &mut Vec<char>, color: &Vec<char>, text: &Vec<char>)
    ensures
        final(out)@ == old(out)@ + tagged(color@, text@),
{
    out.push('<');
    push_all(out, color);
    out.push('>');
    push_all(out, text);
    out.push('<');
    out.push('/');
    push_all(out, color);
    out.push('>');
    assert(out@ =~= old(out)@ + tagged(color@, text@));
}

fn push_all(out: &mut Vec<char>, s: &Vec<char>)
    ensures
        final(out)@ == old(out)@ + s@,
{
    let mut i: usize = 0;
    while i < s.len()
        invariant
            i <= s@.len(),
            out@ == old(out)@ + s@.take(i as int),
        decreases s@.len() - i,
    {
        out.push(s[i]);
        i = i + 1;
        assert(out@ =~= old(out)@ + s@.take(i as int));
    }
    assert(s@.take(i as int) =~= s@);
}

/// The coloured markup of a level, as `[1234<symbol>]`: in the colour of
/// the level's prestige, or one pattern colour per character.
pub fn format_level(level: u32) -> (r: String)
    requires
        level < 10000,
    ensures
        r@ == level_markup(level),
{
    let idx: usize = if level / 100 < 50 {
        (level / 100) as usize
    } else {
        50
    };
    let prestige = prestige_at(idx);
    let mut text: Vec<char> = Vec::new();
    text.push('[');
    push_decimal(&mut text, level as u64);
    text.push(symbol(prestige.symbol));
    text.push(']');
    assert(text@ =~= level_text(level));
    let colors = split_pattern(prestige.color_pattern);
    let ghost cv = colors@.map_values(|v: Vec<char>| v@);
    proof {
        lemma_split_bars_nonempty(prestige.color_pattern@);
    }
    let mut result: Vec<char> = Vec::new();
    if colors.len() > 1 {
        let n = if text.len() < colors.len() {
            text.len()
        } else {
            colors.len()
        };
        let mut i: usize = 0;
        assert(result@ =~= tag_each(cv, text@, 0));
        while i < n
            invariant
                n <= text@.len(),
                n <= colors@.len(),
                cv == colors@.map_values(|v: Vec<char>| v@),
                i <= n,
                result@ == tag_each(cv, text@, i as int),
            decreases n - i,
        {
            let mut one: Vec<char> = Vec::new();
            one.push(text[i]);
            assert(one@ =~= seq![text@[i as int]]);
            assert(colors@[i as int]@ == cv[i as int]);
            push_tagged(&mut result, &colors[i], &one);
            i = i + 1;
        }
    } else {
        assert(colors@[0]@ == cv[0]);
        push_tagged(&mut result, &colors[0], &text);
    }
    string_from_chars(&result)
}

/// Experience needed to go from level `l` to the next: the first four
/// levels of each prestige are cheaper.
pub open spec fn level_cost(l: nat) -> nat {
    let k = l % 100;
    if k == 0 {
        500
    } else if k == 1 {
        1000
    } else if k == 2 {
        2000
    } else if k == 3 {
        3500
    } else {
        5000
    }
}

/// Experience needed to reach level `l` from level 0.
pub open spec fn xp_to_reach(l: nat) -> nat
    decreases l,
{
    if l == 0 {
        0
    } else {
        xp_to_reach((l - 1) as nat) + level_cost((l - 1) as nat)
    }
}

/// A level as whole levels reached plus progress through the next one:
/// the level is `whole + into / cost`.
#[derive(Clone, Copy, Debug, PartialEq, Eq, Structural)]
pub struct Level {
    pub whole: u32,
    pub into: u32,
    pub cost: u32,
}

fn cost_of(l: u32) -> (r: u32)
    ensures
        r == level_cost(l as nat),
{
    let k = l % 100;
    if k == 0 {
        500
    } else if k == 1 {
        1000
    } else if k == 2 {
        2000
    } else if k == 3 {
        3500
    } else {
        5000
    }
}

/// The level that `experience` reaches: the most whole levels whose total
/// cost it covers, and the rest towards the next level.
pub fn get_level(experience: u32) -> (r: Level)
    ensures
        xp_to_reach(r.whole as nat) <= experience < xp_to_reach(r.whole as nat + 1),
        r.into == experience - xp_to_reach(r.whole as nat),
        r.cost == level_cost(r.whole as nat),
{
    let mut whole: u32 = 0;
    let mut left: u32 = experience;
    loop
        invariant
            whole <= experience / 500,
            xp_to_reach(whole as nat) + left == experience,
        decreases left,
    {
        let cost = cost_of(whole);
        if left < cost {
            return Level { whole, into: left, cost };
        }
        assert(xp_to_reach(whole as nat + 1) == xp_to_reach(whole as nat) + cost);
        left = left - cost;
        proof {
            lemma_xp_at_least(whole as nat + 1);
        }
        whole = whole + 1;
    }
}

proof fn lemma_xp_at_least(l: nat)
    ensures
        xp_to_reach(l) >= 500 * l,
    decreases l,
{
    if l > 0 {
        lemma_xp_at_least((l - 1) as nat);
    }
}

proof fn lemma_xp_increasing(a: nat, b: nat)
    requires
        a < b,
    ensures
        xp_to_reach(a) < xp_to_reach(b),
    decreases b,
{
    if a < (b - 1) as nat {
        lemma_xp_increasing(a, (b - 1) as nat);
    }
}

/// An amount of experience reaches exactly one number of whole levels.
pub proof fn lemma_whole_levels_unique(experience: nat, a: nat, b: nat)
    requires
        xp_to_reach(a) <= experience < xp_to_reach(a + 1),
        xp_to_reach(b) <= experience < xp_to_reach(b + 1),
    ensures
        a == b,
{
    if a < b {
        if a + 1 < b {
            lemma_xp_increasing(a + 1, b);
        }
    } else if b < a {
        if b + 1 < a {
            lemma_xp_increasing(b + 1, a);
        }
    }
}

/// The first prestige boundary (a multiple of 100) at or above `whole`.
pub open spec fn next_prestige(whole: nat) -> nat {
    ((whole + 99) / 100) * 100
}

/// Tenths of a percent through the current prestige, rounded to the nearest.
pub open spec fn progress_tenths(experience: nat) -> nat {
    ((experience % 487000) * 1000 + 243500) / 487000
}

/// A number of tenths written with one decimal, as in `42.7`.
pub open spec fn tenths_text(t: nat) -> Seq<char> {
    decimal(t / 10) + seq!['.', digit_char((t % 10) as int)]
}

/// The markup of progress through the current prestige: the next
/// prestige's level markup and the percentage, to one decimal.
pub open spec fn progress_markup(experience: u32, next: u32) -> Seq<char> {
    "<white>Progress to</white> "@ + level_markup(next) + "<gray>: <green>"@ + tenths_text(
        progress_tenths(experience as nat),
    ) + "</green>%</gray>"@
}

/// Progress towards the next prestige, as markup. The next prestige is the
/// first multiple of 100 at or above the whole levels reached.
pub fn get_prestige_progress(experience: u32) -> (r: String)
    requires
        experience < xp_to_reach(9901),
    ensures
        exists|l: Level|
            xp_to_reach(l.whole as nat) <= experience < xp_to_reach(l.whole as nat + 1) && r@
                == progress_markup(experience, next_prestige(l.whole as nat) as u32),
{
    let level = get_level(experience);
    proof {
        if level.whole >= 9901 {
            lemma_xp_increasing(9900, level.whole as nat);
            assert(xp_to_reach(9901) <= xp_to_reach(level.whole as nat)) by {
                if level.whole > 9901 {
                    lemma_xp_increasing(9901, level.whole as nat);
                }
            }
        }
    }
    let next: u32 = ((level.whole + 99) / 100) * 100;
    let prestige = format_level(next);
    let tenths: u64 = ((experience % PRESTIGE_XP) as u64 * 1000 + 243500) / 487000;
    let mut out = chars_of("<white>Progress to</white> ");
    let p = chars_of(prestige.as_str());
    push_all(&mut out, &p);
    let mid = chars_of("<gray>: <green>");
    push_all(&mut out, &mid);
    push_decimal(&mut out, tenths / 10);
    out.push('.');
    push_decimal(&mut out, tenths % 10);
    let tail = chars_of("</green>%</gray>");
    push_all(&mut out, &tail);
    assert(decimal((tenths % 10) as nat) == seq![digit_char((tenths % 10) as int)]);
    assert(out@ =~= progress_markup(experience, next_prestige(level.whole as nat) as u32));
    string_from_chars(&out)
}

} // verus!
