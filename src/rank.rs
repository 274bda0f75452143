//! Player ranks: which rank shows, its markup and its colour.
use crate::chars::{chars_of, same_str, string_from_chars};
use crate::color::Color;
use crate::stats::{HypixelAchievements, HypixelStats};
use vstd::prelude::*;

verus! {

/// What `str::to_uppercase` makes of a string.
pub uninterp spec fn upper_of(s: Seq<char>) -> Seq<char>;

/// Relies on `str::to_uppercase`: its result depends on the characters of `s` alone.
#[verifier::external_body]
fn uppercase(s: &str) -> (r: String)
    ensures
        r@ == upper_of(s@),
{
    s.to_uppercase()
}

/// Name of rank-colour entry `i`.
pub open spec fn rank_table_name(i: int) -> Seq<char> {
    if i == 0 { "ADMIN"@ }
    else if i == 1 { "GAME_MASTER"@ }
    else if i == 2 { "YOUTUBER"@ }
    else if i == 3 { "SUPERSTAR_GOLD"@ }
    else if i == 4 { "SUPERSTAR_AQUA"@ }
    else if i == 5 { "MVP_PLUS"@ }
    else if i == 6 { "MVP"@ }
    else if i == 7 { "VIP_PLUS"@ }
    else if i == 8 { "VIP"@ }
    else { "DEFAULT"@ }
}

/// Colour of rank-colour entry `i`.
pub open spec fn rank_table_color(i: int) -> Color {
    if i == 0 || i == 2 {
        Color { a: 255, r: 255, g: 85, b: 85 }
    } else if i == 1 {
        Color { a: 255, r: 0, g: 170, b: 0 }
    } else if i == 3 {
        Color { a: 255, r: 255, g: 170, b: 0 }
    } else if i == 4 || i == 5 || i == 6 {
        Color { a: 255, r: 85, g: 255, b: 255 }
    } else if i == 7 || i == 8 {
        Color { a: 255, r: 85, g: 255, b: 85 }
    } else {
        Color { a: 255, r: 170, g: 170, b: 170 }
    }
}

/// The colour of the first entry at or after `from` whose name, upper-cased,
/// equals `upper`.
pub open spec fn rank_color_from(upper: Seq<char>, from: int) -> Option<Color>
    decreases 10 - from,
{
    if from < 0 || from >= 10 {
        None
    } else if upper_of(rank_table_name(from)) == upper {
        Some(rank_table_color(from))
    } else {
        rank_color_from(upper, from + 1)
    }
}

fn rank_entry(i: usize) -> (r: (&'static str, Color))
    requires
        i < 10,
    ensures
        r.0@ == rank_table_name(i as int),
        r.1 == rank_table_color(i as int),
{
    match i {
        0 => ("ADMIN", Color::from_rgb(255, 85, 85)),
        1 => ("GAME_MASTER", Color::from_rgb(0, 170, 0)),
        2 => ("YOUTUBER", Color::from_rgb(255, 85, 85)),
        3 => ("SUPERSTAR_GOLD", Color::from_rgb(255, 170, 0)),
        4 => ("SUPERSTAR_AQUA", Color::from_rgb(85, 255, 255)),
        5 => ("MVP_PLUS", Color::from_rgb(85, 255, 255)),
        6 => ("MVP", Color::from_rgb(85, 255, 255)),
        7 => ("VIP_PLUS", Color::from_rgb(85, 255, 85)),
        8 => ("VIP", Color::from_rgb(85, 255, 85)),
        _ => ("DEFAULT", Color::from_rgb(170, 170, 170)),
    }
}

/// The colour of a rank, compared without regard to letter case.
pub fn get_rank_color(name: &str) -> (r: Option<Color>)
    ensures
        r == rank_color_from(upper_of(name@), 0),
{
    let wanted = uppercase(name);
    let mut i: usize = 0;
    while i < 10
        invariant
            i <= 10,
            wanted@ == upper_of(name@),
            rank_color_from(upper_of(name@), 0) == rank_color_from(upper_of(name@), i as int),
        decreases 10 - i,
    {
        let (k, c) = rank_entry(i);
        let key = uppercase(k);
        if same_str(key.as_str(), wanted.as_str()) {
            return Some(c);
        }
        i = i + 1;
    }
    None
}

/// A player's profile as the statistics service reports it.
#[derive(Clone, Debug)]
pub struct HypixelPlayer {
    pub displayname: String,
    pub prefix: Option<String>,
    pub rank: Option<String>,
    pub package_rank: Option<String>,
    pub new_package_rank: Option<String>,
    pub monthly_package_rank: Option<String>,
    pub rank_plus_color: Option<String>,
    pub monthly_rank_color: Option<String>,
    pub stats: HypixelStats,
    pub achievements: HypixelAchievements,
}

/// `o`'s text when it names a rank (is neither `NONE` nor `NORMAL`), else `rest`.
pub open spec fn pick_rank(o: Option<String>, rest: Seq<char>) -> Seq<char> {
    match o {
        Some(v) => if v@ != "NONE"@ && v@ != "NORMAL"@ {
            v@
        } else {
            rest
        },
        None => rest,
    }
}

/// `o`'s text, or `default` when there is none.
pub open spec fn or_default(o: Option<String>, default: Seq<char>) -> Seq<char> {
    match o {
        Some(v) => v@,
        None => default,
    }
}

/// The markup that shows a rank before a name.
pub open spec fn rank_markup(rank: Seq<char>, rank_color: Seq<char>, plus_color: Seq<char>) -> Seq<char> {
    if rank == "ADMIN"@ {
        "<red>[ADMIN]"@
    } else if rank == "GAME_MASTER"@ {
        "<dark_green>[GM]"@
    } else if rank == "YOUTUBER"@ {
        "<red>[<white>YOUTUBE</white>]"@
    } else if rank == "SUPERSTAR"@ {
        "<"@ + rank_color + ">[MVP<"@ + plus_color + ">++</"@ + plus_color + ">]"@
    } else if rank == "MVP_PLUS"@ {
        "<aqua>[MVP<"@ + plus_color + ">+</"@ + plus_color + ">]"@
    } else if rank == "MVP"@ {
        "<aqua>[MVP]"@
    } else if rank == "VIP_PLUS"@ {
        "<green>[VIP<gold>+</gold>]"@
    } else if rank == "VIP"@ {
        "<green>[VIP]"@
    } else if rank == "DEFAULT"@ {
        "<gray>"@
    } else {
        seq![]
    }
}

fn rank_or(o: &Option<String>, rest: String) -> (r: String)
    ensures
        r@ == pick_rank(*o, rest@),
{
    match o {
        Some(v) => {
            if !same_str(v.as_str(), "NONE") && !same_str(v.as_str(), "NORMAL") {
                v.clone()
            } else {
                rest
            }
        },
        None => rest,
    }
}

fn text_or(o: &Option<String>, default: &str) -> (r: String)
    ensures
        r@ == or_default(*o, default@),
{
    match o {
        Some(v) => v.clone(),
        None => default.to_owned(),
    }
}

fn joined(parts: &Vec<&str>) -> (r: String)
    ensures
        r@ == parts@.fold_left(Seq::<char>::empty(), |acc: Seq<char>, p: &str| acc + p@),
{
    let mut out: Vec<char> = Vec::new();
    let mut i: usize = 0;
    while i < parts.len()
        invariant
            i <= parts@.len(),
            out@ == parts@.take(i as int).fold_left(
                Seq::<char>::empty(),
                |acc: Seq<char>, p: &str| acc + p@,
            ),
        decreases parts@.len() - i,
    {
        let cs = chars_of(parts[i]);
        let mut j: usize = 0;
        let ghost start = out@;
        while j < cs.len()
            invariant
                j <= cs@.len(),
                out@ == start + cs@.take(j as int),
            decreases cs@.len() - j,
        {
            out.push(cs[j]);
            j = j + 1;
            assert(out@ =~= start + cs@.take(j as int));
        }
        assert(cs@.take(j as int) =~= cs@);
        assert(parts@.take(i as int + 1).drop_last() =~= parts@.take(i as int));
        i = i + 1;
    }
    assert(parts@.take(i as int) =~= parts@);
    string_from_chars(&out)
}

impl HypixelPlayer {
    /// The rank shown for the player: the custom prefix if there is one,
    /// else the first of the staff rank, the monthly, the new and the old
    /// package rank that names a rank, else `DEFAULT`.
    pub open spec fn rank_name(&self) -> Seq<char> {
        match self.prefix {
            Some(p) => p@,
            None => pick_rank(
                self.rank,
                pick_rank(
                    self.monthly_package_rank,
                    pick_rank(self.new_package_rank, pick_rank(self.package_rank, "DEFAULT"@)),
                ),
            ),
        }
    }

    pub fn calculate_rank(&self) -> (r: String)
        ensures
            r@ == self.rank_name(),
    {
        if let Some(prefix) = &self.prefix {
            return prefix.clone();
        }
        let fallback = "DEFAULT".to_owned();
        let a = rank_or(&self.package_rank, fallback);
        let b = rank_or(&self.new_package_rank, a);
        let c = rank_or(&self.monthly_package_rank, b);
        rank_or(&self.rank, c)
    }

    /// The markup that shows the player's rank. Custom prefixes are not
    /// handled.
    pub fn rank_formatted(&self) -> (r: String)
        requires
            self.prefix is None,
        ensures
            r@ == rank_markup(
                self.rank_name(),
                or_default(self.monthly_rank_color, "gold"@),
                or_default(self.rank_plus_color, "red"@),
            ),
    {
        let rank = self.calculate_rank();
        let rank_color = text_or(&self.monthly_rank_color, "gold");
        let plus_color = text_or(&self.rank_plus_color, "red");
        let r = rank.as_str();
        if same_str(r, "ADMIN") {
            "<red>[ADMIN]".to_owned()
        } else if same_str(r, "GAME_MASTER") {
            "<dark_green>[GM]".to_owned()
        } else if same_str(r, "YOUTUBER") {
            "<red>[<white>YOUTUBE</white>]".to_owned()
        } else if same_str(r, "SUPERSTAR") {
            let parts = vec![
                "<",
                rank_color.as_str(),
                ">[MVP<",
                plus_color.as_str(),
                ">++</",
                plus_color.as_str(),
                ">]",
            ];
            let out = joined(&parts);
            assert(out@ =~= "<"@ + rank_color@ + ">[MVP<"@ + plus_color@ + ">++</"@
                + plus_color@ + ">]"@) by {
                reveal_with_fuel(Seq::fold_left, 8);
            }
            out
        } else if same_str(r, "MVP_PLUS") {
            let parts = vec!["<aqua>[MVP<", plus_color.as_str(), ">+</", plus_color.as_str(), ">]"];
            let out = joined(&parts);
            assert(out@ =~= "<aqua>[MVP<"@ + plus_color@ + ">+</"@ + plus_color@ + ">]"@) by {
                reveal_with_fuel(Seq::fold_left, 6);
            }
            out
        } else if same_str(r, "MVP") {
            "<aqua>[MVP]".to_owned()
        } else if same_str(r, "VIP_PLUS") {
            "<green>[VIP<gold>+</gold>]".to_owned()
        } else if same_str(r, "VIP") {
            "<green>[VIP]".to_owned()
        } else if same_str(r, "DEFAULT") {
            "<gray>".to_owned()
        } else {
            String::new()
        }
    }

    /// The rank shown, with a `SUPERSTAR` rank qualified by the monthly rank
    /// colour (default `gold`).
    pub open spec fn colored_rank_name(&self) -> Seq<char> {
        if self.rank_name() == "SUPERSTAR"@ {
            "SUPERSTAR_"@ + or_default(self.monthly_rank_color, "gold"@)
        } else {
            self.rank_name()
        }
    }

    /// The colour that stands for the player's rank; white for a rank
    /// without one.
    pub fn primary_rank_color(&self) -> (r: Color)
        ensures
            r == match rank_color_from(upper_of(upper_of(self.colored_rank_name())), 0) {
                Some(c) => c,
                None => Color { a: 255, r: 255, g: 255, b: 255 },
            },
    {
        let rank = self.calculate_rank();
        let rank_color = text_or(&self.monthly_rank_color, "gold");
        let name = if same_str(rank.as_str(), "SUPERSTAR") {
            let parts = vec!["SUPERSTAR_", rank_color.as_str()];
            let out = joined(&parts);
            assert(out@ =~= "SUPERSTAR_"@ + rank_color@) by {
                reveal_with_fuel(Seq::fold_left, 3);
            }
            out
        } else {
            rank
        };
        let upper = uppercase(name.as_str());
        match get_rank_color(upper.as_str()) {
            Some(c) => c,
            None => Color::from_rgb(255, 255, 255),
        }
    }

    pub fn bedwars_level(&self) -> (r: i32)
        ensures
            r == self.achievements.bedwars_level,
    {
        self.achievements.bedwars_level
    }
}

} // verus!
