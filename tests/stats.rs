use mango::cache::ExpiringCache;
use mango::color::Color;
use mango::numbers::num;
use mango::prestige::{format_level, get_level, get_prestige_progress, Level};
use mango::rank::{get_rank_color, HypixelPlayer};
use mango::stats::{HypixelAchievements, HypixelStats, MinecraftError};

fn player() -> HypixelPlayer {
    HypixelPlayer {
        displayname: "Steve".to_string(),
        prefix: None,
        rank: None,
        package_rank: None,
        new_package_rank: None,
        monthly_package_rank: None,
        rank_plus_color: None,
        monthly_rank_color: None,
        stats: HypixelStats::default(),
        achievements: HypixelAchievements { bedwars_level: 42 },
    }
}

#[test]
fn single_color_level() {
    assert_eq!(format_level(5), "<gray>[5\u{272B}]</gray>");
    assert_eq!(format_level(250), "<gold>[250\u{272B}]</gold>");
}

#[test]
fn rainbow_level_colors_each_character() {
    assert_eq!(
        format_level(1000),
        "<red>[</red><gold>1</gold><yellow>0</yellow><green>0</green><aqua>0</aqua><light_purple>\u{272B}</light_purple><dark_purple>]</dark_purple>"
    );
}

#[test]
fn levels_from_experience() {
    assert_eq!(get_level(0), Level { whole: 0, into: 0, cost: 500 });
    assert_eq!(get_level(499), Level { whole: 0, into: 499, cost: 500 });
    assert_eq!(get_level(500), Level { whole: 1, into: 0, cost: 1000 });
    assert_eq!(get_level(7000), Level { whole: 4, into: 0, cost: 5000 });
    assert_eq!(get_level(487000), Level { whole: 100, into: 0, cost: 500 });
}

#[test]
fn prestige_progress_text() {
    assert_eq!(
        get_prestige_progress(243500),
        "<white>Progress to</white> <white>[100\u{272B}]</white><gray>: <green>50.0</green>%</gray>"
    );
    assert_eq!(
        get_prestige_progress(0),
        "<white>Progress to</white> <gray>[0\u{272B}]</gray><gray>: <green>0.0</green>%</gray>"
    );
}

#[test]
fn grouped_numbers() {
    assert_eq!(num(0), "0");
    assert_eq!(num(999), "999");
    assert_eq!(num(1000), "1,000");
    assert_eq!(num(1234567), "1,234,567");
    assert_eq!(num(u64::MAX), "18,446,744,073,709,551,615");
}

#[test]
fn rank_falls_through_candidates() {
    let mut p = player();
    assert_eq!(p.calculate_rank(), "DEFAULT");
    p.package_rank = Some("VIP".to_string());
    p.new_package_rank = Some("NONE".to_string());
    assert_eq!(p.calculate_rank(), "VIP");
    p.rank = Some("NORMAL".to_string());
    p.monthly_package_rank = Some("SUPERSTAR".to_string());
    assert_eq!(p.calculate_rank(), "SUPERSTAR");
    p.prefix = Some("[OWNER]".to_string());
    assert_eq!(p.calculate_rank(), "[OWNER]");
}

#[test]
fn rank_markup() {
    let mut p = player();
    assert_eq!(p.rank_formatted(), "<gray>");
    p.monthly_package_rank = Some("SUPERSTAR".to_string());
    assert_eq!(p.rank_formatted(), "<gold>[MVP<red>++</red>]");
    p.monthly_rank_color = Some("aqua".to_string());
    p.rank_plus_color = Some("dark_green".to_string());
    assert_eq!(p.rank_formatted(), "<aqua>[MVP<dark_green>++</dark_green>]");
    p.monthly_package_rank = None;
    p.new_package_rank = Some("MVP_PLUS".to_string());
    assert_eq!(p.rank_formatted(), "<aqua>[MVP<dark_green>+</dark_green>]");
    p.rank = Some("YOUTUBER".to_string());
    assert_eq!(p.rank_formatted(), "<red>[<white>YOUTUBE</white>]");
    p.rank = Some("SOMETHING".to_string());
    assert_eq!(p.rank_formatted(), "");
}

#[test]
fn rank_colors() {
    let mut p = player();
    assert_eq!(p.primary_rank_color(), Color::from_rgb(170, 170, 170));
    p.monthly_package_rank = Some("SUPERSTAR".to_string());
    assert_eq!(p.primary_rank_color(), Color::from_rgb(255, 170, 0));
    p.monthly_rank_color = Some("aqua".to_string());
    assert_eq!(p.primary_rank_color(), Color::from_rgb(85, 255, 255));
    p.monthly_rank_color = Some("green".to_string());
    assert_eq!(p.primary_rank_color(), Color::from_rgb(255, 255, 255));
    assert_eq!(get_rank_color("vip_plus"), Some(Color::from_rgb(85, 255, 85)));
    assert_eq!(get_rank_color("nobody"), None);
    assert_eq!(p.bedwars_level(), 42);
}

#[test]
fn cache_expires_entries() {
    let mut cache: ExpiringCache<u32> = ExpiringCache::new(100);
    assert_eq!(cache.get("a", 0), None);
    cache.insert("a".to_string(), 7, 10);
    assert_eq!(cache.get("a", 109), Some(7));
    cache.insert("a".to_string(), 8, 50);
    assert_eq!(cache.entries.len(), 1);
    assert_eq!(cache.get("a", 149), Some(8));
    assert_eq!(cache.get("a", 150), None);
    assert!(cache.entries.is_empty());
}

#[test]
fn error_message() {
    assert_eq!(MinecraftError("Request error: x".to_string()).message(), "Request error: x");
}
