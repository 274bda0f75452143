//! Player statistics and account records.
use vstd::prelude::*;

verus! {

/// The achievements the stat card reads.
#[derive(Clone, Copy, Debug, Default, PartialEq, Eq, Structural)]
pub struct HypixelAchievements {
    pub bedwars_level: i32,
}

/// Bed Wars counters: All modes together.
#[derive(Clone, Copy, Debug, Default, PartialEq, Eq, Structural)]
pub struct HypixelBedwarsOverall {
    pub kills: u32,
    pub deaths: u32,
    pub final_kills: u32,
    pub final_deaths: u32,
    pub wins: u32,
    pub losses: u32,
    pub beds_broken: u32,
    pub beds_lost: u32,
    pub iron_collected: u32,
    pub gold_collected: u32,
    pub diamond_collected: u32,
    pub emerald_collected: u32,
    pub games_played: u32,
    pub winstreak: u32,
}

/// Bed Wars counters: Solo games.
#[derive(Clone, Copy, Debug, Default, PartialEq, Eq, Structural)]
pub struct HypixelBedwarsSolo {
    pub kills: u32,
    pub deaths: u32,
    pub final_kills: u32,
    pub final_deaths: u32,
    pub wins: u32,
    pub losses: u32,
    pub beds_broken: u32,
    pub beds_lost: u32,
    pub iron_collected: u32,
    pub gold_collected: u32,
    pub diamond_collected: u32,
    pub emerald_collected: u32,
    pub games_played: u32,
    pub winstreak: u32,
}

/// Bed Wars counters: Doubles games.
#[derive(Clone, Copy, Debug, Default, PartialEq, Eq, Structural)]
pub struct HypixelBedwarsDoubles {
    pub kills: u32,
    pub deaths: u32,
    pub final_kills: u32,
    pub final_deaths: u32,
    pub wins: u32,
    pub losses: u32,
    pub beds_broken: u32,
    pub beds_lost: u32,
    pub iron_collected: u32,
    pub gold_collected: u32,
    pub diamond_collected: u32,
    pub emerald_collected: u32,
    pub games_played: u32,
    pub winstreak: u32,
}

/// Bed Wars counters: Games of three-player teams.
#[derive(Clone, Copy, Debug, Default, PartialEq, Eq, Structural)]
pub struct HypixelBedwarsThrees {
    pub kills: u32,
    pub deaths: u32,
    pub final_kills: u32,
    pub final_deaths: u32,
    pub wins: u32,
    pub losses: u32,
    pub beds_broken: u32,
    pub beds_lost: u32,
    pub iron_collected: u32,
    pub gold_collected: u32,
    pub diamond_collected: u32,
    pub emerald_collected: u32,
    pub games_played: u32,
    pub winstreak: u32,
}

/// Bed Wars counters: Games of four-player teams.
#[derive(Clone, Copy, Debug, Default, PartialEq, Eq, Structural)]
pub struct HypixelBedwarsFours {
    pub kills: u32,
    pub deaths: u32,
    pub final_kills: u32,
    pub final_deaths: u32,
    pub wins: u32,
    pub losses: u32,
    pub beds_broken: u32,
    pub beds_lost: u32,
    pub iron_collected: u32,
    pub gold_collected: u32,
    pub diamond_collected: u32,
    pub emerald_collected: u32,
    pub games_played: u32,
    pub winstreak: u32,
}

/// Bed Wars counters of the dreams modes (none are read).
#[derive(Clone, Copy, Debug, Default, PartialEq, Eq, Structural)]
pub struct HypixelBedwarsDreams {}

/// Bed Wars statistics: whole experience points and counters per mode.
#[derive(Clone, Copy, Debug, Default, PartialEq, Eq, Structural)]
pub struct HypixelBedwars {
    pub experience: u32,
    pub overall: HypixelBedwarsOverall,
    pub solo: HypixelBedwarsSolo,
    pub doubles: HypixelBedwarsDoubles,
    pub threes: HypixelBedwarsThrees,
    pub fours: HypixelBedwarsFours,
}

/// Statistics per game.
#[derive(Clone, Copy, Debug, Default, PartialEq, Eq, Structural)]
pub struct HypixelStats {
    pub bedwars: HypixelBedwars,
}

/// A Minecraft account as the name-lookup service reports it.
#[derive(Clone, Debug)]
pub struct PlayerDBPlayer {
    pub id: String,
    pub username: String,
}

/// The `data` member of a name-lookup response.
#[derive(Clone, Debug)]
pub struct PlayerDBData {
    pub player: PlayerDBPlayer,
}

/// A name-lookup response.
#[derive(Clone, Debug)]
pub struct PlayerDBResponse {
    pub data: PlayerDBData,
}

/// Kinds of player render.
#[derive(Clone, Copy, Debug, PartialEq, Eq, Structural)]
pub enum PlayerType {
    Head,
    Body,
    Full,
    Bust,
}

/// A failure to obtain player data, with its message.
#[derive(Clone, Debug)]
pub struct MinecraftError(pub String);

impl MinecraftError {
    /// The message, as it is shown to the user.
    pub fn message(&self) -> (r: String)
        ensures
            r@ == self.0@,
    {
        self.0.clone()
    }
}

} // verus!
