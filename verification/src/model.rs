//! The typed records the API's JSON bodies decode into. Every record is an
//! immutable value populated by the decoder; none is mutated afterwards.
//!
//! The API sends some fields as decimal fractions (`bpm`, `pp`, levels and
//! accuracies). Those fields are held as their validated numeric strings:
//! the decoder proves they parse as floating-point literals, and a caller
//! that wants the number reads it from the string.

use vstd::prelude::*;
use crate::enums::{Approval, Genre, Language, PlayMode, ScoringType, TeamType};
use crate::mods::Mods;

verus! {

/// Beatmap metadata.
#[derive(Clone, Debug, PartialEq)]
pub struct Beatmap {
    pub approved: Approval,
    pub approved_date: Option<String>,
    pub artist: String,
    pub beatmap_id: i64,
    pub beatmapset_id: i64,
    /// A decimal fraction, kept as its validated numeric string.
    pub bpm: String,
    pub creator: String,
    /// A decimal fraction, kept as its validated numeric string.
    pub difficulty_rating: String,
    /// A decimal fraction, kept as its validated numeric string.
    pub diff_approach: String,
    /// A decimal fraction, kept as its validated numeric string.
    pub diff_drain: String,
    /// A decimal fraction, kept as its validated numeric string.
    pub diff_overall: String,
    /// A decimal fraction, kept as its validated numeric string.
    pub diff_size: String,
    pub favourite_count: i64,
    pub file_md5: String,
    pub genre_id: Genre,
    pub hit_length: i64,
    pub language_id: Language,
    pub last_update: String,
    pub max_combo: Option<i64>,
    pub mode: i64,
    pub pass_count: i64,
    pub play_count: i64,
    pub source: String,
    /// A list of tags, separated by spaces.
    pub tags: String,
    pub title: String,
    pub total_length: i64,
    pub version: String,
}

/// One game of a multiplayer match.
#[derive(Clone, Debug, PartialEq)]
pub struct Game {
    pub beatmap_id: i64,
    pub end_time: String,
    pub game_id: i64,
    pub match_type: i64,
    pub mods: Mods,
    pub play_mode: PlayMode,
    pub scores: Vec<GameScore>,
    pub scoring_type: ScoringType,
    pub start_time: String,
    pub team_type: TeamType,
}

/// A score on a beatmap, with the player's name.
#[derive(Clone, Debug, PartialEq)]
pub struct GameScore {
    pub count_100: i64,
    pub count_300: i64,
    pub count_50: i64,
    pub count_geki: i64,
    pub count_katu: i64,
    pub count_miss: i64,
    pub date: String,
    pub enabled_mods: Mods,
    pub max_combo: i64,
    pub perfect: i64,
    /// Performance points, a decimal fraction kept as its validated numeric
    /// string.
    pub pp: String,
    pub rank: String,
    pub score: i64,
    pub user_id: i64,
    pub username: String,
}

/// A multiplayer match.
#[derive(Clone, Debug, PartialEq)]
pub struct Match {
    pub end_time: Option<String>,
    pub match_id: i64,
    pub name: String,
    pub start_time: String,
}

/// One player's score in one game of a multiplayer match.
#[derive(Clone, Copy, Debug, PartialEq, Eq, Structural)]
pub struct MatchScore {
    pub count_100: i64,
    pub count_300: i64,
    pub count_50: i64,
    pub count_geki: i64,
    pub count_katu: i64,
    pub count_miss: i64,
    pub max_combo: i64,
    pub pass: i64,
    pub perfect: i64,
    /// Not used. Always 0.
    pub rank: i64,
    pub score: i64,
    pub slot: i64,
    pub team: i64,
    pub user_id: i64,
}

/// One of a user's best performances.
#[derive(Clone, Debug, PartialEq)]
pub struct Performance {
    pub beatmap_id: i64,
    pub count_100: i64,
    pub count_300: i64,
    pub count_50: i64,
    pub count_geki: i64,
    pub count_katu: i64,
    pub count_miss: i64,
    pub date: String,
    pub enabled_mods: Mods,
    pub max_combo: i64,
    pub perfect: bool,
    /// Performance points, a decimal fraction kept as its validated numeric
    /// string.
    pub pp: String,
    pub rank: String,
    pub score: i64,
    pub user_id: i64,
}

/// One of a user's recent plays.
#[derive(Clone, Debug, PartialEq)]
pub struct RecentPlay {
    pub beatmap_id: i64,
    pub count_100: i64,
    pub count_300: i64,
    pub count_50: i64,
    pub count_geki: i64,
    pub count_katu: i64,
    pub count_miss: i64,
    pub date: String,
    pub enabled_mods: Mods,
    pub max_combo: i64,
    pub perfect: bool,
    pub rank: String,
    pub score: i64,
    pub user_id: i64,
}

/// A player's profile.
#[derive(Clone, Debug, PartialEq)]
pub struct User {
    pub id: i64,
    /// A decimal fraction, kept as its validated numeric string.
    pub accuracy: String,
    pub count_100: i64,
    pub count_300: i64,
    pub count_50: i64,
    pub count_rank_a: i64,
    pub count_rank_s: i64,
    pub count_rank_ss: i64,
    pub country: String,
    pub events: Vec<UserEvent>,
    /// A decimal fraction, kept as its validated numeric string.
    pub level: String,
    pub play_count: i64,
    pub pp_country_rank: i64,
    pub pp_rank: i64,
    /// A decimal fraction, kept as its validated numeric string.
    pub pp_raw: String,
    pub ranked_score: i64,
    pub total_score: i64,
    pub username: String,
}

/// One event in a user's profile history.
#[derive(Clone, Debug, PartialEq)]
pub struct UserEvent {
    pub beatmap_id: i64,
    pub beatmapset_id: i64,
    pub date: String,
    pub display_html: String,
    pub epic_factor: i64,
}

} // verus!
