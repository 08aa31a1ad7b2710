//! Typed client binding for the osu! game-statistics web API.
//!
//! The crate builds query URLs for the API's endpoints from optional-parameter
//! builders, and decodes the JSON bodies the API answers with into typed
//! records. The HTTP transport itself is left to the caller: every function
//! here goes from plain values to plain values, so the whole pipeline around
//! the network call is verified.

use vstd::prelude::*;

pub mod builder;
pub mod decode;
pub mod enums;
pub mod error;
pub mod json;
pub mod model;
pub mod mods;
pub mod numeral;
pub mod uri;

pub use crate::enums::{Approval, Genre, Language, PlayMode, ScoringType, TeamType};
pub use crate::error::Error;
pub use crate::mods::Mods;
pub use crate::model::{
    Beatmap, Game, GameScore, Match, MatchScore, Performance, RecentPlay, User, UserEvent,
};

verus! {

/// The base URL for all requests to osu!'s API.
pub const API_URL: &'static str = "https://osu.ppy.sh/api";

/// Information for retrieving a user.
///
/// User retrieval can either be done with an ID or with a username.
#[derive(Clone, Debug, PartialEq)]
pub enum GetBeatmapUser {
    /// The user's ID.
    UserId(u64),
    /// The user's username.
    Username(String),
}

impl<'a> From<&'a str> for GetBeatmapUser {
    fn from(username: &'a str) -> (r: GetBeatmapUser)
        ensures
            r matches GetBeatmapUser::Username(n) && n@ == username@,
    {
        GetBeatmapUser::Username(username.to_owned())
    }
}

impl<'a> vstd::std_specs::convert::FromSpecImpl<&'a str> for GetBeatmapUser {
    open spec fn obeys_from_spec() -> bool {
        false
    }

    open spec fn from_spec(username: &'a str) -> GetBeatmapUser {
        arbitrary()
    }
}

impl From<String> for GetBeatmapUser {
    fn from(username: String) -> (r: GetBeatmapUser) {
        GetBeatmapUser::Username(username)
    }
}

impl vstd::std_specs::convert::FromSpecImpl<String> for GetBeatmapUser {
    open spec fn obeys_from_spec() -> bool {
        true
    }

    open spec fn from_spec(username: String) -> GetBeatmapUser {
        GetBeatmapUser::Username(username)
    }
}

impl From<u64> for GetBeatmapUser {
    fn from(user_id: u64) -> (r: GetBeatmapUser) {
        GetBeatmapUser::UserId(user_id)
    }
}

impl vstd::std_specs::convert::FromSpecImpl<u64> for GetBeatmapUser {
    open spec fn obeys_from_spec() -> bool {
        true
    }

    open spec fn from_spec(user_id: u64) -> GetBeatmapUser {
        GetBeatmapUser::UserId(user_id)
    }
}

} // verus!
