//! Builders for the request functions with several optional parameters.
//! Each setter writes one named parameter (the user setter writes two);
//! keys are unique and a later write to the same key wins. The assembled
//! parameter set of a builder is the map its `params` view describes.

use vstd::prelude::*;
use crate::enums::PlayMode;
use crate::mods::Mods;
use crate::numeral::{spec_u64_str, u64_to_string};
use crate::GetBeatmapUser;

verus! {

/// The parameter names a builder can set.
#[derive(Clone, Copy, Debug, PartialEq, Eq, Structural)]
pub enum ParamKey {
    IncludeConverted,
    BeatmapId,
    Hash,
    Limit,
    Mode,
    BeatmapSetId,
    Since,
    LookupType,
    User,
    Mods,
    EventDays,
}

/// The wire name of a parameter.
pub open spec fn spec_param_name(k: ParamKey) -> Seq<char> {
    match k {
        ParamKey::IncludeConverted => "a"@,
        ParamKey::BeatmapId => "b"@,
        ParamKey::Hash => "h"@,
        ParamKey::Limit => "limit"@,
        ParamKey::Mode => "m"@,
        ParamKey::BeatmapSetId => "s"@,
        ParamKey::Since => "since"@,
        ParamKey::LookupType => "type"@,
        ParamKey::User => "u"@,
        ParamKey::Mods => "mods"@,
        ParamKey::EventDays => "event_days"@,
    }
}

/// The character sequence a stored parameter value shows, if set.
pub open spec fn opt_view(o: Option<String>) -> Option<Seq<char>> {
    match o {
        Some(s) => Some(s@),
        None => None,
    }
}

/// The text of `true` or `false`.
pub open spec fn spec_bool_str(b: bool) -> Seq<char> {
    if b {
        "true"@
    } else {
        "false"@
    }
}

fn bool_str(b: bool) -> (r: &'static str)
    ensures
        r@ == spec_bool_str(b),
{
    if b {
        "true"
    } else {
        "false"
    }
}

/// How a user reference is to be interpreted: by numeric ID or by name.
#[derive(Clone, Copy, Debug, PartialEq, Eq, Structural)]
pub enum GetBeatmapType {
    /// Use for user IDs.
    Id,
    /// Use for usernames.
    Username,
}

impl GetBeatmapType {
    /// The wire name of the lookup type.
    pub open spec fn spec_name(self) -> Seq<char> {
        match self {
            GetBeatmapType::Id => "id"@,
            GetBeatmapType::Username => "string"@,
        }
    }

    pub fn name(&self) -> (r: &'static str)
        ensures
            r@ == self.spec_name(),
    {
        match self {
            GetBeatmapType::Id => "id",
            GetBeatmapType::Username => "string",
        }
    }
}

/// A builder for the optional parameters of `get_beatmaps`.
#[derive(Clone, Debug, PartialEq)]
pub struct GetBeatmapsRequest {
    pub include_converted: Option<String>,
    pub beatmap_id: Option<String>,
    pub hash: Option<String>,
    pub limit: Option<String>,
    pub mode: Option<String>,
    pub beatmap_set_id: Option<String>,
    pub since: Option<String>,
    pub lookup_type: Option<String>,
    pub user: Option<String>,
}

impl GetBeatmapsRequest {
    /// The stored value under one key, if set.
    pub open spec fn spec_param(self, k: ParamKey) -> Option<Seq<char>> {
        match k {
            ParamKey::IncludeConverted => opt_view(self.include_converted),
            ParamKey::BeatmapId => opt_view(self.beatmap_id),
            ParamKey::Hash => opt_view(self.hash),
            ParamKey::Limit => opt_view(self.limit),
            ParamKey::Mode => opt_view(self.mode),
            ParamKey::BeatmapSetId => opt_view(self.beatmap_set_id),
            ParamKey::Since => opt_view(self.since),
            ParamKey::LookupType => opt_view(self.lookup_type),
            ParamKey::User => opt_view(self.user),
            _ => None,
        }
    }

    /// The assembled parameter set.
    pub open spec fn params(self) -> Map<ParamKey, Seq<char>> {
        Map::new(|k: ParamKey| self.spec_param(k) is Some, |k: ParamKey| self.spec_param(k)->0)
    }

    /// A builder with no parameter set.
    pub fn new() -> (r: Self)
        ensures
            r.params() == Map::<ParamKey, Seq<char>>::empty(),
    {
        let r = GetBeatmapsRequest {
            include_converted: None,
            beatmap_id: None,
            hash: None,
            limit: None,
            mode: None,
            beatmap_set_id: None,
            since: None,
            lookup_type: None,
            user: None,
        };
        proof {
            assert(r.params() =~= Map::<ParamKey, Seq<char>>::empty());
        }
        r
    }

    /// Specify the beatmap ID to filter by.
    pub fn beatmap_id(self, beatmap_id: u64) -> (r: Self)
        ensures
            r.params() == self.params().insert(
                ParamKey::BeatmapId,
                spec_u64_str(beatmap_id as nat),
            ),
            opt_view(r.beatmap_id) == Some(spec_u64_str(beatmap_id as nat)),
            r == (GetBeatmapsRequest { beatmap_id: r.beatmap_id, ..self }),
    {
        let r = GetBeatmapsRequest { beatmap_id: Some(u64_to_string(beatmap_id)), ..self };
        proof {
            assert(r.params() =~= self.params().insert(
                ParamKey::BeatmapId,
                spec_u64_str(beatmap_id as nat),
            ));
        }
        r
    }

    /// Specify the beatmap set ID to filter by.
    pub fn beatmap_set_id(self, beatmap_set_id: u64) -> (r: Self)
        ensures
            r.params() == self.params().insert(
                ParamKey::BeatmapSetId,
                spec_u64_str(beatmap_set_id as nat),
            ),
            opt_view(r.beatmap_set_id) == Some(spec_u64_str(beatmap_set_id as nat)),
            r == (GetBeatmapsRequest { beatmap_set_id: r.beatmap_set_id, ..self }),
    {
        let r = GetBeatmapsRequest { beatmap_set_id: Some(u64_to_string(beatmap_set_id)), ..self };
        proof {
            assert(r.params() =~= self.params().insert(
                ParamKey::BeatmapSetId,
                spec_u64_str(beatmap_set_id as nat),
            ));
        }
        r
    }

    /// Specify the beatmap hash to filter by.
    pub fn hash(self, hash: &str) -> (r: Self)
        ensures
            r.params() == self.params().insert(ParamKey::Hash, hash@),
            opt_view(r.hash) == Some(hash@),
            r == (GetBeatmapsRequest { hash: r.hash, ..self }),
    {
        let r = GetBeatmapsRequest { hash: Some(hash.to_owned()), ..self };
        proof {
            assert(r.params() =~= self.params().insert(ParamKey::Hash, hash@));
        }
        r
    }

    /// Specify whether converted beatmaps are included.
    ///
    /// Only has an effect when a mode other than `Standard` is chosen.
    pub fn include_converted(self, include_converted: bool) -> (r: Self)
        ensures
            r.params() == self.params().insert(
                ParamKey::IncludeConverted,
                spec_bool_str(include_converted),
            ),
            opt_view(r.include_converted) == Some(spec_bool_str(include_converted)),
            r == (GetBeatmapsRequest { include_converted: r.include_converted, ..self }),
    {
        let r = GetBeatmapsRequest {
            include_converted: Some(bool_str(include_converted).to_owned()),
            ..self
        };
        proof {
            assert(r.params() =~= self.params().insert(
                ParamKey::IncludeConverted,
                spec_bool_str(include_converted),
            ));
        }
        r
    }

    /// The number of results to return at most. The external API caps it at
    /// `500`, which is also its default.
    pub fn limit(self, limit: u16) -> (r: Self)
        ensures
            r.params() == self.params().insert(ParamKey::Limit, spec_u64_str(limit as nat)),
            opt_view(r.limit) == Some(spec_u64_str(limit as nat)),
            r == (GetBeatmapsRequest { limit: r.limit, ..self }),
    {
        let r = GetBeatmapsRequest { limit: Some(u64_to_string(limit as u64)), ..self };
        proof {
            assert(r.params() =~= self.params().insert(
                ParamKey::Limit,
                spec_u64_str(limit as nat),
            ));
        }
        r
    }

    /// Specify the mode to filter by.
    pub fn mode(self, mode: PlayMode) -> (r: Self)
        ensures
            r.params() == self.params().insert(ParamKey::Mode, mode.spec_code()),
            opt_view(r.mode) == Some(mode.spec_code()),
            r == (GetBeatmapsRequest { mode: r.mode, ..self }),
    {
        let r = GetBeatmapsRequest { mode: Some(mode.code().to_owned()), ..self };
        proof {
            assert(r.params() =~= self.params().insert(ParamKey::Mode, mode.spec_code()));
        }
        r
    }

    /// Return beatmaps ranked since the given date. Must be a MySQL date.
    pub fn since(self, since: &str) -> (r: Self)
        ensures
            r.params() == self.params().insert(ParamKey::Since, since@),
            opt_view(r.since) == Some(since@),
            r == (GetBeatmapsRequest { since: r.since, ..self }),
    {
        let r = GetBeatmapsRequest { since: Some(since.to_owned()), ..self };
        proof {
            assert(r.params() =~= self.params().insert(ParamKey::Since, since@));
        }
        r
    }

    /// Specify the user to retrieve beatmaps for, and with it the lookup
    /// type: an ID sets `type` to `id`, a name sets it to `string`.
    pub fn user(self, user: GetBeatmapUser) -> (r: Self)
        ensures
            match user {
                GetBeatmapUser::UserId(id) => r.params() == self.params().insert(
                    ParamKey::User,
                    spec_u64_str(id as nat),
                ).insert(ParamKey::LookupType, "id"@),
                GetBeatmapUser::Username(name) => r.params() == self.params().insert(
                    ParamKey::User,
                    name@,
                ).insert(ParamKey::LookupType, "string"@),
            },
            opt_view(r.user) == Some(
                match user {
                    GetBeatmapUser::UserId(id) => spec_u64_str(id as nat),
                    GetBeatmapUser::Username(name) => name@,
                },
            ),
            opt_view(r.lookup_type) == Some(
                match user {
                    GetBeatmapUser::UserId(_) => "id"@,
                    GetBeatmapUser::Username(_) => "string"@,
                },
            ),
            r == (GetBeatmapsRequest { user: r.user, lookup_type: r.lookup_type, ..self }),
    {
        match user {
            GetBeatmapUser::UserId(id) => {
                let r = GetBeatmapsRequest {
                    user: Some(u64_to_string(id)),
                    lookup_type: Some(GetBeatmapType::Id.name().to_owned()),
                    ..self
                };
                proof {
                    assert(r.params() =~= self.params().insert(
                        ParamKey::User,
                        spec_u64_str(id as nat),
                    ).insert(ParamKey::LookupType, "id"@));
                }
                r
            },
            GetBeatmapUser::Username(name) => {
                let r = GetBeatmapsRequest {
                    user: Some(name),
                    lookup_type: Some(GetBeatmapType::Username.name().to_owned()),
                    ..self
                };
                proof {
                    assert(r.params() =~= self.params().insert(ParamKey::User, r.user->0@).insert(
                        ParamKey::LookupType,
                        "string"@,
                    ));
                }
                r
            },
        }
    }
}

impl Default for GetBeatmapsRequest {
    /// A builder with no parameter set.
    fn default() -> (r: Self)
        ensures
            r.params() == Map::<ParamKey, Seq<char>>::empty(),
    {
        Self::new()
    }
}

/// A builder for the optional parameters of `get_scores`.
#[derive(Clone, Debug, PartialEq)]
pub struct GetScoreRequest {
    pub limit: Option<String>,
    pub mode: Option<String>,
    pub mods: Option<String>,
    pub lookup_type: Option<String>,
    pub user: Option<String>,
}

impl GetScoreRequest {
    /// The stored value under one key, if set.
    pub open spec fn spec_param(self, k: ParamKey) -> Option<Seq<char>> {
        match k {
            ParamKey::Limit => opt_view(self.limit),
            ParamKey::Mode => opt_view(self.mode),
            ParamKey::Mods => opt_view(self.mods),
            ParamKey::LookupType => opt_view(self.lookup_type),
            ParamKey::User => opt_view(self.user),
            _ => None,
        }
    }

    /// The assembled parameter set.
    pub open spec fn params(self) -> Map<ParamKey, Seq<char>> {
        Map::new(|k: ParamKey| self.spec_param(k) is Some, |k: ParamKey| self.spec_param(k)->0)
    }

    /// A builder with no parameter set.
    pub fn new() -> (r: Self)
        ensures
            r.params() == Map::<ParamKey, Seq<char>>::empty(),
    {
        let r = GetScoreRequest {
            limit: None,
            mode: None,
            mods: None,
            lookup_type: None,
            user: None,
        };
        proof {
            assert(r.params() =~= Map::<ParamKey, Seq<char>>::empty());
        }
        r
    }

    /// The number of results to retrieve at most.
    pub fn limit(self, limit: u16) -> (r: Self)
        ensures
            r.params() == self.params().insert(ParamKey::Limit, spec_u64_str(limit as nat)),
            opt_view(r.limit) == Some(spec_u64_str(limit as nat)),
            r == (GetScoreRequest { limit: r.limit, ..self }),
    {
        let r = GetScoreRequest { limit: Some(u64_to_string(limit as u64)), ..self };
        proof {
            assert(r.params() =~= self.params().insert(ParamKey::Limit, spec_u64_str(limit as nat)));
        }
        r
    }

    /// Specify the mode to filter by.
    pub fn mode(self, mode: PlayMode) -> (r: Self)
        ensures
            r.params() == self.params().insert(ParamKey::Mode, mode.spec_code()),
            opt_view(r.mode) == Some(mode.spec_code()),
            r == (GetScoreRequest { mode: r.mode, ..self }),
    {
        let r = GetScoreRequest { mode: Some(mode.code().to_owned()), ..self };
        proof {
            assert(r.params() =~= self.params().insert(ParamKey::Mode, mode.spec_code()));
        }
        r
    }

    /// Filter results to scores with these modifiers enabled.
    pub fn mods(self, mods: Mods) -> (r: Self)
        requires
            mods.wf(),
        ensures
            r.params() == self.params().insert(ParamKey::Mods, spec_u64_str(mods.bits as nat)),
            opt_view(r.mods) == Some(spec_u64_str(mods.bits as nat)),
            r == (GetScoreRequest { mods: r.mods, ..self }),
    {
        proof {
            crate::mods::lemma_truncate_wf(mods.bits);
        }
        let r = GetScoreRequest { mods: Some(u64_to_string(mods.bits() as u64)), ..self };
        proof {
            assert(r.params() =~= self.params().insert(ParamKey::Mods, spec_u64_str(mods.bits as nat)));
        }
        r
    }

    /// Specify the user to retrieve data for, and with it the lookup type:
    /// an ID sets `type` to `id`, a name sets it to `string`.
    pub fn user(self, user: GetBeatmapUser) -> (r: Self)
        ensures
            match user {
                GetBeatmapUser::UserId(id) => r.params() == self.params().insert(
                    ParamKey::User,
                    spec_u64_str(id as nat),
                ).insert(ParamKey::LookupType, "id"@),
                GetBeatmapUser::Username(name) => r.params() == self.params().insert(
                    ParamKey::User,
                    name@,
                ).insert(ParamKey::LookupType, "string"@),
            },
            opt_view(r.user) == Some(
                match user {
                    GetBeatmapUser::UserId(id) => spec_u64_str(id as nat),
                    GetBeatmapUser::Username(name) => name@,
                },
            ),
            opt_view(r.lookup_type) == Some(
                match user {
                    GetBeatmapUser::UserId(_) => "id"@,
                    GetBeatmapUser::Username(_) => "string"@,
                },
            ),
            r == (GetScoreRequest { user: r.user, lookup_type: r.lookup_type, ..self }),
    {
        match user {
            GetBeatmapUser::UserId(id) => {
                let r = GetScoreRequest {
                    user: Some(u64_to_string(id)),
                    lookup_type: Some(GetBeatmapType::Id.name().to_owned()),
                    ..self
                };
                proof {
                    assert(r.params() =~= self.params().insert(
                        ParamKey::User,
                        spec_u64_str(id as nat),
                    ).insert(ParamKey::LookupType, "id"@));
                }
                r
            },
            GetBeatmapUser::Username(name) => {
                let r = GetScoreRequest {
                    user: Some(name),
                    lookup_type: Some(GetBeatmapType::Username.name().to_owned()),
                    ..self
                };
                proof {
                    assert(r.params() =~= self.params().insert(ParamKey::User, r.user->0@).insert(
                        ParamKey::LookupType,
                        "string"@,
                    ));
                }
                r
            },
        }
    }
}

impl Default for GetScoreRequest {
    /// A builder with no parameter set.
    fn default() -> (r: Self)
        ensures
            r.params() == Map::<ParamKey, Seq<char>>::empty(),
    {
        Self::new()
    }
}

/// A builder for the optional parameters of `get_user_best`.
#[derive(Clone, Debug, PartialEq)]
pub struct GetUserBestRequest {
    pub limit: Option<String>,
    pub mode: Option<String>,
    pub lookup_type: Option<String>,
    pub user: Option<String>,
}

impl GetUserBestRequest {
    /// The stored value under one key, if set.
    pub open spec fn spec_param(self, k: ParamKey) -> Option<Seq<char>> {
        match k {
            ParamKey::Limit => opt_view(self.limit),
            ParamKey::Mode => opt_view(self.mode),
            ParamKey::LookupType => opt_view(self.lookup_type),
            ParamKey::User => opt_view(self.user),
            _ => None,
        }
    }

    /// The assembled parameter set.
    pub open spec fn params(self) -> Map<ParamKey, Seq<char>> {
        Map::new(|k: ParamKey| self.spec_param(k) is Some, |k: ParamKey| self.spec_param(k)->0)
    }

    /// A builder with no parameter set.
    pub fn new() -> (r: Self)
        ensures
            r.params() == Map::<ParamKey, Seq<char>>::empty(),
    {
        let r = GetUserBestRequest {
            limit: None,
            mode: None,
            lookup_type: None,
            user: None,
        };
        proof {
            assert(r.params() =~= Map::<ParamKey, Seq<char>>::empty());
        }
        r
    }

    /// The number of results to retrieve at most.
    pub fn limit(self, limit: u16) -> (r: Self)
        ensures
            r.params() == self.params().insert(ParamKey::Limit, spec_u64_str(limit as nat)),
            opt_view(r.limit) == Some(spec_u64_str(limit as nat)),
            r == (GetUserBestRequest { limit: r.limit, ..self }),
    {
        let r = GetUserBestRequest { limit: Some(u64_to_string(limit as u64)), ..self };
        proof {
            assert(r.params() =~= self.params().insert(ParamKey::Limit, spec_u64_str(limit as nat)));
        }
        r
    }

    /// Specify the mode to filter by.
    pub fn mode(self, mode: PlayMode) -> (r: Self)
        ensures
            r.params() == self.params().insert(ParamKey::Mode, mode.spec_code()),
            opt_view(r.mode) == Some(mode.spec_code()),
            r == (GetUserBestRequest { mode: r.mode, ..self }),
    {
        let r = GetUserBestRequest { mode: Some(mode.code().to_owned()), ..self };
        proof {
            assert(r.params() =~= self.params().insert(ParamKey::Mode, mode.spec_code()));
        }
        r
    }

    /// Specify the user to retrieve data for, and with it the lookup type:
    /// an ID sets `type` to `id`, a name sets it to `string`.
    pub fn user(self, user: GetBeatmapUser) -> (r: Self)
        ensures
            match user {
                GetBeatmapUser::UserId(id) => r.params() == self.params().insert(
                    ParamKey::User,
                    spec_u64_str(id as nat),
                ).insert(ParamKey::LookupType, "id"@),
                GetBeatmapUser::Username(name) => r.params() == self.params().insert(
                    ParamKey::User,
                    name@,
                ).insert(ParamKey::LookupType, "string"@),
            },
            opt_view(r.user) == Some(
                match user {
                    GetBeatmapUser::UserId(id) => spec_u64_str(id as nat),
                    GetBeatmapUser::Username(name) => name@,
                },
            ),
            opt_view(r.lookup_type) == Some(
                match user {
                    GetBeatmapUser::UserId(_) => "id"@,
                    GetBeatmapUser::Username(_) => "string"@,
                },
            ),
            r == (GetUserBestRequest { user: r.user, lookup_type: r.lookup_type, ..self }),
    {
        match user {
            GetBeatmapUser::UserId(id) => {
                let r = GetUserBestRequest {
                    user: Some(u64_to_string(id)),
                    lookup_type: Some(GetBeatmapType::Id.name().to_owned()),
                    ..self
                };
                proof {
                    assert(r.params() =~= self.params().insert(
                        ParamKey::User,
                        spec_u64_str(id as nat),
                    ).insert(ParamKey::LookupType, "id"@));
                }
                r
            },
            GetBeatmapUser::Username(name) => {
                let r = GetUserBestRequest {
                    user: Some(name),
                    lookup_type: Some(GetBeatmapType::Username.name().to_owned()),
                    ..self
                };
                proof {
                    assert(r.params() =~= self.params().insert(ParamKey::User, r.user->0@).insert(
                        ParamKey::LookupType,
                        "string"@,
                    ));
                }
                r
            },
        }
    }
}

impl Default for GetUserBestRequest {
    /// A builder with no parameter set.
    fn default() -> (r: Self)
        ensures
            r.params() == Map::<ParamKey, Seq<char>>::empty(),
    {
        Self::new()
    }
}

/// A builder for the optional parameters of `get_user_recent`.
#[derive(Clone, Debug, PartialEq)]
pub struct GetUserRecentRequest {
    pub limit: Option<String>,
    pub mode: Option<String>,
    pub lookup_type: Option<String>,
    pub user: Option<String>,
}

impl GetUserRecentRequest {
    /// The stored value under one key, if set.
    pub open spec fn spec_param(self, k: ParamKey) -> Option<Seq<char>> {
        match k {
            ParamKey::Limit => opt_view(self.limit),
            ParamKey::Mode => opt_view(self.mode),
            ParamKey::LookupType => opt_view(self.lookup_type),
            ParamKey::User => opt_view(self.user),
            _ => None,
        }
    }

    /// The assembled parameter set.
    pub open spec fn params(self) -> Map<ParamKey, Seq<char>> {
        Map::new(|k: ParamKey| self.spec_param(k) is Some, |k: ParamKey| self.spec_param(k)->0)
    }

    /// A builder with no parameter set.
    pub fn new() -> (r: Self)
        ensures
            r.params() == Map::<ParamKey, Seq<char>>::empty(),
    {
        let r = GetUserRecentRequest {
            limit: None,
            mode: None,
            lookup_type: None,
            user: None,
        };
        proof {
            assert(r.params() =~= Map::<ParamKey, Seq<char>>::empty());
        }
        r
    }

    /// The number of results to retrieve at most.
    pub fn limit(self, limit: u16) -> (r: Self)
        ensures
            r.params() == self.params().insert(ParamKey::Limit, spec_u64_str(limit as nat)),
            opt_view(r.limit) == Some(spec_u64_str(limit as nat)),
            r == (GetUserRecentRequest { limit: r.limit, ..self }),
    {
        let r = GetUserRecentRequest { limit: Some(u64_to_string(limit as u64)), ..self };
        proof {
            assert(r.params() =~= self.params().insert(ParamKey::Limit, spec_u64_str(limit as nat)));
        }
        r
    }

    /// Specify the mode to filter by.
    pub fn mode(self, mode: PlayMode) -> (r: Self)
        ensures
            r.params() == self.params().insert(ParamKey::Mode, mode.spec_code()),
            opt_view(r.mode) == Some(mode.spec_code()),
            r == (GetUserRecentRequest { mode: r.mode, ..self }),
    {
        let r = GetUserRecentRequest { mode: Some(mode.code().to_owned()), ..self };
        proof {
            assert(r.params() =~= self.params().insert(ParamKey::Mode, mode.spec_code()));
        }
        r
    }

    /// Specify the user to retrieve data for, and with it the lookup type:
    /// an ID sets `type` to `id`, a name sets it to `string`.
    pub fn user(self, user: GetBeatmapUser) -> (r: Self)
        ensures
            match user {
                GetBeatmapUser::UserId(id) => r.params() == self.params().insert(
                    ParamKey::User,
                    spec_u64_str(id as nat),
                ).insert(ParamKey::LookupType, "id"@),
                GetBeatmapUser::Username(name) => r.params() == self.params().insert(
                    ParamKey::User,
                    name@,
                ).insert(ParamKey::LookupType, "string"@),
            },
            opt_view(r.user) == Some(
                match user {
                    GetBeatmapUser::UserId(id) => spec_u64_str(id as nat),
                    GetBeatmapUser::Username(name) => name@,
                },
            ),
            opt_view(r.lookup_type) == Some(
                match user {
                    GetBeatmapUser::UserId(_) => "id"@,
                    GetBeatmapUser::Username(_) => "string"@,
                },
            ),
            r == (GetUserRecentRequest { user: r.user, lookup_type: r.lookup_type, ..self }),
    {
        match user {
            GetBeatmapUser::UserId(id) => {
                let r = GetUserRecentRequest {
                    user: Some(u64_to_string(id)),
                    lookup_type: Some(GetBeatmapType::Id.name().to_owned()),
                    ..self
                };
                proof {
                    assert(r.params() =~= self.params().insert(
                        ParamKey::User,
                        spec_u64_str(id as nat),
                    ).insert(ParamKey::LookupType, "id"@));
                }
                r
            },
            GetBeatmapUser::Username(name) => {
                let r = GetUserRecentRequest {
                    user: Some(name),
                    lookup_type: Some(GetBeatmapType::Username.name().to_owned()),
                    ..self
                };
                proof {
                    assert(r.params() =~= self.params().insert(ParamKey::User, r.user->0@).insert(
                        ParamKey::LookupType,
                        "string"@,
                    ));
                }
                r
            },
        }
    }
}

impl Default for GetUserRecentRequest {
    /// A builder with no parameter set.
    fn default() -> (r: Self)
        ensures
            r.params() == Map::<ParamKey, Seq<char>>::empty(),
    {
        Self::new()
    }
}

/// A builder for the optional parameters of `get_user`.
#[derive(Clone, Debug, PartialEq)]
pub struct GetUserRequest {
    pub event_days: Option<String>,
    pub mode: Option<String>,
    pub lookup_type: Option<String>,
    pub user: Option<String>,
}

impl GetUserRequest {
    /// The stored value under one key, if set.
    pub open spec fn spec_param(self, k: ParamKey) -> Option<Seq<char>> {
        match k {
            ParamKey::EventDays => opt_view(self.event_days),
            ParamKey::Mode => opt_view(self.mode),
            ParamKey::LookupType => opt_view(self.lookup_type),
            ParamKey::User => opt_view(self.user),
            _ => None,
        }
    }

    /// The assembled parameter set.
    pub open spec fn params(self) -> Map<ParamKey, Seq<char>> {
        Map::new(|k: ParamKey| self.spec_param(k) is Some, |k: ParamKey| self.spec_param(k)->0)
    }

    /// A builder with no parameter set.
    pub fn new() -> (r: Self)
        ensures
            r.params() == Map::<ParamKey, Seq<char>>::empty(),
    {
        let r = GetUserRequest {
            event_days: None,
            mode: None,
            lookup_type: None,
            user: None,
        };
        proof {
            assert(r.params() =~= Map::<ParamKey, Seq<char>>::empty());
        }
        r
    }

    /// The number of event days to filter by.
    pub fn event_days(self, event_days: u8) -> (r: Self)
        ensures
            r.params() == self.params().insert(ParamKey::EventDays, spec_u64_str(event_days as nat)),
            opt_view(r.event_days) == Some(spec_u64_str(event_days as nat)),
            r == (GetUserRequest { event_days: r.event_days, ..self }),
    {
        let r = GetUserRequest { event_days: Some(u64_to_string(event_days as u64)), ..self };
        proof {
            assert(r.params() =~= self.params().insert(ParamKey::EventDays, spec_u64_str(event_days as nat)));
        }
        r
    }

    /// Specify the mode to filter by.
    pub fn mode(self, mode: PlayMode) -> (r: Self)
        ensures
            r.params() == self.params().insert(ParamKey::Mode, mode.spec_code()),
            opt_view(r.mode) == Some(mode.spec_code()),
            r == (GetUserRequest { mode: r.mode, ..self }),
    {
        let r = GetUserRequest { mode: Some(mode.code().to_owned()), ..self };
        proof {
            assert(r.params() =~= self.params().insert(ParamKey::Mode, mode.spec_code()));
        }
        r
    }

    /// Specify the user to retrieve data for, and with it the lookup type:
    /// an ID sets `type` to `id`, a name sets it to `string`.
    pub fn user(self, user: GetBeatmapUser) -> (r: Self)
        ensures
            match user {
                GetBeatmapUser::UserId(id) => r.params() == self.params().insert(
                    ParamKey::User,
                    spec_u64_str(id as nat),
                ).insert(ParamKey::LookupType, "id"@),
                GetBeatmapUser::Username(name) => r.params() == self.params().insert(
                    ParamKey::User,
                    name@,
                ).insert(ParamKey::LookupType, "string"@),
            },
            opt_view(r.user) == Some(
                match user {
                    GetBeatmapUser::UserId(id) => spec_u64_str(id as nat),
                    GetBeatmapUser::Username(name) => name@,
                },
            ),
            opt_view(r.lookup_type) == Some(
                match user {
                    GetBeatmapUser::UserId(_) => "id"@,
                    GetBeatmapUser::Username(_) => "string"@,
                },
            ),
            r == (GetUserRequest { user: r.user, lookup_type: r.lookup_type, ..self }),
    {
        match user {
            GetBeatmapUser::UserId(id) => {
                let r = GetUserRequest {
                    user: Some(u64_to_string(id)),
                    lookup_type: Some(GetBeatmapType::Id.name().to_owned()),
                    ..self
                };
                proof {
                    assert(r.params() =~= self.params().insert(
                        ParamKey::User,
                        spec_u64_str(id as nat),
                    ).insert(ParamKey::LookupType, "id"@));
                }
                r
            },
            GetBeatmapUser::Username(name) => {
                let r = GetUserRequest {
                    user: Some(name),
                    lookup_type: Some(GetBeatmapType::Username.name().to_owned()),
                    ..self
                };
                proof {
                    assert(r.params() =~= self.params().insert(ParamKey::User, r.user->0@).insert(
                        ParamKey::LookupType,
                        "string"@,
                    ));
                }
                r
            },
        }
    }
}

impl Default for GetUserRequest {
    /// A builder with no parameter set.
    fn default() -> (r: Self)
        ensures
            r.params() == Map::<ParamKey, Seq<char>>::empty(),
    {
        Self::new()
    }
}


/// Law: writing a parameter and reading the set back finds exactly that
/// key with that value; a later write to a key overwrites an earlier one;
/// and no other key is touched.
pub proof fn lemma_last_write_wins(
    m: Map<ParamKey, Seq<char>>,
    k: ParamKey,
    v1: Seq<char>,
    v2: Seq<char>,
)
    ensures
        m.insert(k, v1).insert(k, v2) == m.insert(k, v2),
        m.insert(k, v2).contains_key(k),
        m.insert(k, v2)[k] == v2,
        forall|k2: ParamKey| k2 != k ==> m.insert(k, v2).contains_key(k2) == m.contains_key(k2),
        forall|k2: ParamKey|
            k2 != k && m.contains_key(k2) ==> m.insert(k, v2)[k2] == m[k2],
{
    assert(m.insert(k, v1).insert(k, v2) =~= m.insert(k, v2));
}

} // verus!\n