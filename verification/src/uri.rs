//! The URI assembler: the endpoint URL, the API key, any required numeric
//! ID, and then every set optional parameter as an `&name=value` pair, in a
//! fixed lexicographic key order, so that the same inputs always give the
//! same URL.
//!
//! Parameter values are inserted verbatim. No percent-encoding is
//! performed; that reproduces the external API binding's historical wire
//! behaviour and is a known limitation for values holding reserved
//! characters.

use vstd::prelude::*;
use vstd::string::StringExecFns;
use crate::builder::{
    GetBeatmapsRequest, GetScoreRequest, GetUserBestRequest, GetUserRecentRequest, GetUserRequest,
};
use crate::numeral::{spec_u64_str, u64_to_string};
use crate::{GetBeatmapUser, API_URL};

verus! {

/// The `&name=value` pair an optional parameter adds: nothing where unset.
pub open spec fn spec_pair(name: Seq<char>, v: Option<String>) -> Seq<char> {
    match v {
        Some(s) => "&"@ + name + "="@ + s@,
        None => Seq::empty(),
    }
}

fn append_pair(uri: &mut String, name: &str, v: &Option<String>)
    ensures
        final(uri)@ == old(uri)@ + spec_pair(name@, *v),
{
    match v {
        Some(s) => {
            uri.append("&");
            uri.append(name);
            uri.append("=");
            uri.append(s.as_str());
            proof {
                assert(uri@ =~= old(uri)@ + ("&"@ + name@ + "="@ + s@));
            }
        },
        None => {
            proof {
                assert(uri@ =~= old(uri)@ + Seq::<char>::empty());
            }
        },
    }
}

/// The `&type=...&u=...` pairs a user argument adds: the lookup type `id`
/// for a numeric ID and `string` for a name, then the user itself.
pub open spec fn spec_user_suffix(user: GetBeatmapUser) -> Seq<char> {
    match user {
        GetBeatmapUser::UserId(id) => "&type=id&u="@ + spec_u64_str(id as nat),
        GetBeatmapUser::Username(name) => "&type=string&u="@ + name@,
    }
}

fn append_user(uri: &mut String, user: &GetBeatmapUser)
    ensures
        final(uri)@ == old(uri)@ + spec_user_suffix(*user),
{
    match user {
        GetBeatmapUser::UserId(id) => {
            uri.append("&type=id&u=");
            let digits = u64_to_string(*id);
            uri.append(digits.as_str());
            proof {
                assert(uri@ =~= old(uri)@ + ("&type=id&u="@ + spec_u64_str(*id as nat)));
            }
        },
        GetBeatmapUser::Username(name) => {
            uri.append("&type=string&u=");
            uri.append(name.as_str());
            proof {
                assert(uri@ =~= old(uri)@ + ("&type=string&u="@ + name@));
            }
        },
    }
}

/// The URL of a `get_beatmaps` request: the endpoint, the key, and the
/// builder's parameters in lexicographic key order.
pub open spec fn spec_get_beatmaps_uri(key: Seq<char>, b: GetBeatmapsRequest) -> Seq<char> {
    API_URL@ + "/get_beatmaps?k="@ + key + spec_pair("a"@, b.include_converted) + spec_pair(
        "b"@,
        b.beatmap_id,
    ) + spec_pair("h"@, b.hash) + spec_pair("limit"@, b.limit) + spec_pair("m"@, b.mode)
        + spec_pair("s"@, b.beatmap_set_id) + spec_pair("since"@, b.since) + spec_pair(
        "type"@,
        b.lookup_type,
    ) + spec_pair("u"@, b.user)
}

/// Assembles the URL of a `get_beatmaps` request.
pub fn get_beatmaps_uri(key: &str, req: &GetBeatmapsRequest) -> (r: String)
    ensures
        r@ == spec_get_beatmaps_uri(key@, *req),
{
    let mut uri = String::new();
    uri.append(API_URL);
    uri.append("/get_beatmaps?k=");
    uri.append(key);
    append_pair(&mut uri, "a", &req.include_converted);
    append_pair(&mut uri, "b", &req.beatmap_id);
    append_pair(&mut uri, "h", &req.hash);
    append_pair(&mut uri, "limit", &req.limit);
    append_pair(&mut uri, "m", &req.mode);
    append_pair(&mut uri, "s", &req.beatmap_set_id);
    append_pair(&mut uri, "since", &req.since);
    append_pair(&mut uri, "type", &req.lookup_type);
    append_pair(&mut uri, "u", &req.user);
    proof {
        assert(uri@ =~= spec_get_beatmaps_uri(key@, *req));
    }
    uri
}

/// The URL of a `get_match` request: the endpoint, the key, and the match
/// ID.
pub open spec fn spec_get_match_uri(key: Seq<char>, match_id: u64) -> Seq<char> {
    API_URL@ + "/get_match?k="@ + key + "&mp="@ + spec_u64_str(match_id as nat)
}

/// Assembles the URL of a `get_match` request.
pub fn get_match_uri(key: &str, match_id: u64) -> (r: String)
    ensures
        r@ == spec_get_match_uri(key@, match_id),
{
    let mut uri = String::new();
    uri.append(API_URL);
    uri.append("/get_match?k=");
    uri.append(key);
    uri.append("&mp=");
    let digits = u64_to_string(match_id);
    uri.append(digits.as_str());
    proof {
        assert(uri@ =~= spec_get_match_uri(key@, match_id));
    }
    uri
}

/// The URL of a `get_scores` request: the endpoint, the key, the required
/// beatmap ID, and the builder's parameters in lexicographic key order.
pub open spec fn spec_get_scores_uri(key: Seq<char>, beatmap_id: u64, b: GetScoreRequest) -> Seq<
    char,
> {
    API_URL@ + "/get_scores?k="@ + key + "&b="@ + spec_u64_str(beatmap_id as nat) + spec_pair(
        "limit"@,
        b.limit,
    ) + spec_pair("m"@, b.mode) + spec_pair("mods"@, b.mods) + spec_pair("type"@, b.lookup_type)
        + spec_pair("u"@, b.user)
}

/// Assembles the URL of a `get_scores` request.
pub fn get_scores_uri(key: &str, beatmap_id: u64, req: &GetScoreRequest) -> (r: String)
    ensures
        r@ == spec_get_scores_uri(key@, beatmap_id, *req),
{
    let mut uri = String::new();
    uri.append(API_URL);
    uri.append("/get_scores?k=");
    uri.append(key);
    uri.append("&b=");
    let digits = u64_to_string(beatmap_id);
    uri.append(digits.as_str());
    append_pair(&mut uri, "limit", &req.limit);
    append_pair(&mut uri, "m", &req.mode);
    append_pair(&mut uri, "mods", &req.mods);
    append_pair(&mut uri, "type", &req.lookup_type);
    append_pair(&mut uri, "u", &req.user);
    proof {
        assert(uri@ =~= spec_get_scores_uri(key@, beatmap_id, *req));
    }
    uri
}

/// The URL of a `get_user` request: the endpoint, the key, the builder's
/// parameters, and then the required user reference, which always writes
/// the `type` and `u` parameters and overrides any the builder set.
pub open spec fn spec_get_user_uri(key: Seq<char>, user: GetBeatmapUser, b: GetUserRequest) -> Seq<
    char,
> {
    API_URL@ + "/get_user?k="@ + key + spec_pair("event_days"@, b.event_days) + spec_pair(
        "m"@,
        b.mode,
    ) + spec_user_suffix(user)
}

/// Assembles the URL of a `get_user` request.
pub fn get_user_uri(key: &str, user: &GetBeatmapUser, req: &GetUserRequest) -> (r: String)
    ensures
        r@ == spec_get_user_uri(key@, *user, *req),
{
    let mut uri = String::new();
    uri.append(API_URL);
    uri.append("/get_user?k=");
    uri.append(key);
    append_pair(&mut uri, "event_days", &req.event_days);
    append_pair(&mut uri, "m", &req.mode);
    append_user(&mut uri, user);
    proof {
        assert(uri@ =~= spec_get_user_uri(key@, *user, *req));
    }
    uri
}

/// The URL of a `get_user_best` request: the endpoint, the key, the
/// builder's parameters, and then the required user reference, which always
/// writes the `type` and `u` parameters and overrides any the builder set.
pub open spec fn spec_get_user_best_uri(
    key: Seq<char>,
    user: GetBeatmapUser,
    b: GetUserBestRequest,
) -> Seq<char> {
    API_URL@ + "/get_user_best?k="@ + key + spec_pair("limit"@, b.limit) + spec_pair("m"@, b.mode)
        + spec_user_suffix(user)
}

/// Assembles the URL of a `get_user_best` request.
pub fn get_user_best_uri(key: &str, user: &GetBeatmapUser, req: &GetUserBestRequest) -> (r: String)
    ensures
        r@ == spec_get_user_best_uri(key@, *user, *req),
{
    let mut uri = String::new();
    uri.append(API_URL);
    uri.append("/get_user_best?k=");
    uri.append(key);
    append_pair(&mut uri, "limit", &req.limit);
    append_pair(&mut uri, "m", &req.mode);
    append_user(&mut uri, user);
    proof {
        assert(uri@ =~= spec_get_user_best_uri(key@, *user, *req));
    }
    uri
}

/// The URL of a `get_user_recent` request: the endpoint, the key, the
/// builder's parameters, and then the required user reference, which always
/// writes the `type` and `u` parameters and overrides any the builder set.
pub open spec fn spec_get_user_recent_uri(
    key: Seq<char>,
    user: GetBeatmapUser,
    b: GetUserRecentRequest,
) -> Seq<char> {
    API_URL@ + "/get_user_recent?k="@ + key + spec_pair("limit"@, b.limit) + spec_pair(
        "m"@,
        b.mode,
    ) + spec_user_suffix(user)
}

/// Assembles the URL of a `get_user_recent` request.
pub fn get_user_recent_uri(key: &str, user: &GetBeatmapUser, req: &GetUserRecentRequest) -> (r:
    String)
    ensures
        r@ == spec_get_user_recent_uri(key@, *user, *req),
{
    let mut uri = String::new();
    uri.append(API_URL);
    uri.append("/get_user_recent?k=");
    uri.append(key);
    append_pair(&mut uri, "limit", &req.limit);
    append_pair(&mut uri, "m", &req.mode);
    append_user(&mut uri, user);
    proof {
        assert(uri@ =~= spec_get_user_recent_uri(key@, *user, *req));
    }
    uri
}

} // verus!
