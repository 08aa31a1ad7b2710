use osu::builder::{
    GetBeatmapsRequest, GetScoreRequest, GetUserBestRequest, GetUserRecentRequest, GetUserRequest,
};
use osu::enums::PlayMode;
use osu::uri::{
    get_beatmaps_uri, get_match_uri, get_scores_uri, get_user_best_uri, get_user_recent_uri,
    get_user_uri,
};
use osu::{GetBeatmapUser, API_URL};

#[test]
fn base_url() {
    assert_eq!(API_URL, "https://osu.ppy.sh/api");
}

#[test]
fn match_uri_is_exact() {
    let uri = get_match_uri("SECRET", 71641);
    assert_eq!(uri, "https://osu.ppy.sh/api/get_match?k=SECRET&mp=71641");
}

#[test]
fn beatmaps_uri_with_no_options() {
    let uri = get_beatmaps_uri("key", &GetBeatmapsRequest::default());
    assert_eq!(uri, "https://osu.ppy.sh/api/get_beatmaps?k=key");
}

#[test]
fn beatmaps_uri_orders_parameters_by_key() {
    let req = GetBeatmapsRequest::default()
        .since("2017-01-01")
        .beatmap_set_id(332952)
        .include_converted(false)
        .limit(3)
        .mode(PlayMode::Standard)
        .hash("d0")
        .beatmap_id(774965)
        .user(GetBeatmapUser::UserId(2));
    let uri = get_beatmaps_uri("key", &req);
    assert_eq!(
        uri,
        "https://osu.ppy.sh/api/get_beatmaps?k=key&a=false&b=774965&h=d0&limit=3&m=0&s=332952&since=2017-01-01&type=id&u=2"
    );
}

#[test]
fn scores_uri_has_required_beatmap_id_and_limit() {
    let req = GetScoreRequest::default().limit(10);
    let uri = get_scores_uri("key", 774965, &req);
    assert!(uri.contains("&b=774965"));
    assert!(uri.contains("&limit=10"));
    assert_eq!(uri, "https://osu.ppy.sh/api/get_scores?k=key&b=774965&limit=10");
}

#[test]
fn scores_uri_with_mods_and_user() {
    let req = GetScoreRequest::default()
        .limit(5)
        .mode(PlayMode::Mania)
        .mods(osu::Mods::from_bits_truncate(9))
        .user(GetBeatmapUser::Username("abc".to_string()));
    let uri = get_scores_uri("key", 191904, &req);
    assert_eq!(
        uri,
        "https://osu.ppy.sh/api/get_scores?k=key&b=191904&limit=5&m=3&mods=9&type=string&u=abc"
    );
}

#[test]
fn user_uri_appends_user_last() {
    let req = GetUserRequest::default().event_days(3).mode(PlayMode::Taiko);
    let uri = get_user_uri("key", &GetBeatmapUser::Username("cookiezi".to_string()), &req);
    assert_eq!(
        uri,
        "https://osu.ppy.sh/api/get_user?k=key&event_days=3&m=1&type=string&u=cookiezi"
    );
}

#[test]
fn user_best_uri() {
    let req = GetUserBestRequest::default().limit(10);
    let uri = get_user_best_uri("key", &GetBeatmapUser::UserId(8), &req);
    assert_eq!(uri, "https://osu.ppy.sh/api/get_user_best?k=key&limit=10&type=id&u=8");
}

#[test]
fn user_recent_uri() {
    let req = GetUserRecentRequest::default();
    let uri = get_user_recent_uri("key", &GetBeatmapUser::UserId(8), &req);
    assert_eq!(uri, "https://osu.ppy.sh/api/get_user_recent?k=key&type=id&u=8");
}

#[test]
fn user_argument_overrides_builder_user() {
    let req = GetUserRequest::default().user(GetBeatmapUser::Username("old".to_string()));
    let uri = get_user_uri("key", &GetBeatmapUser::UserId(7), &req);
    assert_eq!(uri, "https://osu.ppy.sh/api/get_user?k=key&type=id&u=7");
}

#[test]
fn values_are_inserted_verbatim() {
    let req = GetBeatmapsRequest::default().hash("a b&c=d");
    let uri = get_beatmaps_uri("key", &req);
    assert_eq!(uri, "https://osu.ppy.sh/api/get_beatmaps?k=key&h=a b&c=d");
}

#[test]
fn beatmaps_uri_with_id_and_limit() {
    let req = GetBeatmapsRequest::default().beatmap_id(774965).limit(10);
    let uri = get_beatmaps_uri("key", &req);
    assert!(uri.contains("&b=774965"));
    assert!(uri.contains("&limit=10"));
}
