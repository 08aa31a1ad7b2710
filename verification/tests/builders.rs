use osu::builder::{
    GetBeatmapType, GetBeatmapsRequest, GetScoreRequest, GetUserBestRequest, GetUserRecentRequest,
    GetUserRequest,
};
use osu::enums::PlayMode;
use osu::mods::{Mods, HIDDEN};
use osu::GetBeatmapUser;

#[test]
fn builders_start_empty() {
    let b = GetBeatmapsRequest::default();
    assert_eq!(b.beatmap_id, None);
    assert_eq!(b.beatmap_set_id, None);
    assert_eq!(b.hash, None);
    assert_eq!(b.include_converted, None);
    assert_eq!(b.limit, None);
    assert_eq!(b.mode, None);
    assert_eq!(b.since, None);
    assert_eq!(b.user, None);
    assert_eq!(b.lookup_type, None);
}

#[test]
fn setter_writes_exactly_its_key() {
    let b = GetBeatmapsRequest::default().beatmap_id(774965);
    assert_eq!(b.beatmap_id, Some("774965".to_string()));
    assert_eq!(b.beatmap_set_id, None);
    assert_eq!(b.hash, None);
    assert_eq!(b.include_converted, None);
    assert_eq!(b.limit, None);
    assert_eq!(b.mode, None);
    assert_eq!(b.since, None);
    assert_eq!(b.user, None);
    assert_eq!(b.lookup_type, None);
}

#[test]
fn last_write_wins() {
    let b = GetBeatmapsRequest::default().limit(10).limit(20);
    assert_eq!(b.limit, Some("20".to_string()));
    let s = GetScoreRequest::default()
        .mods(Mods::from_bits_truncate(HIDDEN))
        .mods(Mods::from_bits_truncate(0));
    assert_eq!(s.mods, Some("0".to_string()));
}

#[test]
fn every_beatmaps_setter() {
    let b = GetBeatmapsRequest::default()
        .beatmap_id(1)
        .beatmap_set_id(2)
        .hash("deadbeef")
        .include_converted(true)
        .limit(500)
        .mode(PlayMode::Mania)
        .since("2017-01-01");
    assert_eq!(b.beatmap_id, Some("1".to_string()));
    assert_eq!(b.beatmap_set_id, Some("2".to_string()));
    assert_eq!(b.hash, Some("deadbeef".to_string()));
    assert_eq!(b.include_converted, Some("true".to_string()));
    assert_eq!(b.limit, Some("500".to_string()));
    assert_eq!(b.mode, Some("3".to_string()));
    assert_eq!(b.since, Some("2017-01-01".to_string()));
}

#[test]
fn user_by_id_sets_type_id() {
    let b = GetBeatmapsRequest::default().user(GetBeatmapUser::UserId(1234));
    assert_eq!(b.user, Some("1234".to_string()));
    assert_eq!(b.lookup_type, Some("id".to_string()));

    let s = GetScoreRequest::default().user(GetBeatmapUser::from(1234u64));
    assert_eq!(s.user, Some("1234".to_string()));
    assert_eq!(s.lookup_type, Some("id".to_string()));

    let ub = GetUserBestRequest::default().user(GetBeatmapUser::UserId(8));
    assert_eq!(ub.lookup_type, Some("id".to_string()));

    let ur = GetUserRecentRequest::default().user(GetBeatmapUser::UserId(8));
    assert_eq!(ur.lookup_type, Some("id".to_string()));

    let u = GetUserRequest::default().user(GetBeatmapUser::UserId(8));
    assert_eq!(u.lookup_type, Some("id".to_string()));
}

#[test]
fn user_by_name_sets_type_string() {
    let b = GetBeatmapsRequest::default().user(GetBeatmapUser::from("cookiezi"));
    assert_eq!(b.user, Some("cookiezi".to_string()));
    assert_eq!(b.lookup_type, Some("string".to_string()));

    let s = GetScoreRequest::default().user(GetBeatmapUser::Username("cookiezi".to_string()));
    assert_eq!(s.user, Some("cookiezi".to_string()));
    assert_eq!(s.lookup_type, Some("string".to_string()));

    let u = GetUserRequest::default().user(GetBeatmapUser::from("cookiezi".to_string()));
    assert_eq!(u.lookup_type, Some("string".to_string()));
}

#[test]
fn user_overwrites_previous_user() {
    let b = GetBeatmapsRequest::default()
        .user(GetBeatmapUser::Username("cookiezi".to_string()))
        .user(GetBeatmapUser::UserId(124493));
    assert_eq!(b.user, Some("124493".to_string()));
    assert_eq!(b.lookup_type, Some("id".to_string()));
}

#[test]
fn lookup_type_names() {
    assert_eq!(GetBeatmapType::Id.name(), "id");
    assert_eq!(GetBeatmapType::Username.name(), "string");
}

#[test]
fn score_request_setters() {
    let s = GetScoreRequest::default()
        .limit(5)
        .mode(PlayMode::Standard)
        .mods(Mods::from_bits_truncate(1));
    assert_eq!(s.limit, Some("5".to_string()));
    assert_eq!(s.mode, Some("0".to_string()));
    assert_eq!(s.mods, Some("1".to_string()));
}

#[test]
fn user_request_setters() {
    let u = GetUserRequest::default().event_days(3).mode(PlayMode::Taiko);
    assert_eq!(u.event_days, Some("3".to_string()));
    assert_eq!(u.mode, Some("1".to_string()));
    let ub = GetUserBestRequest::default().limit(10).mode(PlayMode::CatchTheBeat);
    assert_eq!(ub.limit, Some("10".to_string()));
    assert_eq!(ub.mode, Some("2".to_string()));
    let ur = GetUserRecentRequest::default().limit(10);
    assert_eq!(ur.limit, Some("10".to_string()));
}
