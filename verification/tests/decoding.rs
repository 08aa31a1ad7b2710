use osu::decode::{
    decode_beatmap, decode_beatmaps, decode_game, decode_game_score, decode_match,
    decode_match_score, decode_performance, decode_scores, decode_user,
    decode_user_best, decode_user_event, decode_user_recent, decode_users,
};
use osu::json::{parse_json, JsonValue};
use osu::mods::{DOUBLE_TIME, HIDDEN, NIGHTCORE};
use osu::{Approval, Error, Genre, Language, PlayMode, ScoringType, TeamType};

fn beatmap_object() -> String {
    "{\"approved\":\"1\",\"approved_date\":\"2015-07-09 13:22:24\",\"artist\":\"Night Artist\",\"beatmap_id\":\"774965\",\"beatmapset_id\":\"332952\",\"bpm\":\"196\",\"creator\":\"mapper\",\"difficultyrating\":\"5.74\",\"diff_approach\":\"9.3\",\"diff_drain\":\"6\",\"diff_overall\":\"8.5\",\"diff_size\":\"4\",\"favourite_count\":\"1002\",\"file_md5\":\"1f2a3b\",\"genre_id\":\"3\",\"hit_length\":\"90\",\"language_id\":\"3\",\"last_update\":\"2015-07-09 13:22:24\",\"max_combo\":\"390\",\"mode\":\"0\",\"passcount\":\"441\",\"playcount\":\"6058\",\"source\":\"some show\",\"tags\":\"op tv size\",\"title\":\"A Title\",\"total_length\":\"120\",\"version\":\"Extra\"}"
    .to_string()
}

fn performance_object(perfect: &str) -> String {
    format!(
        "{{\"beatmap_id\":\"774965\",\"count100\":\"12\",\"count300\":\"548\",\"count50\":\"0\",\"countgeki\":\"141\",\"countkatu\":\"9\",\"countmiss\":\"1\",\"date\":\"2016-01-01 00:00:00\",\"enabled_mods\":\"72\",\"maxcombo\":\"858\",\"perfect\":\"{}\",\"pp\":\"266.152\",\"rank\":\"A\",\"score\":\"12345678\",\"user_id\":\"39828\"}}",
        perfect
    )
}

#[test]
fn beatmap_round_trip() {
    let text = format!("[{}]", beatmap_object());
    let list = decode_beatmaps(&text).expect("decode beatmaps");
    assert_eq!(list.len(), 1);
    let b = &list[0];
    assert!(matches!(b.approved, Approval::Ranked));
    assert_eq!(b.approved_date, Some("2015-07-09 13:22:24".to_string()));
    assert_eq!(b.artist, "Night Artist");
    assert_eq!(b.beatmap_id, 774965);
    assert_eq!(b.beatmapset_id, 332952);
    assert_eq!(b.bpm, "196");
    assert_eq!(b.creator, "mapper");
    assert_eq!(b.difficulty_rating, "5.74");
    assert_eq!(b.diff_approach, "9.3");
    assert_eq!(b.diff_drain, "6");
    assert_eq!(b.diff_overall, "8.5");
    assert_eq!(b.diff_size, "4");
    assert_eq!(b.favourite_count, 1002);
    assert_eq!(b.file_md5, "1f2a3b");
    assert!(matches!(b.genre_id, Genre::Anime));
    assert_eq!(b.hit_length, 90);
    assert!(matches!(b.language_id, Language::Japanese));
    assert_eq!(b.max_combo, Some(390));
    assert_eq!(b.mode, 0);
    assert_eq!(b.pass_count, 441);
    assert_eq!(b.play_count, 6058);
    assert_eq!(b.source, "some show");
    assert_eq!(b.tags, "op tv size");
    assert_eq!(b.title, "A Title");
    assert_eq!(b.total_length, 120);
    assert_eq!(b.version, "Extra");

    let again = decode_beatmaps(&text).expect("decode beatmaps twice");
    assert_eq!(list, again);
}

#[test]
fn beatmap_accepts_bare_numbers_too() {
    let text = beatmap_object().replace("\"beatmap_id\":\"774965\"", "\"beatmap_id\":774965");
    let v = parse_json(&text).expect("parse");
    let b = decode_beatmap(v).expect("decode");
    assert_eq!(b.beatmap_id, 774965);
}

#[test]
fn numeric_string_zero_decodes_to_zero() {
    let text = beatmap_object().replace("\"hit_length\":\"90\"", "\"hit_length\":\"0\"");
    let v = parse_json(&text).expect("parse");
    let b = decode_beatmap(v).expect("decode");
    assert_eq!(b.hit_length, 0);
}

#[test]
fn non_numeric_string_names_the_field() {
    let text = beatmap_object().replace("\"hit_length\":\"90\"", "\"hit_length\":\"abc\"");
    let v = parse_json(&text).expect("parse");
    let e = decode_beatmap(v).expect_err("must fail");
    match e {
        Error::Decode(field, raw) => {
            assert_eq!(field, "hit_length");
            assert!(matches!(raw, JsonValue::Str(s) if s == "abc"));
        },
        other => panic!("wrong error kind: {:?}", other),
    }
}

#[test]
fn unknown_genre_code_is_invalid_enum_code() {
    let text = beatmap_object().replace("\"genre_id\":\"3\"", "\"genre_id\":\"99\"");
    let v = parse_json(&text).expect("parse");
    let e = decode_beatmap(v).expect_err("must fail");
    match e {
        Error::InvalidEnumCode(field, code) => {
            assert_eq!(field, "genre_id");
            assert_eq!(code, "99");
        },
        other => panic!("wrong error kind: {:?}", other),
    }
}

#[test]
fn missing_field_is_a_decode_error() {
    let text = beatmap_object().replace("\"creator\":\"mapper\",", "");
    let v = parse_json(&text).expect("parse");
    let e = decode_beatmap(v).expect_err("must fail");
    match e {
        Error::Decode(field, raw) => {
            assert_eq!(field, "creator");
            assert!(matches!(raw, JsonValue::Null));
        },
        other => panic!("wrong error kind: {:?}", other),
    }
}

#[test]
fn absent_optional_fields_are_none() {
    let text = beatmap_object()
        .replace("\"approved_date\":\"2015-07-09 13:22:24\",", "")
        .replace("\"max_combo\":\"390\",", "");
    let v = parse_json(&text).expect("parse");
    let b = decode_beatmap(v).expect("decode");
    assert_eq!(b.approved_date, None);
    assert_eq!(b.max_combo, None);
}

#[test]
fn null_optional_fields_are_none() {
    let text = beatmap_object()
        .replace("\"approved_date\":\"2015-07-09 13:22:24\"", "\"approved_date\":null")
        .replace("\"max_combo\":\"390\"", "\"max_combo\":null");
    let v = parse_json(&text).expect("parse");
    let b = decode_beatmap(v).expect("decode");
    assert_eq!(b.approved_date, None);
    assert_eq!(b.max_combo, None);
}

#[test]
fn bad_fraction_names_the_field() {
    let text = beatmap_object().replace("\"bpm\":\"196\"", "\"bpm\":\"fast\"");
    let v = parse_json(&text).expect("parse");
    let e = decode_beatmap(v).expect_err("must fail");
    assert!(matches!(e, Error::Decode(field, _) if field == "bpm"));
}

#[test]
fn malformed_json_is_a_decode_error() {
    let e = decode_beatmaps("[{").expect_err("must fail");
    assert!(matches!(e, Error::Decode(_, _)));
    let e2 = decode_match("not json").expect_err("must fail");
    assert!(matches!(e2, Error::Decode(_, _)));
}

#[test]
fn body_that_is_not_an_array_fails() {
    let e = decode_beatmaps(&beatmap_object()).expect_err("must fail");
    assert!(matches!(e, Error::Decode(_, JsonValue::Object(_))));
}

#[test]
fn first_failing_element_fails_the_list() {
    let good = beatmap_object();
    let bad = beatmap_object().replace("\"genre_id\":\"3\"", "\"genre_id\":\"99\"");
    let text = format!("[{},{}]", good, bad);
    let e = decode_beatmaps(&text).expect_err("must fail");
    assert!(matches!(e, Error::InvalidEnumCode(_, _)));
}

#[test]
fn performance_perfect_flag() {
    let list = decode_user_best(&format!("[{}]", performance_object("1"))).expect("decode");
    assert!(list[0].perfect);
    let list = decode_user_best(&format!("[{}]", performance_object("0"))).expect("decode");
    assert!(!list[0].perfect);
    let e = decode_user_best(&format!("[{}]", performance_object("2"))).expect_err("must fail");
    assert!(matches!(e, Error::Decode(field, _) if field == "perfect"));
}

#[test]
fn performance_fields() {
    let v = parse_json(&performance_object("1")).expect("parse");
    let p = decode_performance(v).expect("decode");
    assert_eq!(p.beatmap_id, 774965);
    assert_eq!(p.count_100, 12);
    assert_eq!(p.count_300, 548);
    assert_eq!(p.count_50, 0);
    assert_eq!(p.count_geki, 141);
    assert_eq!(p.count_katu, 9);
    assert_eq!(p.count_miss, 1);
    assert_eq!(p.date, "2016-01-01 00:00:00");
    assert_eq!(p.enabled_mods.bits(), DOUBLE_TIME | HIDDEN);
    assert_eq!(p.max_combo, 858);
    assert_eq!(p.pp, "266.152");
    assert_eq!(p.rank, "A");
    assert_eq!(p.score, 12345678);
    assert_eq!(p.user_id, 39828);
}

#[test]
fn mods_integer_eight_is_exactly_hidden() {
    let text = performance_object("1").replace("\"enabled_mods\":\"72\"", "\"enabled_mods\":8");
    let v = parse_json(&text).expect("parse");
    let p = decode_performance(v).expect("decode");
    assert_eq!(p.enabled_mods.bits(), HIDDEN);
    assert!(p.enabled_mods.contains(HIDDEN));
    assert!(!p.enabled_mods.contains(DOUBLE_TIME));
    assert!(!p.enabled_mods.contains(NIGHTCORE));
}

#[test]
fn mods_unknown_bits_truncate() {
    // bit 23 names no modifier and is dropped; bit 3 stays.
    let raw: i64 = (1 << 23) | 8;
    let text = performance_object("1")
        .replace("\"enabled_mods\":\"72\"", &format!("\"enabled_mods\":{}", raw));
    let v = parse_json(&text).expect("parse");
    let p = decode_performance(v).expect("decode");
    assert_eq!(p.enabled_mods.bits(), 8);
}

#[test]
fn mods_reject_non_numeric() {
    let text =
        performance_object("1").replace("\"enabled_mods\":\"72\"", "\"enabled_mods\":\"HD\"");
    let v = parse_json(&text).expect("parse");
    let e = decode_performance(v).expect_err("must fail");
    assert!(matches!(e, Error::Decode(field, _) if field == "enabled_mods"));
}

#[test]
fn recent_play_decodes() {
    let text = "[{\"beatmap_id\":\"774965\",\"count100\":\"12\",\"count300\":\"548\",\"count50\":\"0\",\"countgeki\":\"141\",\"countkatu\":\"9\",\"countmiss\":\"1\",\"date\":\"2016-01-01 00:00:00\",\"enabled_mods\":\"0\",\"maxcombo\":\"858\",\"perfect\":\"0\",\"rank\":\"F\",\"score\":\"87593\",\"user_id\":\"39828\"}]";
    let list = decode_user_recent(text).expect("decode");
    assert_eq!(list.len(), 1);
    assert_eq!(list[0].rank, "F");
    assert!(!list[0].perfect);
    let again = decode_user_recent(text).expect("decode twice");
    assert_eq!(list, again);
}

#[test]
fn game_score_keeps_integer_perfect_flag() {
    let text = "{\"count100\":\"12\",\"count300\":\"548\",\"count50\":\"0\",\"countgeki\":\"141\",\"countkatu\":\"9\",\"countmiss\":\"1\",\"date\":\"2016-01-01 00:00:00\",\"enabled_mods\":\"0\",\"maxcombo\":\"858\",\"perfect\":\"1\",\"pp\":\"266.152\",\"rank\":\"S\",\"score\":\"12345678\",\"user_id\":\"39828\",\"username\":\"someone\"}";
    let v = parse_json(text).expect("parse");
    let g = decode_game_score(v).expect("decode");
    assert_eq!(g.perfect, 1);
    assert_eq!(g.username, "someone");
    let scores = decode_scores(&format!("[{}]", text)).expect("decode list");
    assert_eq!(scores.len(), 1);
    assert_eq!(scores[0].pp, "266.152");
}

#[test]
fn match_decodes_with_optional_end_time() {
    let text = "{\"end_time\":null,\"match_id\":\"71641\",\"name\":\"OWC: A vs B\",\"start_time\":\"2015-10-31 13:00:00\"}";
    let m = decode_match(text).expect("decode");
    assert_eq!(m.end_time, None);
    assert_eq!(m.match_id, 71641);
    assert_eq!(m.name, "OWC: A vs B");
    let text2 = text.replace("null", "\"2015-10-31 14:00:00\"");
    let m2 = decode_match(&text2).expect("decode");
    assert_eq!(m2.end_time, Some("2015-10-31 14:00:00".to_string()));
}

#[test]
fn match_score_decodes() {
    let text = "{\"count100\":\"12\",\"count300\":\"548\",\"count50\":\"0\",\"countgeki\":\"141\",\"countkatu\":\"9\",\"countmiss\":\"1\",\"maxcombo\":\"858\",\"pass\":\"1\",\"perfect\":\"0\",\"rank\":\"0\",\"score\":\"12345678\",\"slot\":\"3\",\"team\":\"2\",\"user_id\":\"39828\"}";
    let v = parse_json(text).expect("parse");
    let s = decode_match_score(v).expect("decode");
    assert_eq!(s.slot, 3);
    assert_eq!(s.team, 2);
    assert_eq!(s.pass, 1);
}

#[test]
fn game_decodes_with_nested_scores() {
    let score = "{\"count100\":\"12\",\"count300\":\"548\",\"count50\":\"0\",\"countgeki\":\"141\",\"countkatu\":\"9\",\"countmiss\":\"1\",\"date\":\"2016-01-01 00:00:00\",\"enabled_mods\":\"0\",\"maxcombo\":\"858\",\"perfect\":\"1\",\"pp\":\"266.152\",\"rank\":\"S\",\"score\":\"12345678\",\"user_id\":\"39828\",\"username\":\"someone\"}";
    let text = format!(
        "{{\"beatmap_id\":\"774965\",\"end_time\":\"2015-10-31 15:00:00\",\"game_id\":\"3\",\"match_type\":\"0\",\"mods\":\"8\",\"play_mode\":\"0\",\"scores\":[{}],\"scoring_type\":\"3\",\"start_time\":\"2015-10-31 14:00:00\",\"team_type\":\"2\"}}",
        score
    );
    let v = parse_json(&text).expect("parse");
    let g = decode_game(v).expect("decode");
    assert_eq!(g.scores.len(), 1);
    assert_eq!(g.scores[0].count_300, 548);
    assert!(matches!(g.play_mode, PlayMode::Standard));
    assert!(matches!(g.scoring_type, ScoringType::ScoreV2));
    assert!(matches!(g.team_type, TeamType::TeamVs));
    assert_eq!(g.mods.bits(), 8);
}

#[test]
fn user_decodes_with_events() {
    let event = "{\"beatmap_id\":\"774965\",\"beatmapset_id\":\"332952\",\"date\":\"2016-02-01 00:00:00\",\"display_html\":\"<b>rank</b>\",\"epicfactor\":\"2\"}";
    let text = format!(
        "[{{\"user_id\":\"39828\",\"accuracy\":\"98.76\",\"count100\":\"5\",\"count300\":\"90\",\"count50\":\"2\",\"count_rank_a\":\"40\",\"count_rank_s\":\"30\",\"count_rank_ss\":\"12\",\"country\":\"KR\",\"events\":[{}],\"level\":\"100.5\",\"playcount\":\"24064\",\"pp_country_rank\":\"1\",\"pp_rank\":\"2\",\"pp_raw\":\"12769.1\",\"ranked_score\":\"26257767987\",\"total_score\":\"86417311117\",\"username\":\"cookiezi\"}}]",
        event
    );
    let users = decode_users(&text).expect("decode");
    assert_eq!(users.len(), 1);
    let u = &users[0];
    assert_eq!(u.id, 39828);
    assert_eq!(u.accuracy, "98.76");
    assert_eq!(u.country, "KR");
    assert_eq!(u.events.len(), 1);
    assert_eq!(u.events[0].epic_factor, 2);
    assert_eq!(u.events[0].display_html, "<b>rank</b>");
    assert_eq!(u.level, "100.5");
    assert_eq!(u.pp_raw, "12769.1");
    assert_eq!(u.ranked_score, 26257767987);
    assert_eq!(u.username, "cookiezi");
    let v = parse_json(&text).expect("parse");
    if let JsonValue::Array(mut items) = v {
        let one = items.remove(0);
        let direct = decode_user(one).expect("decode one");
        assert_eq!(direct, *u);
    } else {
        panic!("expected array");
    }
}

#[test]
fn user_event_decodes() {
    let text = "{\"beatmap_id\":\"774965\",\"beatmapset_id\":\"332952\",\"date\":\"2016-02-01 00:00:00\",\"display_html\":\"x\",\"epicfactor\":\"2\"}";
    let v = parse_json(text).expect("parse");
    let e = decode_user_event(v).expect("decode");
    assert_eq!(e.beatmap_id, 774965);
    assert_eq!(e.beatmapset_id, 332952);
    assert_eq!(e.epic_factor, 2);
}

#[test]
fn enum_codes_round_trip() {
    assert!(matches!(Approval::from_code("2"), Some(Approval::Approved)));
    assert!(matches!(Approval::from_code("-2"), Some(Approval::Graveyard)));
    assert_eq!(Approval::Loved.code(), "4");
    assert!(Approval::from_code("5").is_none());
    assert!(matches!(Genre::from_code("10"), Some(Genre::Electronic)));
    assert!(Genre::from_code("11").is_none());
    assert!(matches!(Language::from_code("11"), Some(Language::Italian)));
    assert!(matches!(PlayMode::from_code("0"), Some(PlayMode::Standard)));
    assert_eq!(PlayMode::Mania.code(), "3");
    assert!(matches!(ScoringType::from_code("0"), Some(ScoringType::Score)));
    assert!(matches!(TeamType::from_code("3"), Some(TeamType::TagTeamVs)));
    assert!(TeamType::from_code("4").is_none());
}

#[test]
fn negative_mods_truncate_to_known_bits() {
    let m = osu::Mods::from_bits_truncate(-1);
    assert_eq!(m.bits(), osu::mods::ALL_MODS);
    let m2 = osu::Mods::from_bits_truncate(1 << 23);
    assert_eq!(m2.bits(), 0);
}

#[test]
fn error_kinds_have_messages() {
    let e = osu::Error::Transport("refused".to_string());
    assert_eq!(e.kind_message(), "transport error");
    let e = osu::Error::InvalidUri("::".to_string());
    assert_eq!(e.kind_message(), "invalid request uri");
    let e = osu::Error::InvalidEnumCode("genre_id".to_string(), "99".to_string());
    assert_eq!(e.kind_message(), "invalid enumeration code");
    let e = osu::Error::Decode("bpm".to_string(), osu::json::JsonValue::Null);
    assert_eq!(e.kind_message(), "decode error");
}
