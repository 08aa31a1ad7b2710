//! The decoder: from a parsed JSON tree to the typed records. Fields are
//! taken out of an object and coerced in declaration order; the first field
//! that fails decides the error, and no partial record is ever returned.
//!
//! Field policy, as one rule per coercion helper:
//! - a numeric field accepts a JSON number or a numeric string;
//! - an enum-coded field accepts its code as a string or a bare number, and
//!   an unrecognised code is an `InvalidEnumCode` error;
//! - an optional field accepts a missing key or a null;
//! - a `perfect` flag accepts exactly `0` or `1`, as number or string;
//! - a modifier set accepts an integer or a numeric string, and unknown
//!   bits are truncated, never rejected;
//! - a fractional field accepts any text `f64::from_str` would read, and is
//!   kept as that text.

use vstd::prelude::*;
use crate::enums::{Approval, Genre, Language, PlayMode, ScoringType, TeamType};
use crate::error::{decode_matches, decode_matches_seq, ErrView, Error};
use crate::json::{parse_json, parsed_json, spec_take, take_field, JsonValue};
use crate::mods::{Mods, ALL_MODS};
use crate::model::{
    Beatmap, Game, GameScore, Match, MatchScore, Performance, RecentPlay, User, UserEvent,
};
use crate::numeral::{is_float_literal, parse_i64, spec_is_float, spec_parse_i64, str_eq};

verus! {

/// The entries of a JSON object; anything else is a decode error carrying
/// the whole value.
pub open spec fn spec_obj(v: JsonValue) -> Result<Seq<(String, JsonValue)>, ErrView> {
    match v {
        JsonValue::Object(entries) => Ok(entries@),
        _ => Err(ErrView::Decode("expected object"@, v)),
    }
}

pub fn into_object(v: JsonValue) -> (r: Result<Vec<(String, JsonValue)>, Error>)
    ensures
        match spec_obj(v) {
            Ok(o) => r matches Ok(entries) && entries@ == o,
            Err(ev) => r matches Err(e) && e@ == ev,
        },
{
    match v {
        JsonValue::Object(entries) => Ok(entries),
        other => Err(Error::Decode("expected object".to_owned(), other)),
    }
}

/// The elements of a JSON array; anything else is a decode error carrying
/// the whole value.
pub open spec fn spec_arr(v: JsonValue) -> Result<Seq<JsonValue>, ErrView> {
    match v {
        JsonValue::Array(items) => Ok(items@),
        _ => Err(ErrView::Decode("expected array"@, v)),
    }
}

pub fn into_array(v: JsonValue) -> (r: Result<Vec<JsonValue>, Error>)
    ensures
        match spec_arr(v) {
            Ok(items) => r matches Ok(elems) && elems@ == items,
            Err(ev) => r matches Err(e) && e@ == ev,
        },
{
    match v {
        JsonValue::Array(items) => Ok(items),
        other => Err(Error::Decode("expected array".to_owned(), other)),
    }
}

/// A required integer field: present, and a number or numeric string that
/// reads as an `i64`.
pub open spec fn spec_take_i64(o: Seq<(String, JsonValue)>, name: Seq<char>) -> Result<
    (i64, Seq<(String, JsonValue)>),
    ErrView,
> {
    match spec_take(o, name) {
        None => Err(ErrView::Decode(name, JsonValue::Null)),
        Some(p) => match p.0 {
            JsonValue::Num(s) => match spec_parse_i64(s@) {
                Some(n) => Ok((n, p.1)),
                None => Err(ErrView::Decode(name, p.0)),
            },
            JsonValue::Str(s) => match spec_parse_i64(s@) {
                Some(n) => Ok((n, p.1)),
                None => Err(ErrView::Decode(name, p.0)),
            },
            _ => Err(ErrView::Decode(name, p.0)),
        },
    }
}

fn take_i64(o: &mut Vec<(String, JsonValue)>, key: &str) -> (r: Result<i64, Error>)
    ensures
        match spec_take_i64(old(o)@, key@) {
            Ok(p) => r matches Ok(v) && v == p.0 && final(o)@ == p.1,
            Err(ev) => r matches Err(e) && e@ == ev,
        },
{
    match take_field(o, key) {
        None => Err(Error::Decode(key.to_owned(), JsonValue::Null)),
        Some(v) => match v {
            JsonValue::Num(s) => match parse_i64(s.as_str()) {
                Some(n) => Ok(n),
                None => Err(Error::Decode(key.to_owned(), JsonValue::Num(s))),
            },
            JsonValue::Str(s) => match parse_i64(s.as_str()) {
                Some(n) => Ok(n),
                None => Err(Error::Decode(key.to_owned(), JsonValue::Str(s))),
            },
            other => Err(Error::Decode(key.to_owned(), other)),
        },
    }
}

/// A required string field.
pub open spec fn spec_take_string(o: Seq<(String, JsonValue)>, name: Seq<char>) -> Result<
    (String, Seq<(String, JsonValue)>),
    ErrView,
> {
    match spec_take(o, name) {
        None => Err(ErrView::Decode(name, JsonValue::Null)),
        Some(p) => match p.0 {
            JsonValue::Str(s) => Ok((s, p.1)),
            _ => Err(ErrView::Decode(name, p.0)),
        },
    }
}

fn take_string(o: &mut Vec<(String, JsonValue)>, key: &str) -> (r: Result<String, Error>)
    ensures
        match spec_take_string(old(o)@, key@) {
            Ok(p) => r matches Ok(v) && v == p.0 && final(o)@ == p.1,
            Err(ev) => r matches Err(e) && e@ == ev,
        },
{
    match take_field(o, key) {
        None => Err(Error::Decode(key.to_owned(), JsonValue::Null)),
        Some(v) => match v {
            JsonValue::Str(s) => Ok(s),
            other => Err(Error::Decode(key.to_owned(), other)),
        },
    }
}

/// A required fractional field: a number, or a string `f64::from_str` would
/// read; kept as its text.
pub open spec fn spec_take_float(o: Seq<(String, JsonValue)>, name: Seq<char>) -> Result<
    (String, Seq<(String, JsonValue)>),
    ErrView,
> {
    match spec_take(o, name) {
        None => Err(ErrView::Decode(name, JsonValue::Null)),
        Some(p) => match p.0 {
            JsonValue::Num(s) => if spec_is_float(s@) {
                Ok((s, p.1))
            } else {
                Err(ErrView::Decode(name, p.0))
            },
            JsonValue::Str(s) => if spec_is_float(s@) {
                Ok((s, p.1))
            } else {
                Err(ErrView::Decode(name, p.0))
            },
            _ => Err(ErrView::Decode(name, p.0)),
        },
    }
}

fn take_float(o: &mut Vec<(String, JsonValue)>, key: &str) -> (r: Result<String, Error>)
    ensures
        match spec_take_float(old(o)@, key@) {
            Ok(p) => r matches Ok(v) && v == p.0 && final(o)@ == p.1,
            Err(ev) => r matches Err(e) && e@ == ev,
        },
{
    match take_field(o, key) {
        None => Err(Error::Decode(key.to_owned(), JsonValue::Null)),
        Some(v) => match v {
            JsonValue::Num(s) => if is_float_literal(s.as_str()) {
                Ok(s)
            } else {
                Err(Error::Decode(key.to_owned(), JsonValue::Num(s)))
            },
            JsonValue::Str(s) => if is_float_literal(s.as_str()) {
                Ok(s)
            } else {
                Err(Error::Decode(key.to_owned(), JsonValue::Str(s)))
            },
            other => Err(Error::Decode(key.to_owned(), other)),
        },
    }
}

/// An optional string field: a missing key or a null is simply absent.
pub open spec fn spec_take_opt_string(o: Seq<(String, JsonValue)>, name: Seq<char>) -> Result<
    (Option<String>, Seq<(String, JsonValue)>),
    ErrView,
> {
    match spec_take(o, name) {
        None => Ok((None, o)),
        Some(p) => match p.0 {
            JsonValue::Null => Ok((None, p.1)),
            JsonValue::Str(s) => Ok((Some(s), p.1)),
            _ => Err(ErrView::Decode(name, p.0)),
        },
    }
}

fn take_opt_string(o: &mut Vec<(String, JsonValue)>, key: &str) -> (r: Result<
    Option<String>,
    Error,
>)
    ensures
        match spec_take_opt_string(old(o)@, key@) {
            Ok(p) => r matches Ok(v) && v == p.0 && final(o)@ == p.1,
            Err(ev) => r matches Err(e) && e@ == ev,
        },
{
    match take_field(o, key) {
        None => Ok(None),
        Some(v) => match v {
            JsonValue::Null => Ok(None),
            JsonValue::Str(s) => Ok(Some(s)),
            other => Err(Error::Decode(key.to_owned(), other)),
        },
    }
}

/// A lenient optional integer field: only a string that reads as an `i64`
/// counts; a missing key, a null or anything unreadable is simply absent.
pub open spec fn spec_take_opt_i64(o: Seq<(String, JsonValue)>, name: Seq<char>) -> (Option<i64>,
    Seq<(String, JsonValue)>,
) {
    match spec_take(o, name) {
        None => (None, o),
        Some(p) => match p.0 {
            JsonValue::Str(s) => (spec_parse_i64(s@), p.1),
            _ => (None, p.1),
        },
    }
}

fn take_opt_i64(o: &mut Vec<(String, JsonValue)>, key: &str) -> (r: Option<i64>)
    ensures
        ({
            let p = spec_take_opt_i64(old(o)@, key@);
            r == p.0 && final(o)@ == p.1
        }),
{
    match take_field(o, key) {
        None => None,
        Some(v) => match v {
            JsonValue::Str(s) => parse_i64(s.as_str()),
            _ => None,
        },
    }
}

/// A `perfect`-style flag: exactly `0` or `1`, as a number or a string.
pub open spec fn spec_take_bool01(o: Seq<(String, JsonValue)>, name: Seq<char>) -> Result<
    (bool, Seq<(String, JsonValue)>),
    ErrView,
> {
    match spec_take(o, name) {
        None => Err(ErrView::Decode(name, JsonValue::Null)),
        Some(p) => match p.0 {
            JsonValue::Num(s) => if s@ == "0"@ {
                Ok((false, p.1))
            } else if s@ == "1"@ {
                Ok((true, p.1))
            } else {
                Err(ErrView::Decode(name, p.0))
            },
            JsonValue::Str(s) => if s@ == "0"@ {
                Ok((false, p.1))
            } else if s@ == "1"@ {
                Ok((true, p.1))
            } else {
                Err(ErrView::Decode(name, p.0))
            },
            _ => Err(ErrView::Decode(name, p.0)),
        },
    }
}

fn take_bool01(o: &mut Vec<(String, JsonValue)>, key: &str) -> (r: Result<bool, Error>)
    ensures
        match spec_take_bool01(old(o)@, key@) {
            Ok(p) => r matches Ok(v) && v == p.0 && final(o)@ == p.1,
            Err(ev) => r matches Err(e) && e@ == ev,
        },
{
    match take_field(o, key) {
        None => Err(Error::Decode(key.to_owned(), JsonValue::Null)),
        Some(v) => match v {
            JsonValue::Num(s) => if str_eq(s.as_str(), "0") {
                Ok(false)
            } else if str_eq(s.as_str(), "1") {
                Ok(true)
            } else {
                Err(Error::Decode(key.to_owned(), JsonValue::Num(s)))
            },
            JsonValue::Str(s) => if str_eq(s.as_str(), "0") {
                Ok(false)
            } else if str_eq(s.as_str(), "1") {
                Ok(true)
            } else {
                Err(Error::Decode(key.to_owned(), JsonValue::Str(s)))
            },
            other => Err(Error::Decode(key.to_owned(), other)),
        },
    }
}

/// A modifier bit-set: an integer or numeric string; unknown bits truncate.
pub open spec fn spec_take_mods(o: Seq<(String, JsonValue)>, name: Seq<char>) -> Result<
    (Mods, Seq<(String, JsonValue)>),
    ErrView,
> {
    match spec_take(o, name) {
        None => Err(ErrView::Decode(name, JsonValue::Null)),
        Some(p) => match p.0 {
            JsonValue::Num(s) => match spec_parse_i64(s@) {
                Some(n) => Ok((Mods { bits: n & ALL_MODS }, p.1)),
                None => Err(ErrView::Decode(name, p.0)),
            },
            JsonValue::Str(s) => match spec_parse_i64(s@) {
                Some(n) => Ok((Mods { bits: n & ALL_MODS }, p.1)),
                None => Err(ErrView::Decode(name, p.0)),
            },
            _ => Err(ErrView::Decode(name, p.0)),
        },
    }
}

fn take_mods(o: &mut Vec<(String, JsonValue)>, key: &str) -> (r: Result<Mods, Error>)
    ensures
        match spec_take_mods(old(o)@, key@) {
            Ok(p) => r matches Ok(v) && v == p.0 && final(o)@ == p.1,
            Err(ev) => r matches Err(e) && e@ == ev,
        },
{
    match take_field(o, key) {
        None => Err(Error::Decode(key.to_owned(), JsonValue::Null)),
        Some(v) => match v {
            JsonValue::Num(s) => match parse_i64(s.as_str()) {
                Some(n) => Ok(Mods::from_bits_truncate(n)),
                None => Err(Error::Decode(key.to_owned(), JsonValue::Num(s))),
            },
            JsonValue::Str(s) => match parse_i64(s.as_str()) {
                Some(n) => Ok(Mods::from_bits_truncate(n)),
                None => Err(Error::Decode(key.to_owned(), JsonValue::Str(s))),
            },
            other => Err(Error::Decode(key.to_owned(), other)),
        },
    }
}

/// How a `UserEvent` decodes from a JSON value: an object whose fields are
/// taken and coerced in declaration order; the first failing field decides
/// the error.
pub open spec fn spec_decode_user_event(v: JsonValue) -> Result<UserEvent, ErrView> {
    match spec_obj(v) {
        Err(e) => Err(e),
        Ok(o) => match spec_take_i64(o, "beatmap_id"@) {
            Err(e) => Err(e),
            Ok((beatmap_id, o)) => match spec_take_i64(o, "beatmapset_id"@) {
                Err(e) => Err(e),
                Ok((beatmapset_id, o)) => match spec_take_string(o, "date"@) {
                    Err(e) => Err(e),
                    Ok((date, o)) => match spec_take_string(o, "display_html"@) {
                        Err(e) => Err(e),
                        Ok((display_html, o)) => match spec_take_i64(o, "epicfactor"@) {
                            Err(e) => Err(e),
                            Ok((epic_factor, _)) => Ok(
                                UserEvent {
                                    beatmap_id,
                                    beatmapset_id,
                                    date,
                                    display_html,
                                    epic_factor,
                                },
                            ),
                        },
                    },
                },
            },
        },
    }
}

/// Decodes a `UserEvent` from a JSON value.
pub fn decode_user_event(v: JsonValue) -> (r: Result<UserEvent, Error>)
    ensures
        decode_matches(r, spec_decode_user_event(v)),
{
    let mut o = match into_object(v) {
        Ok(o) => o,
        Err(e) => return Err(e),
    };
    let beatmap_id = match take_i64(&mut o, "beatmap_id") {
        Ok(x) => x,
        Err(e) => return Err(e),
    };
    let beatmapset_id = match take_i64(&mut o, "beatmapset_id") {
        Ok(x) => x,
        Err(e) => return Err(e),
    };
    let date = match take_string(&mut o, "date") {
        Ok(x) => x,
        Err(e) => return Err(e),
    };
    let display_html = match take_string(&mut o, "display_html") {
        Ok(x) => x,
        Err(e) => return Err(e),
    };
    let epic_factor = match take_i64(&mut o, "epicfactor") {
        Ok(x) => x,
        Err(e) => return Err(e),
    };
    Ok(UserEvent { beatmap_id, beatmapset_id, date, display_html, epic_factor })
}


/// A required enum-coded field: its code as a string or a bare number; an
/// unrecognised code is an `InvalidEnumCode` error.
pub open spec fn spec_take_approval(o: Seq<(String, JsonValue)>, name: Seq<char>) -> Result<
    (Approval, Seq<(String, JsonValue)>),
    ErrView,
> {
    match spec_take(o, name) {
        None => Err(ErrView::Decode(name, JsonValue::Null)),
        Some(p) => match p.0 {
            JsonValue::Num(s) => match Approval::spec_from_code(s@) {
                Some(x) => Ok((x, p.1)),
                None => Err(ErrView::InvalidEnumCode(name, s@)),
            },
            JsonValue::Str(s) => match Approval::spec_from_code(s@) {
                Some(x) => Ok((x, p.1)),
                None => Err(ErrView::InvalidEnumCode(name, s@)),
            },
            _ => Err(ErrView::Decode(name, p.0)),
        },
    }
}

fn take_approval(o: &mut Vec<(String, JsonValue)>, key: &str) -> (r: Result<Approval, Error>)
    ensures
        match spec_take_approval(old(o)@, key@) {
            Ok(p) => r matches Ok(v) && v == p.0 && final(o)@ == p.1,
            Err(ev) => r matches Err(e) && e@ == ev,
        },
{
    match take_field(o, key) {
        None => Err(Error::Decode(key.to_owned(), JsonValue::Null)),
        Some(v) => match v {
            JsonValue::Num(s) => match Approval::from_code(s.as_str()) {
                Some(x) => Ok(x),
                None => Err(Error::InvalidEnumCode(key.to_owned(), s)),
            },
            JsonValue::Str(s) => match Approval::from_code(s.as_str()) {
                Some(x) => Ok(x),
                None => Err(Error::InvalidEnumCode(key.to_owned(), s)),
            },
            other => Err(Error::Decode(key.to_owned(), other)),
        },
    }
}


/// A required enum-coded field: its code as a string or a bare number; an
/// unrecognised code is an `InvalidEnumCode` error.
pub open spec fn spec_take_genre(o: Seq<(String, JsonValue)>, name: Seq<char>) -> Result<
    (Genre, Seq<(String, JsonValue)>),
    ErrView,
> {
    match spec_take(o, name) {
        None => Err(ErrView::Decode(name, JsonValue::Null)),
        Some(p) => match p.0 {
            JsonValue::Num(s) => match Genre::spec_from_code(s@) {
                Some(x) => Ok((x, p.1)),
                None => Err(ErrView::InvalidEnumCode(name, s@)),
            },
            JsonValue::Str(s) => match Genre::spec_from_code(s@) {
                Some(x) => Ok((x, p.1)),
                None => Err(ErrView::InvalidEnumCode(name, s@)),
            },
            _ => Err(ErrView::Decode(name, p.0)),
        },
    }
}

fn take_genre(o: &mut Vec<(String, JsonValue)>, key: &str) -> (r: Result<Genre, Error>)
    ensures
        match spec_take_genre(old(o)@, key@) {
            Ok(p) => r matches Ok(v) && v == p.0 && final(o)@ == p.1,
            Err(ev) => r matches Err(e) && e@ == ev,
        },
{
    match take_field(o, key) {
        None => Err(Error::Decode(key.to_owned(), JsonValue::Null)),
        Some(v) => match v {
            JsonValue::Num(s) => match Genre::from_code(s.as_str()) {
                Some(x) => Ok(x),
                None => Err(Error::InvalidEnumCode(key.to_owned(), s)),
            },
            JsonValue::Str(s) => match Genre::from_code(s.as_str()) {
                Some(x) => Ok(x),
                None => Err(Error::InvalidEnumCode(key.to_owned(), s)),
            },
            other => Err(Error::Decode(key.to_owned(), other)),
        },
    }
}


/// A required enum-coded field: its code as a string or a bare number; an
/// unrecognised code is an `InvalidEnumCode` error.
pub open spec fn spec_take_language(o: Seq<(String, JsonValue)>, name: Seq<char>) -> Result<
    (Language, Seq<(String, JsonValue)>),
    ErrView,
> {
    match spec_take(o, name) {
        None => Err(ErrView::Decode(name, JsonValue::Null)),
        Some(p) => match p.0 {
            JsonValue::Num(s) => match Language::spec_from_code(s@) {
                Some(x) => Ok((x, p.1)),
                None => Err(ErrView::InvalidEnumCode(name, s@)),
            },
            JsonValue::Str(s) => match Language::spec_from_code(s@) {
                Some(x) => Ok((x, p.1)),
                None => Err(ErrView::InvalidEnumCode(name, s@)),
            },
            _ => Err(ErrView::Decode(name, p.0)),
        },
    }
}

fn take_language(o: &mut Vec<(String, JsonValue)>, key: &str) -> (r: Result<Language, Error>)
    ensures
        match spec_take_language(old(o)@, key@) {
            Ok(p) => r matches Ok(v) && v == p.0 && final(o)@ == p.1,
            Err(ev) => r matches Err(e) && e@ == ev,
        },
{
    match take_field(o, key) {
        None => Err(Error::Decode(key.to_owned(), JsonValue::Null)),
        Some(v) => match v {
            JsonValue::Num(s) => match Language::from_code(s.as_str()) {
                Some(x) => Ok(x),
                None => Err(Error::InvalidEnumCode(key.to_owned(), s)),
            },
            JsonValue::Str(s) => match Language::from_code(s.as_str()) {
                Some(x) => Ok(x),
                None => Err(Error::InvalidEnumCode(key.to_owned(), s)),
            },
            other => Err(Error::Decode(key.to_owned(), other)),
        },
    }
}


/// A required enum-coded field: its code as a string or a bare number; an
/// unrecognised code is an `InvalidEnumCode` error.
pub open spec fn spec_take_play_mode(o: Seq<(String, JsonValue)>, name: Seq<char>) -> Result<
    (PlayMode, Seq<(String, JsonValue)>),
    ErrView,
> {
    match spec_take(o, name) {
        None => Err(ErrView::Decode(name, JsonValue::Null)),
        Some(p) => match p.0 {
            JsonValue::Num(s) => match PlayMode::spec_from_code(s@) {
                Some(x) => Ok((x, p.1)),
                None => Err(ErrView::InvalidEnumCode(name, s@)),
            },
            JsonValue::Str(s) => match PlayMode::spec_from_code(s@) {
                Some(x) => Ok((x, p.1)),
                None => Err(ErrView::InvalidEnumCode(name, s@)),
            },
            _ => Err(ErrView::Decode(name, p.0)),
        },
    }
}

fn take_play_mode(o: &mut Vec<(String, JsonValue)>, key: &str) -> (r: Result<PlayMode, Error>)
    ensures
        match spec_take_play_mode(old(o)@, key@) {
            Ok(p) => r matches Ok(v) && v == p.0 && final(o)@ == p.1,
            Err(ev) => r matches Err(e) && e@ == ev,
        },
{
    match take_field(o, key) {
        None => Err(Error::Decode(key.to_owned(), JsonValue::Null)),
        Some(v) => match v {
            JsonValue::Num(s) => match PlayMode::from_code(s.as_str()) {
                Some(x) => Ok(x),
                None => Err(Error::InvalidEnumCode(key.to_owned(), s)),
            },
            JsonValue::Str(s) => match PlayMode::from_code(s.as_str()) {
                Some(x) => Ok(x),
                None => Err(Error::InvalidEnumCode(key.to_owned(), s)),
            },
            other => Err(Error::Decode(key.to_owned(), other)),
        },
    }
}


/// A required enum-coded field: its code as a string or a bare number; an
/// unrecognised code is an `InvalidEnumCode` error.
pub open spec fn spec_take_scoring_type(o: Seq<(String, JsonValue)>, name: Seq<char>) -> Result<
    (ScoringType, Seq<(String, JsonValue)>),
    ErrView,
> {
    match spec_take(o, name) {
        None => Err(ErrView::Decode(name, JsonValue::Null)),
        Some(p) => match p.0 {
            JsonValue::Num(s) => match ScoringType::spec_from_code(s@) {
                Some(x) => Ok((x, p.1)),
                None => Err(ErrView::InvalidEnumCode(name, s@)),
            },
            JsonValue::Str(s) => match ScoringType::spec_from_code(s@) {
                Some(x) => Ok((x, p.1)),
                None => Err(ErrView::InvalidEnumCode(name, s@)),
            },
            _ => Err(ErrView::Decode(name, p.0)),
        },
    }
}

fn take_scoring_type(o: &mut Vec<(String, JsonValue)>, key: &str) -> (r: Result<ScoringType, Error>)
    ensures
        match spec_take_scoring_type(old(o)@, key@) {
            Ok(p) => r matches Ok(v) && v == p.0 && final(o)@ == p.1,
            Err(ev) => r matches Err(e) && e@ == ev,
        },
{
    match take_field(o, key) {
        None => Err(Error::Decode(key.to_owned(), JsonValue::Null)),
        Some(v) => match v {
            JsonValue::Num(s) => match ScoringType::from_code(s.as_str()) {
                Some(x) => Ok(x),
                None => Err(Error::InvalidEnumCode(key.to_owned(), s)),
            },
            JsonValue::Str(s) => match ScoringType::from_code(s.as_str()) {
                Some(x) => Ok(x),
                None => Err(Error::InvalidEnumCode(key.to_owned(), s)),
            },
            other => Err(Error::Decode(key.to_owned(), other)),
        },
    }
}


/// A required enum-coded field: its code as a string or a bare number; an
/// unrecognised code is an `InvalidEnumCode` error.
pub open spec fn spec_take_team_type(o: Seq<(String, JsonValue)>, name: Seq<char>) -> Result<
    (TeamType, Seq<(String, JsonValue)>),
    ErrView,
> {
    match spec_take(o, name) {
        None => Err(ErrView::Decode(name, JsonValue::Null)),
        Some(p) => match p.0 {
            JsonValue::Num(s) => match TeamType::spec_from_code(s@) {
                Some(x) => Ok((x, p.1)),
                None => Err(ErrView::InvalidEnumCode(name, s@)),
            },
            JsonValue::Str(s) => match TeamType::spec_from_code(s@) {
                Some(x) => Ok((x, p.1)),
                None => Err(ErrView::InvalidEnumCode(name, s@)),
            },
            _ => Err(ErrView::Decode(name, p.0)),
        },
    }
}

fn take_team_type(o: &mut Vec<(String, JsonValue)>, key: &str) -> (r: Result<TeamType, Error>)
    ensures
        match spec_take_team_type(old(o)@, key@) {
            Ok(p) => r matches Ok(v) && v == p.0 && final(o)@ == p.1,
            Err(ev) => r matches Err(e) && e@ == ev,
        },
{
    match take_field(o, key) {
        None => Err(Error::Decode(key.to_owned(), JsonValue::Null)),
        Some(v) => match v {
            JsonValue::Num(s) => match TeamType::from_code(s.as_str()) {
                Some(x) => Ok(x),
                None => Err(Error::InvalidEnumCode(key.to_owned(), s)),
            },
            JsonValue::Str(s) => match TeamType::from_code(s.as_str()) {
                Some(x) => Ok(x),
                None => Err(Error::InvalidEnumCode(key.to_owned(), s)),
            },
            other => Err(Error::Decode(key.to_owned(), other)),
        },
    }
}


/// One group of fields of a `MatchScore` object, taken in order.
pub open spec fn spec_match_score_fields_a(o: Seq<(String, JsonValue)>) -> Result<
    ((i64, i64, i64, i64, i64, i64, i64), Seq<(String, JsonValue)>),
    ErrView,
> {
    match spec_take_i64(o, "count100"@) {
        Err(e) => Err(e),
        Ok((count_100, o)) => match spec_take_i64(o, "count300"@) {
            Err(e) => Err(e),
            Ok((count_300, o)) => match spec_take_i64(o, "count50"@) {
                Err(e) => Err(e),
                Ok((count_50, o)) => match spec_take_i64(o, "countgeki"@) {
                    Err(e) => Err(e),
                    Ok((count_geki, o)) => match spec_take_i64(o, "countkatu"@) {
                        Err(e) => Err(e),
                        Ok((count_katu, o)) => match spec_take_i64(o, "countmiss"@) {
                            Err(e) => Err(e),
                            Ok((count_miss, o)) => match spec_take_i64(o, "maxcombo"@) {
                                Err(e) => Err(e),
                                Ok((max_combo, o)) => Ok(((count_100, count_300, count_50, count_geki, count_katu, count_miss, max_combo), o)),
                            }
                        }
                    }
                }
            }
        }
    }
}

/// One group of fields of a `MatchScore` object, taken in order.
pub open spec fn spec_match_score_fields_b(o: Seq<(String, JsonValue)>) -> Result<
    ((i64, i64, i64, i64, i64, i64, i64), Seq<(String, JsonValue)>),
    ErrView,
> {
    match spec_take_i64(o, "pass"@) {
        Err(e) => Err(e),
        Ok((pass, o)) => match spec_take_i64(o, "perfect"@) {
            Err(e) => Err(e),
            Ok((perfect, o)) => match spec_take_i64(o, "rank"@) {
                Err(e) => Err(e),
                Ok((rank, o)) => match spec_take_i64(o, "score"@) {
                    Err(e) => Err(e),
                    Ok((score, o)) => match spec_take_i64(o, "slot"@) {
                        Err(e) => Err(e),
                        Ok((slot, o)) => match spec_take_i64(o, "team"@) {
                            Err(e) => Err(e),
                            Ok((team, o)) => match spec_take_i64(o, "user_id"@) {
                                Err(e) => Err(e),
                                Ok((user_id, o)) => Ok(((pass, perfect, rank, score, slot, team, user_id), o)),
                            }
                        }
                    }
                }
            }
        }
    }
}

/// How a `MatchScore` decodes from a JSON value: an object whose fields are
/// taken and coerced in declaration order, group by group; the first
/// failing field decides the error.
pub open spec fn spec_decode_match_score(v: JsonValue) -> Result<MatchScore, ErrView> {
    match spec_obj(v) {
        Err(e) => Err(e),
        Ok(o) => match spec_match_score_fields_a(o) {
            Err(e) => Err(e),
            Ok((a, o)) => match spec_match_score_fields_b(o) {
                Err(e) => Err(e),
                Ok((b, o)) => Ok(MatchScore {
                    count_100: a.0,
                    count_300: a.1,
                    count_50: a.2,
                    count_geki: a.3,
                    count_katu: a.4,
                    count_miss: a.5,
                    max_combo: a.6,
                    pass: b.0,
                    perfect: b.1,
                    rank: b.2,
                    score: b.3,
                    slot: b.4,
                    team: b.5,
                    user_id: b.6,
                }),
            }
        }
    }
}

/// Decodes a `MatchScore` from a JSON value.
pub fn decode_match_score(v: JsonValue) -> (r: Result<MatchScore, Error>)
    ensures
        decode_matches(r, spec_decode_match_score(v)),
{
    let mut o = match into_object(v) {
        Ok(o) => o,
        Err(e) => return Err(e),
    };
    let count_100 = match take_i64(&mut o, "count100") {
        Ok(x) => x,
        Err(e) => return Err(e),
    };
    let count_300 = match take_i64(&mut o, "count300") {
        Ok(x) => x,
        Err(e) => return Err(e),
    };
    let count_50 = match take_i64(&mut o, "count50") {
        Ok(x) => x,
        Err(e) => return Err(e),
    };
    let count_geki = match take_i64(&mut o, "countgeki") {
        Ok(x) => x,
        Err(e) => return Err(e),
    };
    let count_katu = match take_i64(&mut o, "countkatu") {
        Ok(x) => x,
        Err(e) => return Err(e),
    };
    let count_miss = match take_i64(&mut o, "countmiss") {
        Ok(x) => x,
        Err(e) => return Err(e),
    };
    let max_combo = match take_i64(&mut o, "maxcombo") {
        Ok(x) => x,
        Err(e) => return Err(e),
    };
    let pass = match take_i64(&mut o, "pass") {
        Ok(x) => x,
        Err(e) => return Err(e),
    };
    let perfect = match take_i64(&mut o, "perfect") {
        Ok(x) => x,
        Err(e) => return Err(e),
    };
    let rank = match take_i64(&mut o, "rank") {
        Ok(x) => x,
        Err(e) => return Err(e),
    };
    let score = match take_i64(&mut o, "score") {
        Ok(x) => x,
        Err(e) => return Err(e),
    };
    let slot = match take_i64(&mut o, "slot") {
        Ok(x) => x,
        Err(e) => return Err(e),
    };
    let team = match take_i64(&mut o, "team") {
        Ok(x) => x,
        Err(e) => return Err(e),
    };
    let user_id = match take_i64(&mut o, "user_id") {
        Ok(x) => x,
        Err(e) => return Err(e),
    };
    Ok(MatchScore {
        count_100,
        count_300,
        count_50,
        count_geki,
        count_katu,
        count_miss,
        max_combo,
        pass,
        perfect,
        rank,
        score,
        slot,
        team,
        user_id,
    })
}

/// One group of fields of a `Match` object, taken in order.
pub open spec fn spec_match_record_fields_a(o: Seq<(String, JsonValue)>) -> Result<
    ((Option<String>, i64, String, String), Seq<(String, JsonValue)>),
    ErrView,
> {
    match spec_take_opt_string(o, "end_time"@) {
        Err(e) => Err(e),
        Ok((end_time, o)) => match spec_take_i64(o, "match_id"@) {
            Err(e) => Err(e),
            Ok((match_id, o)) => match spec_take_string(o, "name"@) {
                Err(e) => Err(e),
                Ok((name, o)) => match spec_take_string(o, "start_time"@) {
                    Err(e) => Err(e),
                    Ok((start_time, o)) => Ok(((end_time, match_id, name, start_time), o)),
                }
            }
        }
    }
}

/// How a `Match` decodes from a JSON value: an object whose fields are
/// taken and coerced in declaration order, group by group; the first
/// failing field decides the error.
pub open spec fn spec_decode_match_record(v: JsonValue) -> Result<Match, ErrView> {
    match spec_obj(v) {
        Err(e) => Err(e),
        Ok(o) => match spec_match_record_fields_a(o) {
            Err(e) => Err(e),
            Ok((a, o)) => Ok(Match {
                end_time: a.0,
                match_id: a.1,
                name: a.2,
                start_time: a.3,
            }),
        }
    }
}

/// Decodes a `Match` from a JSON value.
pub fn decode_match_record(v: JsonValue) -> (r: Result<Match, Error>)
    ensures
        decode_matches(r, spec_decode_match_record(v)),
{
    let mut o = match into_object(v) {
        Ok(o) => o,
        Err(e) => return Err(e),
    };
    let end_time = match take_opt_string(&mut o, "end_time") {
        Ok(x) => x,
        Err(e) => return Err(e),
    };
    let match_id = match take_i64(&mut o, "match_id") {
        Ok(x) => x,
        Err(e) => return Err(e),
    };
    let name = match take_string(&mut o, "name") {
        Ok(x) => x,
        Err(e) => return Err(e),
    };
    let start_time = match take_string(&mut o, "start_time") {
        Ok(x) => x,
        Err(e) => return Err(e),
    };
    Ok(Match {
        end_time,
        match_id,
        name,
        start_time,
    })
}

/// One group of fields of a `GameScore` object, taken in order.
pub open spec fn spec_game_score_fields_a(o: Seq<(String, JsonValue)>) -> Result<
    ((i64, i64, i64, i64, i64), Seq<(String, JsonValue)>),
    ErrView,
> {
    match spec_take_i64(o, "count100"@) {
        Err(e) => Err(e),
        Ok((count_100, o)) => match spec_take_i64(o, "count300"@) {
            Err(e) => Err(e),
            Ok((count_300, o)) => match spec_take_i64(o, "count50"@) {
                Err(e) => Err(e),
                Ok((count_50, o)) => match spec_take_i64(o, "countgeki"@) {
                    Err(e) => Err(e),
                    Ok((count_geki, o)) => match spec_take_i64(o, "countkatu"@) {
                        Err(e) => Err(e),
                        Ok((count_katu, o)) => Ok(((count_100, count_300, count_50, count_geki, count_katu), o)),
                    }
                }
            }
        }
    }
}

/// One group of fields of a `GameScore` object, taken in order.
pub open spec fn spec_game_score_fields_b(o: Seq<(String, JsonValue)>) -> Result<
    ((i64, String, Mods, i64, i64), Seq<(String, JsonValue)>),
    ErrView,
> {
    match spec_take_i64(o, "countmiss"@) {
        Err(e) => Err(e),
        Ok((count_miss, o)) => match spec_take_string(o, "date"@) {
            Err(e) => Err(e),
            Ok((date, o)) => match spec_take_mods(o, "enabled_mods"@) {
                Err(e) => Err(e),
                Ok((enabled_mods, o)) => match spec_take_i64(o, "maxcombo"@) {
                    Err(e) => Err(e),
                    Ok((max_combo, o)) => match spec_take_i64(o, "perfect"@) {
                        Err(e) => Err(e),
                        Ok((perfect, o)) => Ok(((count_miss, date, enabled_mods, max_combo, perfect), o)),
                    }
                }
            }
        }
    }
}

/// One group of fields of a `GameScore` object, taken in order.
pub open spec fn spec_game_score_fields_c(o: Seq<(String, JsonValue)>) -> Result<
    ((String, String, i64, i64, String), Seq<(String, JsonValue)>),
    ErrView,
> {
    match spec_take_float(o, "pp"@) {
        Err(e) => Err(e),
        Ok((pp, o)) => match spec_take_string(o, "rank"@) {
            Err(e) => Err(e),
            Ok((rank, o)) => match spec_take_i64(o, "score"@) {
                Err(e) => Err(e),
                Ok((score, o)) => match spec_take_i64(o, "user_id"@) {
                    Err(e) => Err(e),
                    Ok((user_id, o)) => match spec_take_string(o, "username"@) {
                        Err(e) => Err(e),
                        Ok((username, o)) => Ok(((pp, rank, score, user_id, username), o)),
                    }
                }
            }
        }
    }
}

/// How a `GameScore` decodes from a JSON value: an object whose fields are
/// taken and coerced in declaration order, group by group; the first
/// failing field decides the error.
pub open spec fn spec_decode_game_score(v: JsonValue) -> Result<GameScore, ErrView> {
    match spec_obj(v) {
        Err(e) => Err(e),
        Ok(o) => match spec_game_score_fields_a(o) {
            Err(e) => Err(e),
            Ok((a, o)) => match spec_game_score_fields_b(o) {
                Err(e) => Err(e),
                Ok((b, o)) => match spec_game_score_fields_c(o) {
                    Err(e) => Err(e),
                    Ok((c, o)) => Ok(GameScore {
                        count_100: a.0,
                        count_300: a.1,
                        count_50: a.2,
                        count_geki: a.3,
                        count_katu: a.4,
                        count_miss: b.0,
                        date: b.1,
                        enabled_mods: b.2,
                        max_combo: b.3,
                        perfect: b.4,
                        pp: c.0,
                        rank: c.1,
                        score: c.2,
                        user_id: c.3,
                        username: c.4,
                    }),
                }
            }
        }
    }
}

/// Decodes a `GameScore` from a JSON value.
pub fn decode_game_score(v: JsonValue) -> (r: Result<GameScore, Error>)
    ensures
        decode_matches(r, spec_decode_game_score(v)),
{
    let mut o = match into_object(v) {
        Ok(o) => o,
        Err(e) => return Err(e),
    };
    let count_100 = match take_i64(&mut o, "count100") {
        Ok(x) => x,
        Err(e) => return Err(e),
    };
    let count_300 = match take_i64(&mut o, "count300") {
        Ok(x) => x,
        Err(e) => return Err(e),
    };
    let count_50 = match take_i64(&mut o, "count50") {
        Ok(x) => x,
        Err(e) => return Err(e),
    };
    let count_geki = match take_i64(&mut o, "countgeki") {
        Ok(x) => x,
        Err(e) => return Err(e),
    };
    let count_katu = match take_i64(&mut o, "countkatu") {
        Ok(x) => x,
        Err(e) => return Err(e),
    };
    let count_miss = match take_i64(&mut o, "countmiss") {
        Ok(x) => x,
        Err(e) => return Err(e),
    };
    let date = match take_string(&mut o, "date") {
        Ok(x) => x,
        Err(e) => return Err(e),
    };
    let enabled_mods = match take_mods(&mut o, "enabled_mods") {
        Ok(x) => x,
        Err(e) => return Err(e),
    };
    let max_combo = match take_i64(&mut o, "maxcombo") {
        Ok(x) => x,
        Err(e) => return Err(e),
    };
    let perfect = match take_i64(&mut o, "perfect") {
        Ok(x) => x,
        Err(e) => return Err(e),
    };
    let pp = match take_float(&mut o, "pp") {
        Ok(x) => x,
        Err(e) => return Err(e),
    };
    let rank = match take_string(&mut o, "rank") {
        Ok(x) => x,
        Err(e) => return Err(e),
    };
    let score = match take_i64(&mut o, "score") {
        Ok(x) => x,
        Err(e) => return Err(e),
    };
    let user_id = match take_i64(&mut o, "user_id") {
        Ok(x) => x,
        Err(e) => return Err(e),
    };
    let username = match take_string(&mut o, "username") {
        Ok(x) => x,
        Err(e) => return Err(e),
    };
    Ok(GameScore {
        count_100,
        count_300,
        count_50,
        count_geki,
        count_katu,
        count_miss,
        date,
        enabled_mods,
        max_combo,
        perfect,
        pp,
        rank,
        score,
        user_id,
        username,
    })
}

/// One group of fields of a `RecentPlay` object, taken in order.
pub open spec fn spec_recent_play_fields_a(o: Seq<(String, JsonValue)>) -> Result<
    ((i64, i64, i64, i64, i64, i64, i64), Seq<(String, JsonValue)>),
    ErrView,
> {
    match spec_take_i64(o, "beatmap_id"@) {
        Err(e) => Err(e),
        Ok((beatmap_id, o)) => match spec_take_i64(o, "count100"@) {
            Err(e) => Err(e),
            Ok((count_100, o)) => match spec_take_i64(o, "count300"@) {
                Err(e) => Err(e),
                Ok((count_300, o)) => match spec_take_i64(o, "count50"@) {
                    Err(e) => Err(e),
                    Ok((count_50, o)) => match spec_take_i64(o, "countgeki"@) {
                        Err(e) => Err(e),
                        Ok((count_geki, o)) => match spec_take_i64(o, "countkatu"@) {
                            Err(e) => Err(e),
                            Ok((count_katu, o)) => match spec_take_i64(o, "countmiss"@) {
                                Err(e) => Err(e),
                                Ok((count_miss, o)) => Ok(((beatmap_id, count_100, count_300, count_50, count_geki, count_katu, count_miss), o)),
                            }
                        }
                    }
                }
            }
        }
    }
}

/// One group of fields of a `RecentPlay` object, taken in order.
pub open spec fn spec_recent_play_fields_b(o: Seq<(String, JsonValue)>) -> Result<
    ((String, Mods, i64, bool, String, i64, i64), Seq<(String, JsonValue)>),
    ErrView,
> {
    match spec_take_string(o, "date"@) {
        Err(e) => Err(e),
        Ok((date, o)) => match spec_take_mods(o, "enabled_mods"@) {
            Err(e) => Err(e),
            Ok((enabled_mods, o)) => match spec_take_i64(o, "maxcombo"@) {
                Err(e) => Err(e),
                Ok((max_combo, o)) => match spec_take_bool01(o, "perfect"@) {
                    Err(e) => Err(e),
                    Ok((perfect, o)) => match spec_take_string(o, "rank"@) {
                        Err(e) => Err(e),
                        Ok((rank, o)) => match spec_take_i64(o, "score"@) {
                            Err(e) => Err(e),
                            Ok((score, o)) => match spec_take_i64(o, "user_id"@) {
                                Err(e) => Err(e),
                                Ok((user_id, o)) => Ok(((date, enabled_mods, max_combo, perfect, rank, score, user_id), o)),
                            }
                        }
                    }
                }
            }
        }
    }
}

/// How a `RecentPlay` decodes from a JSON value: an object whose fields are
/// taken and coerced in declaration order, group by group; the first
/// failing field decides the error.
pub open spec fn spec_decode_recent_play(v: JsonValue) -> Result<RecentPlay, ErrView> {
    match spec_obj(v) {
        Err(e) => Err(e),
        Ok(o) => match spec_recent_play_fields_a(o) {
            Err(e) => Err(e),
            Ok((a, o)) => match spec_recent_play_fields_b(o) {
                Err(e) => Err(e),
                Ok((b, o)) => Ok(RecentPlay {
                    beatmap_id: a.0,
                    count_100: a.1,
                    count_300: a.2,
                    count_50: a.3,
                    count_geki: a.4,
                    count_katu: a.5,
                    count_miss: a.6,
                    date: b.0,
                    enabled_mods: b.1,
                    max_combo: b.2,
                    perfect: b.3,
                    rank: b.4,
                    score: b.5,
                    user_id: b.6,
                }),
            }
        }
    }
}

/// Decodes a `RecentPlay` from a JSON value.
pub fn decode_recent_play(v: JsonValue) -> (r: Result<RecentPlay, Error>)
    ensures
        decode_matches(r, spec_decode_recent_play(v)),
{
    let mut o = match into_object(v) {
        Ok(o) => o,
        Err(e) => return Err(e),
    };
    let beatmap_id = match take_i64(&mut o, "beatmap_id") {
        Ok(x) => x,
        Err(e) => return Err(e),
    };
    let count_100 = match take_i64(&mut o, "count100") {
        Ok(x) => x,
        Err(e) => return Err(e),
    };
    let count_300 = match take_i64(&mut o, "count300") {
        Ok(x) => x,
        Err(e) => return Err(e),
    };
    let count_50 = match take_i64(&mut o, "count50") {
        Ok(x) => x,
        Err(e) => return Err(e),
    };
    let count_geki = match take_i64(&mut o, "countgeki") {
        Ok(x) => x,
        Err(e) => return Err(e),
    };
    let count_katu = match take_i64(&mut o, "countkatu") {
        Ok(x) => x,
        Err(e) => return Err(e),
    };
    let count_miss = match take_i64(&mut o, "countmiss") {
        Ok(x) => x,
        Err(e) => return Err(e),
    };
    let date = match take_string(&mut o, "date") {
        Ok(x) => x,
        Err(e) => return Err(e),
    };
    let enabled_mods = match take_mods(&mut o, "enabled_mods") {
        Ok(x) => x,
        Err(e) => return Err(e),
    };
    let max_combo = match take_i64(&mut o, "maxcombo") {
        Ok(x) => x,
        Err(e) => return Err(e),
    };
    let perfect = match take_bool01(&mut o, "perfect") {
        Ok(x) => x,
        Err(e) => return Err(e),
    };
    let rank = match take_string(&mut o, "rank") {
        Ok(x) => x,
        Err(e) => return Err(e),
    };
    let score = match take_i64(&mut o, "score") {
        Ok(x) => x,
        Err(e) => return Err(e),
    };
    let user_id = match take_i64(&mut o, "user_id") {
        Ok(x) => x,
        Err(e) => return Err(e),
    };
    Ok(RecentPlay {
        beatmap_id,
        count_100,
        count_300,
        count_50,
        count_geki,
        count_katu,
        count_miss,
        date,
        enabled_mods,
        max_combo,
        perfect,
        rank,
        score,
        user_id,
    })
}

/// One group of fields of a `Performance` object, taken in order.
pub open spec fn spec_performance_fields_a(o: Seq<(String, JsonValue)>) -> Result<
    ((i64, i64, i64, i64, i64), Seq<(String, JsonValue)>),
    ErrView,
> {
    match spec_take_i64(o, "beatmap_id"@) {
        Err(e) => Err(e),
        Ok((beatmap_id, o)) => match spec_take_i64(o, "count100"@) {
            Err(e) => Err(e),
            Ok((count_100, o)) => match spec_take_i64(o, "count300"@) {
                Err(e) => Err(e),
                Ok((count_300, o)) => match spec_take_i64(o, "count50"@) {
                    Err(e) => Err(e),
                    Ok((count_50, o)) => match spec_take_i64(o, "countgeki"@) {
                        Err(e) => Err(e),
                        Ok((count_geki, o)) => Ok(((beatmap_id, count_100, count_300, count_50, count_geki), o)),
                    }
                }
            }
        }
    }
}

/// One group of fields of a `Performance` object, taken in order.
pub open spec fn spec_performance_fields_b(o: Seq<(String, JsonValue)>) -> Result<
    ((i64, i64, String, Mods, i64), Seq<(String, JsonValue)>),
    ErrView,
> {
    match spec_take_i64(o, "countkatu"@) {
        Err(e) => Err(e),
        Ok((count_katu, o)) => match spec_take_i64(o, "countmiss"@) {
            Err(e) => Err(e),
            Ok((count_miss, o)) => match spec_take_string(o, "date"@) {
                Err(e) => Err(e),
                Ok((date, o)) => match spec_take_mods(o, "enabled_mods"@) {
                    Err(e) => Err(e),
                    Ok((enabled_mods, o)) => match spec_take_i64(o, "maxcombo"@) {
                        Err(e) => Err(e),
                        Ok((max_combo, o)) => Ok(((count_katu, count_miss, date, enabled_mods, max_combo), o)),
                    }
                }
            }
        }
    }
}

/// One group of fields of a `Performance` object, taken in order.
pub open spec fn spec_performance_fields_c(o: Seq<(String, JsonValue)>) -> Result<
    ((bool, String, String, i64, i64), Seq<(String, JsonValue)>),
    ErrView,
> {
    match spec_take_bool01(o, "perfect"@) {
        Err(e) => Err(e),
        Ok((perfect, o)) => match spec_take_float(o, "pp"@) {
            Err(e) => Err(e),
            Ok((pp, o)) => match spec_take_string(o, "rank"@) {
                Err(e) => Err(e),
                Ok((rank, o)) => match spec_take_i64(o, "score"@) {
                    Err(e) => Err(e),
                    Ok((score, o)) => match spec_take_i64(o, "user_id"@) {
                        Err(e) => Err(e),
                        Ok((user_id, o)) => Ok(((perfect, pp, rank, score, user_id), o)),
                    }
                }
            }
        }
    }
}

/// How a `Performance` decodes from a JSON value: an object whose fields are
/// taken and coerced in declaration order, group by group; the first
/// failing field decides the error.
pub open spec fn spec_decode_performance(v: JsonValue) -> Result<Performance, ErrView> {
    match spec_obj(v) {
        Err(e) => Err(e),
        Ok(o) => match spec_performance_fields_a(o) {
            Err(e) => Err(e),
            Ok((a, o)) => match spec_performance_fields_b(o) {
                Err(e) => Err(e),
                Ok((b, o)) => match spec_performance_fields_c(o) {
                    Err(e) => Err(e),
                    Ok((c, o)) => Ok(Performance {
                        beatmap_id: a.0,
                        count_100: a.1,
                        count_300: a.2,
                        count_50: a.3,
                        count_geki: a.4,
                        count_katu: b.0,
                        count_miss: b.1,
                        date: b.2,
                        enabled_mods: b.3,
                        max_combo: b.4,
                        perfect: c.0,
                        pp: c.1,
                        rank: c.2,
                        score: c.3,
                        user_id: c.4,
                    }),
                }
            }
        }
    }
}

/// Decodes a `Performance` from a JSON value.
pub fn decode_performance(v: JsonValue) -> (r: Result<Performance, Error>)
    ensures
        decode_matches(r, spec_decode_performance(v)),
{
    let mut o = match into_object(v) {
        Ok(o) => o,
        Err(e) => return Err(e),
    };
    let beatmap_id = match take_i64(&mut o, "beatmap_id") {
        Ok(x) => x,
        Err(e) => return Err(e),
    };
    let count_100 = match take_i64(&mut o, "count100") {
        Ok(x) => x,
        Err(e) => return Err(e),
    };
    let count_300 = match take_i64(&mut o, "count300") {
        Ok(x) => x,
        Err(e) => return Err(e),
    };
    let count_50 = match take_i64(&mut o, "count50") {
        Ok(x) => x,
        Err(e) => return Err(e),
    };
    let count_geki = match take_i64(&mut o, "countgeki") {
        Ok(x) => x,
        Err(e) => return Err(e),
    };
    let count_katu = match take_i64(&mut o, "countkatu") {
        Ok(x) => x,
        Err(e) => return Err(e),
    };
    let count_miss = match take_i64(&mut o, "countmiss") {
        Ok(x) => x,
        Err(e) => return Err(e),
    };
    let date = match take_string(&mut o, "date") {
        Ok(x) => x,
        Err(e) => return Err(e),
    };
    let enabled_mods = match take_mods(&mut o, "enabled_mods") {
        Ok(x) => x,
        Err(e) => return Err(e),
    };
    let max_combo = match take_i64(&mut o, "maxcombo") {
        Ok(x) => x,
        Err(e) => return Err(e),
    };
    let perfect = match take_bool01(&mut o, "perfect") {
        Ok(x) => x,
        Err(e) => return Err(e),
    };
    let pp = match take_float(&mut o, "pp") {
        Ok(x) => x,
        Err(e) => return Err(e),
    };
    let rank = match take_string(&mut o, "rank") {
        Ok(x) => x,
        Err(e) => return Err(e),
    };
    let score = match take_i64(&mut o, "score") {
        Ok(x) => x,
        Err(e) => return Err(e),
    };
    let user_id = match take_i64(&mut o, "user_id") {
        Ok(x) => x,
        Err(e) => return Err(e),
    };
    Ok(Performance {
        beatmap_id,
        count_100,
        count_300,
        count_50,
        count_geki,
        count_katu,
        count_miss,
        date,
        enabled_mods,
        max_combo,
        perfect,
        pp,
        rank,
        score,
        user_id,
    })
}

/// One group of fields of a `Beatmap` object, taken in order.
pub open spec fn spec_beatmap_fields_a(o: Seq<(String, JsonValue)>) -> Result<
    ((Approval, Option<String>, String, i64, i64, String, String), Seq<(String, JsonValue)>),
    ErrView,
> {
    match spec_take_approval(o, "approved"@) {
        Err(e) => Err(e),
        Ok((approved, o)) => match spec_take_opt_string(o, "approved_date"@) {
            Err(e) => Err(e),
            Ok((approved_date, o)) => match spec_take_string(o, "artist"@) {
                Err(e) => Err(e),
                Ok((artist, o)) => match spec_take_i64(o, "beatmap_id"@) {
                    Err(e) => Err(e),
                    Ok((beatmap_id, o)) => match spec_take_i64(o, "beatmapset_id"@) {
                        Err(e) => Err(e),
                        Ok((beatmapset_id, o)) => match spec_take_float(o, "bpm"@) {
                            Err(e) => Err(e),
                            Ok((bpm, o)) => match spec_take_string(o, "creator"@) {
                                Err(e) => Err(e),
                                Ok((creator, o)) => Ok(((approved, approved_date, artist, beatmap_id, beatmapset_id, bpm, creator), o)),
                            }
                        }
                    }
                }
            }
        }
    }
}

/// One group of fields of a `Beatmap` object, taken in order.
pub open spec fn spec_beatmap_fields_b(o: Seq<(String, JsonValue)>) -> Result<
    ((String, String, String, String, String, i64, String), Seq<(String, JsonValue)>),
    ErrView,
> {
    match spec_take_float(o, "difficultyrating"@) {
        Err(e) => Err(e),
        Ok((difficulty_rating, o)) => match spec_take_float(o, "diff_approach"@) {
            Err(e) => Err(e),
            Ok((diff_approach, o)) => match spec_take_float(o, "diff_drain"@) {
                Err(e) => Err(e),
                Ok((diff_drain, o)) => match spec_take_float(o, "diff_overall"@) {
                    Err(e) => Err(e),
                    Ok((diff_overall, o)) => match spec_take_float(o, "diff_size"@) {
                        Err(e) => Err(e),
                        Ok((diff_size, o)) => match spec_take_i64(o, "favourite_count"@) {
                            Err(e) => Err(e),
                            Ok((favourite_count, o)) => match spec_take_string(o, "file_md5"@) {
                                Err(e) => Err(e),
                                Ok((file_md5, o)) => Ok(((difficulty_rating, diff_approach, diff_drain, diff_overall, diff_size, favourite_count, file_md5), o)),
                            }
                        }
                    }
                }
            }
        }
    }
}

/// One group of fields of a `Beatmap` object, taken in order.
pub open spec fn spec_beatmap_fields_c(o: Seq<(String, JsonValue)>) -> Result<
    ((Genre, i64, Language, String, Option<i64>, i64, i64), Seq<(String, JsonValue)>),
    ErrView,
> {
    match spec_take_genre(o, "genre_id"@) {
        Err(e) => Err(e),
        Ok((genre_id, o)) => match spec_take_i64(o, "hit_length"@) {
            Err(e) => Err(e),
            Ok((hit_length, o)) => match spec_take_language(o, "language_id"@) {
                Err(e) => Err(e),
                Ok((language_id, o)) => match spec_take_string(o, "last_update"@) {
                    Err(e) => Err(e),
                    Ok((last_update, o)) => {
                        let (max_combo, o) = spec_take_opt_i64(o, "max_combo"@);
                        match spec_take_i64(o, "mode"@) {
                            Err(e) => Err(e),
                            Ok((mode, o)) => match spec_take_i64(o, "passcount"@) {
                                Err(e) => Err(e),
                                Ok((pass_count, o)) => Ok(((genre_id, hit_length, language_id, last_update, max_combo, mode, pass_count), o)),
                            }
                        }
                    }
                }
            }
        }
    }
}

/// One group of fields of a `Beatmap` object, taken in order.
pub open spec fn spec_beatmap_fields_d(o: Seq<(String, JsonValue)>) -> Result<
    ((i64, String, String, String, i64, String), Seq<(String, JsonValue)>),
    ErrView,
> {
    match spec_take_i64(o, "playcount"@) {
        Err(e) => Err(e),
        Ok((play_count, o)) => match spec_take_string(o, "source"@) {
            Err(e) => Err(e),
            Ok((source, o)) => match spec_take_string(o, "tags"@) {
                Err(e) => Err(e),
                Ok((tags, o)) => match spec_take_string(o, "title"@) {
                    Err(e) => Err(e),
                    Ok((title, o)) => match spec_take_i64(o, "total_length"@) {
                        Err(e) => Err(e),
                        Ok((total_length, o)) => match spec_take_string(o, "version"@) {
                            Err(e) => Err(e),
                            Ok((version, o)) => Ok(((play_count, source, tags, title, total_length, version), o)),
                        }
                    }
                }
            }
        }
    }
}

/// How a `Beatmap` decodes from a JSON value: an object whose fields are
/// taken and coerced in declaration order, group by group; the first
/// failing field decides the error.
pub open spec fn spec_decode_beatmap(v: JsonValue) -> Result<Beatmap, ErrView> {
    match spec_obj(v) {
        Err(e) => Err(e),
        Ok(o) => match spec_beatmap_fields_a(o) {
            Err(e) => Err(e),
            Ok((a, o)) => match spec_beatmap_fields_b(o) {
                Err(e) => Err(e),
                Ok((b, o)) => match spec_beatmap_fields_c(o) {
                    Err(e) => Err(e),
                    Ok((c, o)) => match spec_beatmap_fields_d(o) {
                        Err(e) => Err(e),
                        Ok((d, o)) => Ok(Beatmap {
                            approved: a.0,
                            approved_date: a.1,
                            artist: a.2,
                            beatmap_id: a.3,
                            beatmapset_id: a.4,
                            bpm: a.5,
                            creator: a.6,
                            difficulty_rating: b.0,
                            diff_approach: b.1,
                            diff_drain: b.2,
                            diff_overall: b.3,
                            diff_size: b.4,
                            favourite_count: b.5,
                            file_md5: b.6,
                            genre_id: c.0,
                            hit_length: c.1,
                            language_id: c.2,
                            last_update: c.3,
                            max_combo: c.4,
                            mode: c.5,
                            pass_count: c.6,
                            play_count: d.0,
                            source: d.1,
                            tags: d.2,
                            title: d.3,
                            total_length: d.4,
                            version: d.5,
                        }),
                    }
                }
            }
        }
    }
}

/// Decodes a `Beatmap` from a JSON value.
pub fn decode_beatmap(v: JsonValue) -> (r: Result<Beatmap, Error>)
    ensures
        decode_matches(r, spec_decode_beatmap(v)),
{
    let mut o = match into_object(v) {
        Ok(o) => o,
        Err(e) => return Err(e),
    };
    let approved = match take_approval(&mut o, "approved") {
        Ok(x) => x,
        Err(e) => return Err(e),
    };
    let approved_date = match take_opt_string(&mut o, "approved_date") {
        Ok(x) => x,
        Err(e) => return Err(e),
    };
    let artist = match take_string(&mut o, "artist") {
        Ok(x) => x,
        Err(e) => return Err(e),
    };
    let beatmap_id = match take_i64(&mut o, "beatmap_id") {
        Ok(x) => x,
        Err(e) => return Err(e),
    };
    let beatmapset_id = match take_i64(&mut o, "beatmapset_id") {
        Ok(x) => x,
        Err(e) => return Err(e),
    };
    let bpm = match take_float(&mut o, "bpm") {
        Ok(x) => x,
        Err(e) => return Err(e),
    };
    let creator = match take_string(&mut o, "creator") {
        Ok(x) => x,
        Err(e) => return Err(e),
    };
    let difficulty_rating = match take_float(&mut o, "difficultyrating") {
        Ok(x) => x,
        Err(e) => return Err(e),
    };
    let diff_approach = match take_float(&mut o, "diff_approach") {
        Ok(x) => x,
        Err(e) => return Err(e),
    };
    let diff_drain = match take_float(&mut o, "diff_drain") {
        Ok(x) => x,
        Err(e) => return Err(e),
    };
    let diff_overall = match take_float(&mut o, "diff_overall") {
        Ok(x) => x,
        Err(e) => return Err(e),
    };
    let diff_size = match take_float(&mut o, "diff_size") {
        Ok(x) => x,
        Err(e) => return Err(e),
    };
    let favourite_count = match take_i64(&mut o, "favourite_count") {
        Ok(x) => x,
        Err(e) => return Err(e),
    };
    let file_md5 = match take_string(&mut o, "file_md5") {
        Ok(x) => x,
        Err(e) => return Err(e),
    };
    let genre_id = match take_genre(&mut o, "genre_id") {
        Ok(x) => x,
        Err(e) => return Err(e),
    };
    let hit_length = match take_i64(&mut o, "hit_length") {
        Ok(x) => x,
        Err(e) => return Err(e),
    };
    let language_id = match take_language(&mut o, "language_id") {
        Ok(x) => x,
        Err(e) => return Err(e),
    };
    let last_update = match take_string(&mut o, "last_update") {
        Ok(x) => x,
        Err(e) => return Err(e),
    };
    let max_combo = take_opt_i64(&mut o, "max_combo");
    let mode = match take_i64(&mut o, "mode") {
        Ok(x) => x,
        Err(e) => return Err(e),
    };
    let pass_count = match take_i64(&mut o, "passcount") {
        Ok(x) => x,
        Err(e) => return Err(e),
    };
    let play_count = match take_i64(&mut o, "playcount") {
        Ok(x) => x,
        Err(e) => return Err(e),
    };
    let source = match take_string(&mut o, "source") {
        Ok(x) => x,
        Err(e) => return Err(e),
    };
    let tags = match take_string(&mut o, "tags") {
        Ok(x) => x,
        Err(e) => return Err(e),
    };
    let title = match take_string(&mut o, "title") {
        Ok(x) => x,
        Err(e) => return Err(e),
    };
    let total_length = match take_i64(&mut o, "total_length") {
        Ok(x) => x,
        Err(e) => return Err(e),
    };
    let version = match take_string(&mut o, "version") {
        Ok(x) => x,
        Err(e) => return Err(e),
    };
    Ok(Beatmap {
        approved,
        approved_date,
        artist,
        beatmap_id,
        beatmapset_id,
        bpm,
        creator,
        difficulty_rating,
        diff_approach,
        diff_drain,
        diff_overall,
        diff_size,
        favourite_count,
        file_md5,
        genre_id,
        hit_length,
        language_id,
        last_update,
        max_combo,
        mode,
        pass_count,
        play_count,
        source,
        tags,
        title,
        total_length,
        version,
    })
}

/// Decoding each element of a JSON array as a `GameScore`, in order; the
/// first failure fails the whole list.
pub open spec fn spec_decode_game_score_list(items: Seq<JsonValue>) -> Result<Seq<GameScore>, ErrView>
    decreases items.len(),
{
    if items.len() == 0 {
        Ok(Seq::empty())
    } else {
        match spec_decode_game_score(items[0]) {
            Err(e) => Err(e),
            Ok(x) => match spec_decode_game_score_list(items.drop_first()) {
                Err(e) => Err(e),
                Ok(rest) => Ok(seq![x] + rest),
            },
        }
    }
}

#[verifier::rlimit(100)]
/// Decodes every element of a JSON array as a `GameScore`.
pub fn decode_game_score_list(items: Vec<JsonValue>) -> (r: Result<Vec<GameScore>, Error>)
    ensures
        decode_matches_seq(r, spec_decode_game_score_list(items@)),
{
    let ghost orig = items@;
    let mut rest = items;
    let mut out: Vec<GameScore> = Vec::new();
    proof {
        if spec_decode_game_score_list(orig) is Ok {
            assert(out@ + spec_decode_game_score_list(orig)->Ok_0 =~= spec_decode_game_score_list(
                orig,
            )->Ok_0);
        }
    }
    while rest.len() > 0
        invariant
            orig == items@,
            spec_decode_game_score_list(orig) == (match spec_decode_game_score_list(rest@) {
                Ok(tail) => Ok::<Seq<GameScore>, ErrView>(out@ + tail),
                Err(e) => Err::<Seq<GameScore>, ErrView>(e),
            }),
        decreases rest@.len(),
    {
        let ghost before = rest@;
        let head = rest.remove(0);
        proof {
            assert(before.drop_first() =~= rest@);
        }
        match decode_game_score(head) {
            Err(e) => {
                proof {
                    assert(spec_decode_game_score(head) is Err);
                    assert(spec_decode_game_score_list(before) == Err::<Seq<GameScore>, ErrView>(e@));
                    assert(spec_decode_game_score_list(orig) == Err::<Seq<GameScore>, ErrView>(e@));
                }
                return Err(e);
            },
            Ok(x) => {
                let ghost out_before = out@;
                out.push(x);
                proof {
                    if spec_decode_game_score_list(rest@) is Ok {
                        let tail = spec_decode_game_score_list(rest@)->Ok_0;
                        assert(out@ + tail =~= out_before + (seq![x] + tail));
                    }
                }
            },
        }
    }
    proof {
        assert(rest@ =~= Seq::<JsonValue>::empty());
        assert(out@ + Seq::<GameScore>::empty() =~= out@);
    }
    Ok(out)
}


/// Decoding each element of a JSON array as a `UserEvent`, in order; the
/// first failure fails the whole list.
pub open spec fn spec_decode_user_event_list(items: Seq<JsonValue>) -> Result<Seq<UserEvent>, ErrView>
    decreases items.len(),
{
    if items.len() == 0 {
        Ok(Seq::empty())
    } else {
        match spec_decode_user_event(items[0]) {
            Err(e) => Err(e),
            Ok(x) => match spec_decode_user_event_list(items.drop_first()) {
                Err(e) => Err(e),
                Ok(rest) => Ok(seq![x] + rest),
            },
        }
    }
}

#[verifier::rlimit(100)]
/// Decodes every element of a JSON array as a `UserEvent`.
pub fn decode_user_event_list(items: Vec<JsonValue>) -> (r: Result<Vec<UserEvent>, Error>)
    ensures
        decode_matches_seq(r, spec_decode_user_event_list(items@)),
{
    let ghost orig = items@;
    let mut rest = items;
    let mut out: Vec<UserEvent> = Vec::new();
    proof {
        if spec_decode_user_event_list(orig) is Ok {
            assert(out@ + spec_decode_user_event_list(orig)->Ok_0 =~= spec_decode_user_event_list(
                orig,
            )->Ok_0);
        }
    }
    while rest.len() > 0
        invariant
            orig == items@,
            spec_decode_user_event_list(orig) == (match spec_decode_user_event_list(rest@) {
                Ok(tail) => Ok::<Seq<UserEvent>, ErrView>(out@ + tail),
                Err(e) => Err::<Seq<UserEvent>, ErrView>(e),
            }),
        decreases rest@.len(),
    {
        let ghost before = rest@;
        let head = rest.remove(0);
        proof {
            assert(before.drop_first() =~= rest@);
        }
        match decode_user_event(head) {
            Err(e) => {
                proof {
                    assert(spec_decode_user_event(head) is Err);
                    assert(spec_decode_user_event_list(before) == Err::<Seq<UserEvent>, ErrView>(e@));
                    assert(spec_decode_user_event_list(orig) == Err::<Seq<UserEvent>, ErrView>(e@));
                }
                return Err(e);
            },
            Ok(x) => {
                let ghost out_before = out@;
                out.push(x);
                proof {
                    if spec_decode_user_event_list(rest@) is Ok {
                        let tail = spec_decode_user_event_list(rest@)->Ok_0;
                        assert(out@ + tail =~= out_before + (seq![x] + tail));
                    }
                }
            },
        }
    }
    proof {
        assert(rest@ =~= Seq::<JsonValue>::empty());
        assert(out@ + Seq::<UserEvent>::empty() =~= out@);
    }
    Ok(out)
}


/// Decoding each element of a JSON array as a `Beatmap`, in order; the
/// first failure fails the whole list.
pub open spec fn spec_decode_beatmap_list(items: Seq<JsonValue>) -> Result<Seq<Beatmap>, ErrView>
    decreases items.len(),
{
    if items.len() == 0 {
        Ok(Seq::empty())
    } else {
        match spec_decode_beatmap(items[0]) {
            Err(e) => Err(e),
            Ok(x) => match spec_decode_beatmap_list(items.drop_first()) {
                Err(e) => Err(e),
                Ok(rest) => Ok(seq![x] + rest),
            },
        }
    }
}

#[verifier::rlimit(100)]
/// Decodes every element of a JSON array as a `Beatmap`.
pub fn decode_beatmap_list(items: Vec<JsonValue>) -> (r: Result<Vec<Beatmap>, Error>)
    ensures
        decode_matches_seq(r, spec_decode_beatmap_list(items@)),
{
    let ghost orig = items@;
    let mut rest = items;
    let mut out: Vec<Beatmap> = Vec::new();
    proof {
        if spec_decode_beatmap_list(orig) is Ok {
            assert(out@ + spec_decode_beatmap_list(orig)->Ok_0 =~= spec_decode_beatmap_list(
                orig,
            )->Ok_0);
        }
    }
    while rest.len() > 0
        invariant
            orig == items@,
            spec_decode_beatmap_list(orig) == (match spec_decode_beatmap_list(rest@) {
                Ok(tail) => Ok::<Seq<Beatmap>, ErrView>(out@ + tail),
                Err(e) => Err::<Seq<Beatmap>, ErrView>(e),
            }),
        decreases rest@.len(),
    {
        let ghost before = rest@;
        let head = rest.remove(0);
        proof {
            assert(before.drop_first() =~= rest@);
        }
        match decode_beatmap(head) {
            Err(e) => {
                proof {
                    assert(spec_decode_beatmap(head) is Err);
                    assert(spec_decode_beatmap_list(before) == Err::<Seq<Beatmap>, ErrView>(e@));
                    assert(spec_decode_beatmap_list(orig) == Err::<Seq<Beatmap>, ErrView>(e@));
                }
                return Err(e);
            },
            Ok(x) => {
                let ghost out_before = out@;
                out.push(x);
                proof {
                    if spec_decode_beatmap_list(rest@) is Ok {
                        let tail = spec_decode_beatmap_list(rest@)->Ok_0;
                        assert(out@ + tail =~= out_before + (seq![x] + tail));
                    }
                }
            },
        }
    }
    proof {
        assert(rest@ =~= Seq::<JsonValue>::empty());
        assert(out@ + Seq::<Beatmap>::empty() =~= out@);
    }
    Ok(out)
}


/// Decoding each element of a JSON array as a `RecentPlay`, in order; the
/// first failure fails the whole list.
pub open spec fn spec_decode_recent_play_list(items: Seq<JsonValue>) -> Result<Seq<RecentPlay>, ErrView>
    decreases items.len(),
{
    if items.len() == 0 {
        Ok(Seq::empty())
    } else {
        match spec_decode_recent_play(items[0]) {
            Err(e) => Err(e),
            Ok(x) => match spec_decode_recent_play_list(items.drop_first()) {
                Err(e) => Err(e),
                Ok(rest) => Ok(seq![x] + rest),
            },
        }
    }
}

#[verifier::rlimit(100)]
/// Decodes every element of a JSON array as a `RecentPlay`.
pub fn decode_recent_play_list(items: Vec<JsonValue>) -> (r: Result<Vec<RecentPlay>, Error>)
    ensures
        decode_matches_seq(r, spec_decode_recent_play_list(items@)),
{
    let ghost orig = items@;
    let mut rest = items;
    let mut out: Vec<RecentPlay> = Vec::new();
    proof {
        if spec_decode_recent_play_list(orig) is Ok {
            assert(out@ + spec_decode_recent_play_list(orig)->Ok_0 =~= spec_decode_recent_play_list(
                orig,
            )->Ok_0);
        }
    }
    while rest.len() > 0
        invariant
            orig == items@,
            spec_decode_recent_play_list(orig) == (match spec_decode_recent_play_list(rest@) {
                Ok(tail) => Ok::<Seq<RecentPlay>, ErrView>(out@ + tail),
                Err(e) => Err::<Seq<RecentPlay>, ErrView>(e),
            }),
        decreases rest@.len(),
    {
        let ghost before = rest@;
        let head = rest.remove(0);
        proof {
            assert(before.drop_first() =~= rest@);
        }
        match decode_recent_play(head) {
            Err(e) => {
                proof {
                    assert(spec_decode_recent_play(head) is Err);
                    assert(spec_decode_recent_play_list(before) == Err::<Seq<RecentPlay>, ErrView>(e@));
                    assert(spec_decode_recent_play_list(orig) == Err::<Seq<RecentPlay>, ErrView>(e@));
                }
                return Err(e);
            },
            Ok(x) => {
                let ghost out_before = out@;
                out.push(x);
                proof {
                    if spec_decode_recent_play_list(rest@) is Ok {
                        let tail = spec_decode_recent_play_list(rest@)->Ok_0;
                        assert(out@ + tail =~= out_before + (seq![x] + tail));
                    }
                }
            },
        }
    }
    proof {
        assert(rest@ =~= Seq::<JsonValue>::empty());
        assert(out@ + Seq::<RecentPlay>::empty() =~= out@);
    }
    Ok(out)
}


/// Decoding each element of a JSON array as a `Performance`, in order; the
/// first failure fails the whole list.
pub open spec fn spec_decode_performance_list(items: Seq<JsonValue>) -> Result<Seq<Performance>, ErrView>
    decreases items.len(),
{
    if items.len() == 0 {
        Ok(Seq::empty())
    } else {
        match spec_decode_performance(items[0]) {
            Err(e) => Err(e),
            Ok(x) => match spec_decode_performance_list(items.drop_first()) {
                Err(e) => Err(e),
                Ok(rest) => Ok(seq![x] + rest),
            },
        }
    }
}

#[verifier::rlimit(100)]
/// Decodes every element of a JSON array as a `Performance`.
pub fn decode_performance_list(items: Vec<JsonValue>) -> (r: Result<Vec<Performance>, Error>)
    ensures
        decode_matches_seq(r, spec_decode_performance_list(items@)),
{
    let ghost orig = items@;
    let mut rest = items;
    let mut out: Vec<Performance> = Vec::new();
    proof {
        if spec_decode_performance_list(orig) is Ok {
            assert(out@ + spec_decode_performance_list(orig)->Ok_0 =~= spec_decode_performance_list(
                orig,
            )->Ok_0);
        }
    }
    while rest.len() > 0
        invariant
            orig == items@,
            spec_decode_performance_list(orig) == (match spec_decode_performance_list(rest@) {
                Ok(tail) => Ok::<Seq<Performance>, ErrView>(out@ + tail),
                Err(e) => Err::<Seq<Performance>, ErrView>(e),
            }),
        decreases rest@.len(),
    {
        let ghost before = rest@;
        let head = rest.remove(0);
        proof {
            assert(before.drop_first() =~= rest@);
        }
        match decode_performance(head) {
            Err(e) => {
                proof {
                    assert(spec_decode_performance(head) is Err);
                    assert(spec_decode_performance_list(before) == Err::<Seq<Performance>, ErrView>(e@));
                    assert(spec_decode_performance_list(orig) == Err::<Seq<Performance>, ErrView>(e@));
                }
                return Err(e);
            },
            Ok(x) => {
                let ghost out_before = out@;
                out.push(x);
                proof {
                    if spec_decode_performance_list(rest@) is Ok {
                        let tail = spec_decode_performance_list(rest@)->Ok_0;
                        assert(out@ + tail =~= out_before + (seq![x] + tail));
                    }
                }
            },
        }
    }
    proof {
        assert(rest@ =~= Seq::<JsonValue>::empty());
        assert(out@ + Seq::<Performance>::empty() =~= out@);
    }
    Ok(out)
}



/// A field holding an array of game scores, each decoded in order.
pub open spec fn spec_take_scores(o: Seq<(String, JsonValue)>, name: Seq<char>) -> Result<
    (Seq<GameScore>, Seq<(String, JsonValue)>),
    ErrView,
> {
    match spec_take(o, name) {
        None => Err(ErrView::Decode(name, JsonValue::Null)),
        Some(p) => match p.0 {
            JsonValue::Array(items) => match spec_decode_game_score_list(items@) {
                Ok(xs) => Ok((xs, p.1)),
                Err(e) => Err(e),
            },
            _ => Err(ErrView::Decode(name, p.0)),
        },
    }
}

fn take_scores(o: &mut Vec<(String, JsonValue)>, key: &str) -> (r: Result<Vec<GameScore>, Error>)
    ensures
        match spec_take_scores(old(o)@, key@) {
            Ok(p) => r matches Ok(v) && v@ == p.0 && final(o)@ == p.1,
            Err(ev) => r matches Err(e) && e@ == ev,
        },
{
    match take_field(o, key) {
        None => Err(Error::Decode(key.to_owned(), JsonValue::Null)),
        Some(v) => match v {
            JsonValue::Array(items) => decode_game_score_list(items),
            other => Err(Error::Decode(key.to_owned(), other)),
        },
    }
}

/// A field holding an array of user events, each decoded in order.
pub open spec fn spec_take_events(o: Seq<(String, JsonValue)>, name: Seq<char>) -> Result<
    (Seq<UserEvent>, Seq<(String, JsonValue)>),
    ErrView,
> {
    match spec_take(o, name) {
        None => Err(ErrView::Decode(name, JsonValue::Null)),
        Some(p) => match p.0 {
            JsonValue::Array(items) => match spec_decode_user_event_list(items@) {
                Ok(xs) => Ok((xs, p.1)),
                Err(e) => Err(e),
            },
            _ => Err(ErrView::Decode(name, p.0)),
        },
    }
}

fn take_events(o: &mut Vec<(String, JsonValue)>, key: &str) -> (r: Result<Vec<UserEvent>, Error>)
    ensures
        match spec_take_events(old(o)@, key@) {
            Ok(p) => r matches Ok(v) && v@ == p.0 && final(o)@ == p.1,
            Err(ev) => r matches Err(e) && e@ == ev,
        },
{
    match take_field(o, key) {
        None => Err(Error::Decode(key.to_owned(), JsonValue::Null)),
        Some(v) => match v {
            JsonValue::Array(items) => decode_user_event_list(items),
            other => Err(Error::Decode(key.to_owned(), other)),
        },
    }
}

/// The decoded parts of a `Game`: every field as the record holds it, with
/// the score list as a sequence.
pub struct GameParts {
    pub beatmap_id: i64,
    pub end_time: String,
    pub game_id: i64,
    pub match_type: i64,
    pub mods: Mods,
    pub play_mode: PlayMode,
    pub scores: Seq<GameScore>,
    pub scoring_type: ScoringType,
    pub start_time: String,
    pub team_type: TeamType,
}

/// A `Game` agrees with its decoded parts field by field.
pub open spec fn game_matches(g: Game, p: GameParts) -> bool {
    &&& g.beatmap_id == p.beatmap_id
    &&& g.end_time == p.end_time
    &&& g.game_id == p.game_id
    &&& g.match_type == p.match_type
    &&& g.mods == p.mods
    &&& g.play_mode == p.play_mode
    &&& g.scores@ == p.scores
    &&& g.scoring_type == p.scoring_type
    &&& g.start_time == p.start_time
    &&& g.team_type == p.team_type
}

/// How a `Game` decodes from a JSON value: an object whose fields are taken
/// and coerced in declaration order; the first failing field decides the
/// error.
pub open spec fn spec_decode_game(v: JsonValue) -> Result<GameParts, ErrView> {
    match spec_obj(v) {
        Err(e) => Err(e),
        Ok(o) => match spec_take_i64(o, "beatmap_id"@) {
            Err(e) => Err(e),
            Ok((beatmap_id, o)) => match spec_take_string(o, "end_time"@) {
                Err(e) => Err(e),
                Ok((end_time, o)) => match spec_take_i64(o, "game_id"@) {
                    Err(e) => Err(e),
                    Ok((game_id, o)) => match spec_take_i64(o, "match_type"@) {
                        Err(e) => Err(e),
                        Ok((match_type, o)) => match spec_take_mods(o, "mods"@) {
                            Err(e) => Err(e),
                            Ok((mods, o)) => match spec_take_play_mode(o, "play_mode"@) {
                                Err(e) => Err(e),
                                Ok((play_mode, o)) => match spec_take_scores(o, "scores"@) {
                                    Err(e) => Err(e),
                                    Ok((scores, o)) => match spec_take_scoring_type(
                                        o,
                                        "scoring_type"@,
                                    ) {
                                        Err(e) => Err(e),
                                        Ok((scoring_type, o)) => match spec_take_string(
                                            o,
                                            "start_time"@,
                                        ) {
                                            Err(e) => Err(e),
                                            Ok((start_time, o)) => match spec_take_team_type(
                                                o,
                                                "team_type"@,
                                            ) {
                                                Err(e) => Err(e),
                                                Ok((team_type, _)) => Ok(
                                                    GameParts {
                                                        beatmap_id,
                                                        end_time,
                                                        game_id,
                                                        match_type,
                                                        mods,
                                                        play_mode,
                                                        scores,
                                                        scoring_type,
                                                        start_time,
                                                        team_type,
                                                    },
                                                ),
                                            },
                                        },
                                    },
                                },
                            },
                        },
                    },
                },
            },
        },
    }
}

/// Decodes a `Game` from a JSON value.
pub fn decode_game(v: JsonValue) -> (r: Result<Game, Error>)
    ensures
        match spec_decode_game(v) {
            Ok(p) => r matches Ok(g) && game_matches(g, p),
            Err(ev) => r matches Err(e) && e@ == ev,
        },
{
    let mut o = match into_object(v) {
        Ok(o) => o,
        Err(e) => return Err(e),
    };
    let beatmap_id = match take_i64(&mut o, "beatmap_id") {
        Ok(x) => x,
        Err(e) => return Err(e),
    };
    let end_time = match take_string(&mut o, "end_time") {
        Ok(x) => x,
        Err(e) => return Err(e),
    };
    let game_id = match take_i64(&mut o, "game_id") {
        Ok(x) => x,
        Err(e) => return Err(e),
    };
    let match_type = match take_i64(&mut o, "match_type") {
        Ok(x) => x,
        Err(e) => return Err(e),
    };
    let mods = match take_mods(&mut o, "mods") {
        Ok(x) => x,
        Err(e) => return Err(e),
    };
    let play_mode = match take_play_mode(&mut o, "play_mode") {
        Ok(x) => x,
        Err(e) => return Err(e),
    };
    let scores = match take_scores(&mut o, "scores") {
        Ok(x) => x,
        Err(e) => return Err(e),
    };
    let scoring_type = match take_scoring_type(&mut o, "scoring_type") {
        Ok(x) => x,
        Err(e) => return Err(e),
    };
    let start_time = match take_string(&mut o, "start_time") {
        Ok(x) => x,
        Err(e) => return Err(e),
    };
    let team_type = match take_team_type(&mut o, "team_type") {
        Ok(x) => x,
        Err(e) => return Err(e),
    };
    Ok(Game {
        beatmap_id,
        end_time,
        game_id,
        match_type,
        mods,
        play_mode,
        scores,
        scoring_type,
        start_time,
        team_type,
    })
}

/// The decoded parts of a `User`: every field as the record holds it, with
/// the event list as a sequence.
pub struct UserParts {
    pub id: i64,
    pub accuracy: String,
    pub count_100: i64,
    pub count_300: i64,
    pub count_50: i64,
    pub count_rank_a: i64,
    pub count_rank_s: i64,
    pub count_rank_ss: i64,
    pub country: String,
    pub events: Seq<UserEvent>,
    pub level: String,
    pub play_count: i64,
    pub pp_country_rank: i64,
    pub pp_rank: i64,
    pub pp_raw: String,
    pub ranked_score: i64,
    pub total_score: i64,
    pub username: String,
}

/// A `User` agrees with its decoded parts field by field.
pub open spec fn user_matches(u: User, p: UserParts) -> bool {
    &&& u.id == p.id
    &&& u.accuracy == p.accuracy
    &&& u.count_100 == p.count_100
    &&& u.count_300 == p.count_300
    &&& u.count_50 == p.count_50
    &&& u.count_rank_a == p.count_rank_a
    &&& u.count_rank_s == p.count_rank_s
    &&& u.count_rank_ss == p.count_rank_ss
    &&& u.country == p.country
    &&& u.events@ == p.events
    &&& u.level == p.level
    &&& u.play_count == p.play_count
    &&& u.pp_country_rank == p.pp_country_rank
    &&& u.pp_rank == p.pp_rank
    &&& u.pp_raw == p.pp_raw
    &&& u.ranked_score == p.ranked_score
    &&& u.total_score == p.total_score
    &&& u.username == p.username
}

/// One group of fields of a `User` object, taken in order.
pub open spec fn spec_user_fields_a(o: Seq<(String, JsonValue)>) -> Result<
    ((i64, String, i64, i64, i64, i64), Seq<(String, JsonValue)>),
    ErrView,
> {
    match spec_take_i64(o, "user_id"@) {
        Err(e) => Err(e),
        Ok((id, o)) => match spec_take_float(o, "accuracy"@) {
            Err(e) => Err(e),
            Ok((accuracy, o)) => match spec_take_i64(o, "count100"@) {
                Err(e) => Err(e),
                Ok((count_100, o)) => match spec_take_i64(o, "count300"@) {
                    Err(e) => Err(e),
                    Ok((count_300, o)) => match spec_take_i64(o, "count50"@) {
                        Err(e) => Err(e),
                        Ok((count_50, o)) => match spec_take_i64(o, "count_rank_a"@) {
                            Err(e) => Err(e),
                            Ok((count_rank_a, o)) => Ok(
                                ((id, accuracy, count_100, count_300, count_50, count_rank_a), o),
                            ),
                        },
                    },
                },
            },
        },
    }
}

/// One group of fields of a `User` object, taken in order.
pub open spec fn spec_user_fields_b(o: Seq<(String, JsonValue)>) -> Result<
    ((i64, i64, String, Seq<UserEvent>, String, i64), Seq<(String, JsonValue)>),
    ErrView,
> {
    match spec_take_i64(o, "count_rank_s"@) {
        Err(e) => Err(e),
        Ok((count_rank_s, o)) => match spec_take_i64(o, "count_rank_ss"@) {
            Err(e) => Err(e),
            Ok((count_rank_ss, o)) => match spec_take_string(o, "country"@) {
                Err(e) => Err(e),
                Ok((country, o)) => match spec_take_events(o, "events"@) {
                    Err(e) => Err(e),
                    Ok((events, o)) => match spec_take_float(o, "level"@) {
                        Err(e) => Err(e),
                        Ok((level, o)) => match spec_take_i64(o, "playcount"@) {
                            Err(e) => Err(e),
                            Ok((play_count, o)) => Ok(
                                (
                                    (
                                        count_rank_s,
                                        count_rank_ss,
                                        country,
                                        events,
                                        level,
                                        play_count,
                                    ),
                                    o,
                                ),
                            ),
                        },
                    },
                },
            },
        },
    }
}

/// One group of fields of a `User` object, taken in order.
pub open spec fn spec_user_fields_c(o: Seq<(String, JsonValue)>) -> Result<
    ((i64, i64, String, i64, i64, String), Seq<(String, JsonValue)>),
    ErrView,
> {
    match spec_take_i64(o, "pp_country_rank"@) {
        Err(e) => Err(e),
        Ok((pp_country_rank, o)) => match spec_take_i64(o, "pp_rank"@) {
            Err(e) => Err(e),
            Ok((pp_rank, o)) => match spec_take_float(o, "pp_raw"@) {
                Err(e) => Err(e),
                Ok((pp_raw, o)) => match spec_take_i64(o, "ranked_score"@) {
                    Err(e) => Err(e),
                    Ok((ranked_score, o)) => match spec_take_i64(o, "total_score"@) {
                        Err(e) => Err(e),
                        Ok((total_score, o)) => match spec_take_string(o, "username"@) {
                            Err(e) => Err(e),
                            Ok((username, o)) => Ok(
                                (
                                    (
                                        pp_country_rank,
                                        pp_rank,
                                        pp_raw,
                                        ranked_score,
                                        total_score,
                                        username,
                                    ),
                                    o,
                                ),
                            ),
                        },
                    },
                },
            },
        },
    }
}

/// How a `User` decodes from a JSON value: an object whose fields are taken
/// and coerced in declaration order, group by group; the first failing
/// field decides the error.
pub open spec fn spec_decode_user(v: JsonValue) -> Result<UserParts, ErrView> {
    match spec_obj(v) {
        Err(e) => Err(e),
        Ok(o) => match spec_user_fields_a(o) {
            Err(e) => Err(e),
            Ok((a, o)) => match spec_user_fields_b(o) {
                Err(e) => Err(e),
                Ok((b, o)) => match spec_user_fields_c(o) {
                    Err(e) => Err(e),
                    Ok((c, _)) => Ok(
                        UserParts {
                            id: a.0,
                            accuracy: a.1,
                            count_100: a.2,
                            count_300: a.3,
                            count_50: a.4,
                            count_rank_a: a.5,
                            count_rank_s: b.0,
                            count_rank_ss: b.1,
                            country: b.2,
                            events: b.3,
                            level: b.4,
                            play_count: b.5,
                            pp_country_rank: c.0,
                            pp_rank: c.1,
                            pp_raw: c.2,
                            ranked_score: c.3,
                            total_score: c.4,
                            username: c.5,
                        },
                    ),
                },
            },
        },
    }
}

/// Decodes a `User` from a JSON value.
pub fn decode_user(v: JsonValue) -> (r: Result<User, Error>)
    ensures
        match spec_decode_user(v) {
            Ok(p) => r matches Ok(u) && user_matches(u, p),
            Err(ev) => r matches Err(e) && e@ == ev,
        },
{
    let mut o = match into_object(v) {
        Ok(o) => o,
        Err(e) => return Err(e),
    };
    let id = match take_i64(&mut o, "user_id") {
        Ok(x) => x,
        Err(e) => return Err(e),
    };
    let accuracy = match take_float(&mut o, "accuracy") {
        Ok(x) => x,
        Err(e) => return Err(e),
    };
    let count_100 = match take_i64(&mut o, "count100") {
        Ok(x) => x,
        Err(e) => return Err(e),
    };
    let count_300 = match take_i64(&mut o, "count300") {
        Ok(x) => x,
        Err(e) => return Err(e),
    };
    let count_50 = match take_i64(&mut o, "count50") {
        Ok(x) => x,
        Err(e) => return Err(e),
    };
    let count_rank_a = match take_i64(&mut o, "count_rank_a") {
        Ok(x) => x,
        Err(e) => return Err(e),
    };
    let count_rank_s = match take_i64(&mut o, "count_rank_s") {
        Ok(x) => x,
        Err(e) => return Err(e),
    };
    let count_rank_ss = match take_i64(&mut o, "count_rank_ss") {
        Ok(x) => x,
        Err(e) => return Err(e),
    };
    let country = match take_string(&mut o, "country") {
        Ok(x) => x,
        Err(e) => return Err(e),
    };
    let events = match take_events(&mut o, "events") {
        Ok(x) => x,
        Err(e) => return Err(e),
    };
    let level = match take_float(&mut o, "level") {
        Ok(x) => x,
        Err(e) => return Err(e),
    };
    let play_count = match take_i64(&mut o, "playcount") {
        Ok(x) => x,
        Err(e) => return Err(e),
    };
    let pp_country_rank = match take_i64(&mut o, "pp_country_rank") {
        Ok(x) => x,
        Err(e) => return Err(e),
    };
    let pp_rank = match take_i64(&mut o, "pp_rank") {
        Ok(x) => x,
        Err(e) => return Err(e),
    };
    let pp_raw = match take_float(&mut o, "pp_raw") {
        Ok(x) => x,
        Err(e) => return Err(e),
    };
    let ranked_score = match take_i64(&mut o, "ranked_score") {
        Ok(x) => x,
        Err(e) => return Err(e),
    };
    let total_score = match take_i64(&mut o, "total_score") {
        Ok(x) => x,
        Err(e) => return Err(e),
    };
    let username = match take_string(&mut o, "username") {
        Ok(x) => x,
        Err(e) => return Err(e),
    };
    Ok(User {
        id,
        accuracy,
        count_100,
        count_300,
        count_50,
        count_rank_a,
        count_rank_s,
        count_rank_ss,
        country,
        events,
        level,
        play_count,
        pp_country_rank,
        pp_rank,
        pp_raw,
        ranked_score,
        total_score,
        username,
    })
}


/// Point-by-point agreement between a list of decoded users and their
/// parts.
pub open spec fn users_match(us: Seq<User>, ps: Seq<UserParts>) -> bool {
    us.len() == ps.len() && forall|i: int|
        0 <= i < us.len() ==> user_matches(#[trigger] us[i], ps[i])
}

/// Decoding each element of a JSON array as a `User`, in order; the first
/// failure fails the whole list.
pub open spec fn spec_decode_user_list(items: Seq<JsonValue>) -> Result<Seq<UserParts>, ErrView>
    decreases items.len(),
{
    if items.len() == 0 {
        Ok(Seq::empty())
    } else {
        match spec_decode_user(items[0]) {
            Err(e) => Err(e),
            Ok(x) => match spec_decode_user_list(items.drop_first()) {
                Err(e) => Err(e),
                Ok(rest) => Ok(seq![x] + rest),
            },
        }
    }
}

#[verifier::rlimit(100)]
/// Decodes every element of a JSON array as a `User`.
pub fn decode_user_list(items: Vec<JsonValue>) -> (r: Result<Vec<User>, Error>)
    ensures
        match spec_decode_user_list(items@) {
            Ok(ps) => r matches Ok(us) && users_match(us@, ps),
            Err(ev) => r matches Err(e) && e@ == ev,
        },
{
    let ghost orig = items@;
    let mut rest = items;
    let mut out: Vec<User> = Vec::new();
    let ghost mut done: Seq<UserParts> = Seq::empty();
    proof {
        if spec_decode_user_list(orig) is Ok {
            assert(done + spec_decode_user_list(orig)->Ok_0 =~= spec_decode_user_list(
                orig,
            )->Ok_0);
        }
    }
    while rest.len() > 0
        invariant
            orig == items@,
            users_match(out@, done),
            spec_decode_user_list(orig) == (match spec_decode_user_list(rest@) {
                Ok(tail) => Ok::<Seq<UserParts>, ErrView>(done + tail),
                Err(e) => Err::<Seq<UserParts>, ErrView>(e),
            }),
        decreases rest@.len(),
    {
        let ghost before = rest@;
        let head = rest.remove(0);
        proof {
            assert(before.drop_first() =~= rest@);
        }
        match decode_user(head) {
            Err(e) => {
                proof {
                    assert(spec_decode_user(head) is Err);
                    assert(spec_decode_user_list(before) == Err::<Seq<UserParts>, ErrView>(e@));
                    assert(spec_decode_user_list(orig) == Err::<Seq<UserParts>, ErrView>(e@));
                }
                return Err(e);
            },
            Ok(u) => {
                let ghost out_before = out@;
                let ghost done_before = done;
                out.push(u);
                proof {
                    let up = spec_decode_user(head)->Ok_0;
                    done = done.push(up);
                    assert(done =~= done_before + seq![up]);
                    assert forall|i: int| 0 <= i < out@.len() implies user_matches(
                        #[trigger] out@[i],
                        done[i],
                    ) by {
                        if i < out_before.len() {
                            assert(out@[i] == out_before[i]);
                            assert(done[i] == done_before[i]);
                        } else {
                            assert(out@[i] == u);
                            assert(done[i] == up);
                        }
                    }
                    if spec_decode_user_list(rest@) is Ok {
                        let tail = spec_decode_user_list(rest@)->Ok_0;
                        assert(done + tail =~= done_before + (seq![up] + tail));
                    }
                }
            },
        }
    }
    proof {
        assert(rest@ =~= Seq::<JsonValue>::empty());
        assert(done + Seq::<UserParts>::empty() =~= done);
    }
    Ok(out)
}

/// What decoding a `get_beatmaps` body yields: the text must parse as JSON
/// and hold an array of beatmap objects.
pub open spec fn spec_decode_beatmaps(s: Seq<char>) -> Result<Seq<Beatmap>, ErrView> {
    match parsed_json(s) {
        None => Err(ErrView::Decode("body is not valid JSON"@, JsonValue::Null)),
        Some(v) => match spec_arr(v) {
            Err(e) => Err(e),
            Ok(items) => spec_decode_beatmap_list(items),
        },
    }
}

/// Decodes a `get_beatmaps` response body.
pub fn decode_beatmaps(text: &str) -> (r: Result<Vec<Beatmap>, Error>)
    ensures
        decode_matches_seq(r, spec_decode_beatmaps(text@)),
{
    let v = match parse_json(text) {
        Some(v) => v,
        None => return Err(
            Error::Decode("body is not valid JSON".to_owned(), JsonValue::Null),
        ),
    };
    let items = match into_array(v) {
        Ok(items) => items,
        Err(e) => return Err(e),
    };
    decode_beatmap_list(items)
}

/// What decoding a `get_scores` body yields: the text must parse as JSON
/// and hold an array of score objects.
pub open spec fn spec_decode_scores(s: Seq<char>) -> Result<Seq<GameScore>, ErrView> {
    match parsed_json(s) {
        None => Err(ErrView::Decode("body is not valid JSON"@, JsonValue::Null)),
        Some(v) => match spec_arr(v) {
            Err(e) => Err(e),
            Ok(items) => spec_decode_game_score_list(items),
        },
    }
}

/// Decodes a `get_scores` response body.
pub fn decode_scores(text: &str) -> (r: Result<Vec<GameScore>, Error>)
    ensures
        decode_matches_seq(r, spec_decode_scores(text@)),
{
    let v = match parse_json(text) {
        Some(v) => v,
        None => return Err(
            Error::Decode("body is not valid JSON".to_owned(), JsonValue::Null),
        ),
    };
    let items = match into_array(v) {
        Ok(items) => items,
        Err(e) => return Err(e),
    };
    decode_game_score_list(items)
}

/// What decoding a `get_user_best` body yields: the text must parse as
/// JSON and hold an array of performance objects.
pub open spec fn spec_decode_user_best(s: Seq<char>) -> Result<Seq<Performance>, ErrView> {
    match parsed_json(s) {
        None => Err(ErrView::Decode("body is not valid JSON"@, JsonValue::Null)),
        Some(v) => match spec_arr(v) {
            Err(e) => Err(e),
            Ok(items) => spec_decode_performance_list(items),
        },
    }
}

/// Decodes a `get_user_best` response body.
pub fn decode_user_best(text: &str) -> (r: Result<Vec<Performance>, Error>)
    ensures
        decode_matches_seq(r, spec_decode_user_best(text@)),
{
    let v = match parse_json(text) {
        Some(v) => v,
        None => return Err(
            Error::Decode("body is not valid JSON".to_owned(), JsonValue::Null),
        ),
    };
    let items = match into_array(v) {
        Ok(items) => items,
        Err(e) => return Err(e),
    };
    decode_performance_list(items)
}

/// What decoding a `get_user_recent` body yields: the text must parse as
/// JSON and hold an array of recent-play objects.
pub open spec fn spec_decode_user_recent(s: Seq<char>) -> Result<Seq<RecentPlay>, ErrView> {
    match parsed_json(s) {
        None => Err(ErrView::Decode("body is not valid JSON"@, JsonValue::Null)),
        Some(v) => match spec_arr(v) {
            Err(e) => Err(e),
            Ok(items) => spec_decode_recent_play_list(items),
        },
    }
}

/// Decodes a `get_user_recent` response body.
pub fn decode_user_recent(text: &str) -> (r: Result<Vec<RecentPlay>, Error>)
    ensures
        decode_matches_seq(r, spec_decode_user_recent(text@)),
{
    let v = match parse_json(text) {
        Some(v) => v,
        None => return Err(
            Error::Decode("body is not valid JSON".to_owned(), JsonValue::Null),
        ),
    };
    let items = match into_array(v) {
        Ok(items) => items,
        Err(e) => return Err(e),
    };
    decode_recent_play_list(items)
}

/// What decoding a `get_user` body yields: the text must parse as JSON and
/// hold an array of user objects.
pub open spec fn spec_decode_users(s: Seq<char>) -> Result<Seq<UserParts>, ErrView> {
    match parsed_json(s) {
        None => Err(ErrView::Decode("body is not valid JSON"@, JsonValue::Null)),
        Some(v) => match spec_arr(v) {
            Err(e) => Err(e),
            Ok(items) => spec_decode_user_list(items),
        },
    }
}

/// Decodes a `get_user` response body.
pub fn decode_users(text: &str) -> (r: Result<Vec<User>, Error>)
    ensures
        match spec_decode_users(text@) {
            Ok(ps) => r matches Ok(us) && users_match(us@, ps),
            Err(ev) => r matches Err(e) && e@ == ev,
        },
{
    let v = match parse_json(text) {
        Some(v) => v,
        None => return Err(
            Error::Decode("body is not valid JSON".to_owned(), JsonValue::Null),
        ),
    };
    let items = match into_array(v) {
        Ok(items) => items,
        Err(e) => return Err(e),
    };
    decode_user_list(items)
}

/// What decoding a `get_match` body yields: the text must parse as JSON
/// and hold one match object.
pub open spec fn spec_decode_match(s: Seq<char>) -> Result<Match, ErrView> {
    match parsed_json(s) {
        None => Err(ErrView::Decode("body is not valid JSON"@, JsonValue::Null)),
        Some(v) => spec_decode_match_record(v),
    }
}

/// Decodes a `get_match` response body.
pub fn decode_match(text: &str) -> (r: Result<Match, Error>)
    ensures
        decode_matches(r, spec_decode_match(text@)),
{
    let v = match parse_json(text) {
        Some(v) => v,
        None => return Err(
            Error::Decode("body is not valid JSON".to_owned(), JsonValue::Null),
        ),
    };
    decode_match_record(v)
}


/// Law: decoding is a function of the payload alone, so decoding the same
/// payload twice yields equal records (equal errors, where it fails).
pub proof fn lemma_decode_idempotent<T>(
    r1: Result<T, Error>,
    r2: Result<T, Error>,
    s: Result<T, ErrView>,
)
    requires
        decode_matches(r1, s),
        decode_matches(r2, s),
    ensures
        r1 matches Ok(a) ==> r2 matches Ok(b) && a == b,
        r1 matches Err(e1) ==> r2 matches Err(e2) && e1@ == e2@,
{
}

/// Law: decoding a list is a function of the payload alone, so decoding
/// the same payload twice yields equal lists (equal errors, where it
/// fails).
pub proof fn lemma_decode_list_idempotent<T>(
    r1: Result<Vec<T>, Error>,
    r2: Result<Vec<T>, Error>,
    s: Result<Seq<T>, ErrView>,
)
    requires
        decode_matches_seq(r1, s),
        decode_matches_seq(r2, s),
    ensures
        r1 matches Ok(a) ==> r2 matches Ok(b) && a@ == b@,
        r1 matches Err(e1) ==> r2 matches Err(e2) && e1@ == e2@,
{
}

/// Law: a numeric field given as a numeric string decodes to its value,
/// never failing on a string such as `0`; one given as a non-numeric
/// string fails with a decode error naming the field and carrying the
/// offending value.
pub proof fn lemma_numeric_string_field(
    o: Seq<(String, JsonValue)>,
    name: Seq<char>,
    s: String,
)
    requires
        spec_take(o, name) matches Some(p) && p.0 == JsonValue::Str(s),
    ensures
        spec_parse_i64(s@) matches Some(n) ==> spec_take_i64(o, name) matches Ok(q) && q.0 == n,
        spec_parse_i64(s@) is None ==> spec_take_i64(o, name) == Err::<
            (i64, Seq<(String, JsonValue)>),
            ErrView,
        >(ErrView::Decode(name, JsonValue::Str(s))),
{
}

/// Law: an enum-coded field whose code is outside the closed set fails
/// with an `InvalidEnumCode` error naming the field and the offending
/// code.
pub proof fn lemma_unknown_enum_code(o: Seq<(String, JsonValue)>, name: Seq<char>, s: String)
    requires
        spec_take(o, name) matches Some(p) && p.0 == JsonValue::Str(s),
        Genre::spec_from_code(s@) is None,
    ensures
        spec_take_genre(o, name) == Err::<(Genre, Seq<(String, JsonValue)>), ErrView>(
            ErrView::InvalidEnumCode(name, s@),
        ),
{
}

} // verus!\n