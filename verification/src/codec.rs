//! The schema of the configuration file: which JSON documents are records,
//! and which document is written for a record.

use vstd::prelude::*;
use crate::config::{AppConfig, AppConfigView, ConfigError};
use crate::json::{
    member, member_of, member_views, object_text, parse_json, parsed_json, render_object,
    json_of, Json, Member, MemberView, Scalar,
};

verus! {

/// The name of the member that holds the database path.
pub open spec fn db_path_key() -> Seq<char> {
    "db_path"@
}

/// The name of the member that holds the low threshold.
pub open spec fn low_load_key() -> Seq<char> {
    "low_load"@
}

/// The name of the member that holds the medium threshold.
pub open spec fn medium_load_key() -> Seq<char> {
    "medium_load"@
}

/// The name of the member that holds the high threshold.
pub open spec fn high_load_key() -> Seq<char> {
    "high_load"@
}

/// The four members of a document as they were found, before they are
/// checked: `None` stands for a member that is missing or of another type.
#[derive(Clone, Debug, PartialEq, Eq)]
pub struct RawRecord {
    pub db_path: Option<String>,
    pub low_load: Option<i64>,
    pub medium_load: Option<i64>,
    pub high_load: Option<i64>,
}

/// The mathematical value of a [`RawRecord`].
pub struct RawRecordView {
    pub db_path: Option<Seq<char>>,
    pub low_load: Option<i64>,
    pub medium_load: Option<i64>,
    pub high_load: Option<i64>,
}

impl View for RawRecord {
    type V = RawRecordView;

    open spec fn view(&self) -> RawRecordView {
        RawRecordView {
            db_path: match self.db_path {
                Some(path) => Some(path@),
                None => None,
            },
            low_load: self.low_load,
            medium_load: self.medium_load,
            high_load: self.high_load,
        }
    }
}

/// The string member `name` of a document, if it has one.
pub open spec fn text_at(doc: Json, name: Seq<char>) -> Option<Seq<char>> {
    match member_of(doc, name) {
        Some(Json::Text(text)) => Some(text),
        _ => None,
    }
}

/// The integer member `name` of a document, if it has one that fits `i64`.
pub open spec fn integer_at(doc: Json, name: Seq<char>) -> Option<i64> {
    match member_of(doc, name) {
        Some(Json::Integer(n)) => if i64::MIN <= n <= i64::MAX {
            Some(n as i64)
        } else {
            None
        },
        _ => None,
    }
}

/// The four members that the schema names, as a document holds them.
pub open spec fn raw_of(doc: Json) -> RawRecordView {
    RawRecordView {
        db_path: text_at(doc, db_path_key()),
        low_load: integer_at(doc, low_load_key()),
        medium_load: integer_at(doc, medium_load_key()),
        high_load: integer_at(doc, high_load_key()),
    }
}

/// Whether a threshold read from a document fits the record's field.
pub open spec fn fits_i32(n: i64) -> bool {
    i32::MIN <= n <= i32::MAX
}

/// The schema: all four members are present, the path is a string and each
/// threshold is an integer that fits `i32`. Anything else is malformed; no
/// member is filled in by default.
pub open spec fn checked(raw: RawRecordView) -> Result<AppConfigView, ConfigError> {
    if raw.db_path is Some && raw.low_load is Some && raw.medium_load is Some
        && raw.high_load is Some && fits_i32(raw.low_load->0) && fits_i32(raw.medium_load->0)
        && fits_i32(raw.high_load->0) {
        Ok(
            AppConfigView {
                db_path: raw.db_path->0,
                low_load: raw.low_load->0 as i32,
                medium_load: raw.medium_load->0 as i32,
                high_load: raw.high_load->0 as i32,
            },
        )
    } else {
        Err(ConfigError::ParseError)
    }
}

/// The record that a document holds.
pub open spec fn record_of(doc: Json) -> Result<AppConfigView, ConfigError> {
    checked(raw_of(doc))
}

/// The record that a text holds: the text must be one JSON document, and the
/// document a record.
pub open spec fn decoded(text: Seq<char>) -> Result<AppConfigView, ConfigError> {
    match parsed_json(text) {
        Some(doc) => record_of(doc),
        None => Err(ConfigError::ParseError),
    }
}

/// The members written for a record, in the order of its fields.
pub open spec fn config_members(config: AppConfigView) -> Seq<MemberView> {
    seq![
        MemberView { name: db_path_key(), value: Json::Text(config.db_path) },
        MemberView { name: low_load_key(), value: Json::Integer(config.low_load as int) },
        MemberView { name: medium_load_key(), value: Json::Integer(config.medium_load as int) },
        MemberView { name: high_load_key(), value: Json::Integer(config.high_load as int) },
    ]
}

/// The text written for a record.
pub open spec fn encoded(config: AppConfigView) -> Seq<char> {
    object_text(config_members(config))
}

/// The value of a result that holds a record.
pub open spec fn result_view(r: Result<AppConfig, ConfigError>) -> Result<
    AppConfigView,
    ConfigError,
> {
    match r {
        Ok(config) => Ok(config@),
        Err(e) => Err(e),
    }
}

/// Applies the schema to the members found in a document.
pub fn check_record(raw: RawRecord) -> (r: Result<AppConfig, ConfigError>)
    ensures
        result_view(r) == checked(raw@),
{
    match (raw.db_path, raw.low_load, raw.medium_load, raw.high_load) {
        (Some(db_path), Some(low), Some(medium), Some(high)) => {
            if in_i32(low) && in_i32(medium) && in_i32(high) {
                Ok(
                    AppConfig {
                        db_path,
                        low_load: low as i32,
                        medium_load: medium as i32,
                        high_load: high as i32,
                    },
                )
            } else {
                Err(ConfigError::ParseError)
            }
        },
        _ => Err(ConfigError::ParseError),
    }
}

fn in_i32(n: i64) -> (r: bool)
    ensures
        r == fits_i32(n),
{
    -2147483648 <= n && n <= 2147483647
}

fn text_member(doc: &serde_json::Value, name: &str) -> (r: Option<String>)
    ensures
        match r {
            Some(text) => text_at(json_of(*doc), name@) == Some(text@),
            None => text_at(json_of(*doc), name@) is None,
        },
{
    match member(doc, name) {
        Some(value) => match value.as_str() {
            Some(text) => Some(text.to_owned()),
            None => None,
        },
        None => None,
    }
}

fn integer_member(doc: &serde_json::Value, name: &str) -> (r: Option<i64>)
    ensures
        r == integer_at(json_of(*doc), name@),
{
    match member(doc, name) {
        Some(value) => value.as_i64(),
        None => None,
    }
}

/// Looks up the four members that the schema names.
pub(crate) fn read_record(doc: &serde_json::Value) -> (raw: RawRecord)
    ensures
        raw@ == raw_of(json_of(*doc)),
{
    RawRecord {
        db_path: text_member(doc, "db_path"),
        low_load: integer_member(doc, "low_load"),
        medium_load: integer_member(doc, "medium_load"),
        high_load: integer_member(doc, "high_load"),
    }
}

/// Reads a record from the text of the configuration file.
pub fn decode_config(text: &str) -> (r: Result<AppConfig, ConfigError>)
    ensures
        result_view(r) == decoded(text@),
{
    match parse_json(text) {
        Ok(doc) => check_record(read_record(&doc)),
        Err(_) => Err(ConfigError::ParseError),
    }
}

/// Writes a record as the text of the configuration file.
pub fn encode_config(config: &AppConfig) -> (text: String)
    ensures
        text@ == encoded(config@),
{
    let mut members: Vec<Member> = Vec::new();
    members.push(
        Member { name: "db_path".to_owned(), value: Scalar::Text(config.db_path.clone()) },
    );
    members.push(
        Member { name: "low_load".to_owned(), value: Scalar::Integer(config.low_load as i64) },
    );
    members.push(
        Member {
            name: "medium_load".to_owned(),
            value: Scalar::Integer(config.medium_load as i64),
        },
    );
    members.push(
        Member { name: "high_load".to_owned(), value: Scalar::Integer(config.high_load as i64) },
    );
    assert(member_views(members@) =~= config_members(config@));
    render_object(&members)
}

} // verus!
