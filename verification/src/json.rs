//! JSON documents, read and written by `serde_json`.
//!
//! A parsed document stays a `serde_json::Value`; what such a value holds is
//! described by the mathematical type [`Json`]. A document to be written is
//! a list of [`Member`]s. What this module says of `serde_json` is taken on
//! trust from that crate: each such item names the function it speaks of.

use vstd::prelude::*;

verus! {

/// `serde_json::Value`, a parsed JSON value. The library sees into it only
/// through [`json_of`].
#[verifier::external_type_specification]
#[verifier::external_body]
pub struct ExValue(serde_json::Value);

/// `serde_json::Error`, why a text could not be parsed. The library reads
/// nothing from it.
#[verifier::external_type_specification]
#[verifier::external_body]
pub struct ExError(serde_json::Error);

/// What a JSON value holds, as far as this library reads it.
pub enum Json {
    /// A string.
    Text(Seq<char>),
    /// A number that `serde_json` keeps as an integer (`u64` or `i64`).
    Integer(int),
    /// An object: its members by name.
    Object(Map<Seq<char>, Json>),
    /// Anything else: null, a boolean, an array, a number kept as a float.
    Other,
}

/// What a `serde_json::Value` holds.
pub uninterp spec fn json_of(value: serde_json::Value) -> Json;

/// What `serde_json::from_str` makes of a text: the document it holds, or
/// `None` where the text is not one JSON document.
pub uninterp spec fn parsed_json(text: Seq<char>) -> Option<Json>;

/// The member `name` of an object; `None` for another value or a missing
/// member.
pub open spec fn member_of(doc: Json, name: Seq<char>) -> Option<Json> {
    match doc {
        Json::Object(members) => if members.contains_key(name) {
            Some(members[name])
        } else {
            None
        },
        _ => None,
    }
}

/// `serde_json::from_str::<Value>`: parses one JSON document. The outcome
/// depends on the text alone and is named by [`parsed_json`].
#[verifier::external_body]
pub(crate) fn parse_json(text: &str) -> (r: Result<serde_json::Value, serde_json::Error>)
    ensures
        match r {
            Ok(value) => parsed_json(text@) == Some(json_of(value)),
            Err(_) => parsed_json(text@) is None,
        },
{
    serde_json::from_str::<serde_json::Value>(text)
}

/// `serde_json::Value::get` with a string index: the member of that name if
/// the value is an object that has one, else `None`.
#[verifier::external_body]
pub(crate) fn member<'a>(doc: &'a serde_json::Value, name: &str) -> (r: Option<
    &'a serde_json::Value,
>)
    ensures
        match r {
            Some(value) => member_of(json_of(*doc), name@) == Some(json_of(*value)),
            None => member_of(json_of(*doc), name@) is None,
        },
{
    doc.get(name)
}

/// `serde_json::Value::as_str`: the string if the value is one, else `None`.
pub assume_specification[ serde_json::Value::as_str ](value: &serde_json::Value) -> (r: Option<
    &str,
>)
    ensures
        match r {
            Some(text) => json_of(*value) == Json::Text(text@),
            None => !(json_of(*value) is Text),
        },
;

/// `serde_json::Value::as_i64`: the number if the value is an integer that
/// fits `i64`, else `None`.
pub assume_specification[ serde_json::Value::as_i64 ](value: &serde_json::Value) -> (r: Option<
    i64,
>)
    ensures
        match r {
            Some(number) => json_of(*value) == Json::Integer(number as int),
            None => !(json_of(*value) matches Json::Integer(n) && i64::MIN <= n <= i64::MAX),
        },
;

/// What a member of a written object holds.
#[derive(Clone, Debug, PartialEq, Eq)]
pub enum Scalar {
    Text(String),
    Integer(i64),
}

impl View for Scalar {
    type V = Json;

    open spec fn view(&self) -> Json {
        match self {
            Scalar::Text(text) => Json::Text(text@),
            Scalar::Integer(number) => Json::Integer(*number as int),
        }
    }
}

/// A named member of a written object.
#[derive(Clone, Debug, PartialEq, Eq)]
pub struct Member {
    pub name: String,
    pub value: Scalar,
}

/// The mathematical value of a [`Member`].
pub struct MemberView {
    pub name: Seq<char>,
    pub value: Json,
}

impl View for Member {
    type V = MemberView;

    open spec fn view(&self) -> MemberView {
        MemberView { name: self.name@, value: self.value@ }
    }
}

/// The values of a list of members.
pub open spec fn member_views(members: Seq<Member>) -> Seq<MemberView> {
    members.map_values(|m: Member| m@)
}

/// The text that `serde_json` writes for the object made of these members,
/// inserted in this order.
pub uninterp spec fn object_text(members: Seq<MemberView>) -> Seq<char>;

/// The object that a list of members denotes: a later member replaces an
/// earlier one of the same name.
pub open spec fn object_of(members: Seq<MemberView>) -> Json {
    Json::Object(members_map(members))
}

/// The members of [`object_of`] by name.
pub open spec fn members_map(members: Seq<MemberView>) -> Map<Seq<char>, Json>
    decreases members.len(),
{
    if members.len() == 0 {
        Map::empty()
    } else {
        members_map(members.drop_last()).insert(members.last().name, members.last().value)
    }
}

/// Adding a member at the end of a list inserts it into the object.
pub proof fn lemma_members_map_push(members: Seq<MemberView>, last: MemberView)
    ensures
        members_map(members.push(last)) == members_map(members).insert(last.name, last.value),
{
    assert(members.push(last).drop_last() =~= members);
}

/// `serde_json::Map::insert` for each member in turn, then `to_string` of the
/// `serde_json::Value::Object` that they make. The text depends on the
/// members alone and is named by [`object_text`].
#[verifier::external_body]
pub(crate) fn render_object(members: &Vec<Member>) -> (text: String)
    ensures
        text@ == object_text(member_views(members@)),
{
    let mut object = serde_json::Map::new();
    for member in members.iter() {
        let value = match &member.value {
            Scalar::Text(text) => serde_json::Value::String(text.clone()),
            Scalar::Integer(number) => serde_json::Value::from(*number),
        };
        object.insert(member.name.clone(), value);
    }
    serde_json::Value::Object(object).to_string()
}

} // verus!
