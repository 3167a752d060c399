//! What holds of the store as a whole.
//!
//! The store writes its record with `serde_json` and reads it with
//! `serde_json`. That `serde_json` reads back what it wrote is a property of
//! that crate, which this library neither proves nor takes for granted: the
//! laws about a write followed by a read say so where they depend on it, by
//! the condition [`reads_back`].

use vstd::prelude::*;
use crate::codec::{
    config_members, db_path_key, encoded, high_load_key, integer_at, low_load_key,
    medium_load_key, record_of, text_at,
};
use crate::config::{AppConfigView, ConfigError};
use crate::json::{
    lemma_members_map_push, member_of, object_of, object_text, parsed_json, Json,
    MemberView,
};
use crate::store::loaded;

verus! {

/// `serde_json` reads back what it writes for these members: parsing the
/// text of the object gives the object.
pub open spec fn reads_back(members: Seq<MemberView>) -> bool {
    parsed_json(object_text(members)) == Some(object_of(members))
}

/// Whether `name` is one of the four members of a record.
pub open spec fn is_record_key(name: Seq<char>) -> bool {
    name == db_path_key() || name == low_load_key() || name == medium_load_key() || name
        == high_load_key()
}

/// The four member names of a record differ from one another.
pub proof fn lemma_record_keys_differ()
    ensures
        db_path_key() != low_load_key(),
        db_path_key() != medium_load_key(),
        db_path_key() != high_load_key(),
        low_load_key() != medium_load_key(),
        low_load_key() != high_load_key(),
        medium_load_key() != high_load_key(),
{
    reveal_strlit("db_path");
    reveal_strlit("low_load");
    reveal_strlit("medium_load");
    reveal_strlit("high_load");
    assert(db_path_key().len() == 7);
    assert(low_load_key().len() == 8);
    assert(medium_load_key().len() == 11);
    assert(high_load_key().len() == 9);
}

/// The document written for a record has exactly the four members of a
/// record, each with the value of its field.
pub proof fn lemma_written_document_members(config: AppConfigView)
    ensures
        object_of(config_members(config)) is Object,
        object_of(config_members(config))->Object_0.dom() =~= set![
            db_path_key(),
            low_load_key(),
            medium_load_key(),
            high_load_key(),
        ],
        member_of(object_of(config_members(config)), db_path_key()) == Some(
            Json::Text(config.db_path),
        ),
        member_of(object_of(config_members(config)), low_load_key()) == Some(
            Json::Integer(config.low_load as int),
        ),
        member_of(object_of(config_members(config)), medium_load_key()) == Some(
            Json::Integer(config.medium_load as int),
        ),
        member_of(object_of(config_members(config)), high_load_key()) == Some(
            Json::Integer(config.high_load as int),
        ),
{
    lemma_record_keys_differ();
    let path = MemberView { name: db_path_key(), value: Json::Text(config.db_path) };
    let low = MemberView { name: low_load_key(), value: Json::Integer(config.low_load as int) };
    let medium = MemberView {
        name: medium_load_key(),
        value: Json::Integer(config.medium_load as int),
    };
    let high = MemberView { name: high_load_key(), value: Json::Integer(config.high_load as int) };
    let none = Seq::<MemberView>::empty();
    assert(config_members(config) =~= none.push(path).push(low).push(medium).push(high));
    lemma_members_map_push(none, path);
    lemma_members_map_push(none.push(path), low);
    lemma_members_map_push(none.push(path).push(low), medium);
    lemma_members_map_push(none.push(path).push(low).push(medium), high);
}

/// The document written for a record holds that record: the schema that
/// reads and the member list that is written agree on names and types.
pub proof fn lemma_written_document_holds_record(config: AppConfigView)
    ensures
        record_of(object_of(config_members(config))) == Ok::<AppConfigView, ConfigError>(config),
{
    lemma_written_document_members(config);
}

/// Saving a record and loading it gives the record back, provided
/// `serde_json` reads back what it wrote for it.
pub proof fn lemma_save_then_load(config: AppConfigView)
    ensures
        reads_back(config_members(config)) ==> loaded(Some(encoded(config))) == Ok::<
            AppConfigView,
            ConfigError,
        >(config),
{
    lemma_written_document_holds_record(config);
}

/// Setting the database path of a readable store and reading the record
/// again gives that path and the thresholds of before, provided
/// `serde_json` reads back what it wrote for the new record.
pub proof fn lemma_set_path_then_get_path(before: Option<Seq<char>>, path: Seq<char>)
    requires
        loaded(before) is Ok,
    ensures
        ({
            let old_record = loaded(before)->Ok_0;
            let new_record = old_record.with_db_path(path);
            let after = Some(encoded(new_record));
            reads_back(config_members(new_record)) ==> {
                &&& loaded(after) is Ok
                &&& loaded(after)->Ok_0.db_path == path
                &&& loaded(after)->Ok_0.low_load == old_record.low_load
                &&& loaded(after)->Ok_0.medium_load == old_record.medium_load
                &&& loaded(after)->Ok_0.high_load == old_record.high_load
            }
        }),
{
    lemma_save_then_load(loaded(before)->Ok_0.with_db_path(path));
}

/// A document that lacks one of the four members, or holds it with another
/// type, is no record: nothing is filled in by default.
pub proof fn lemma_missing_member_is_rejected(doc: Json, name: Seq<char>)
    requires
        is_record_key(name),
        name == db_path_key() ==> text_at(doc, name) is None,
        name != db_path_key() ==> integer_at(doc, name) is None,
    ensures
        record_of(doc) == Err::<AppConfigView, ConfigError>(ConfigError::ParseError),
{
    lemma_record_keys_differ();
}

/// A text whose document lacks one of the four members loads as a parse
/// error.
pub proof fn lemma_text_without_member_is_rejected(text: Seq<char>, name: Seq<char>)
    requires
        is_record_key(name),
        parsed_json(text) is Some,
        member_of(parsed_json(text)->0, name) is None,
    ensures
        loaded(Some(text)) == Err::<AppConfigView, ConfigError>(ConfigError::ParseError),
{
    lemma_missing_member_is_rejected(parsed_json(text)->0, name);
}

/// A text that is no JSON document loads as a parse error.
pub proof fn lemma_text_without_document_is_rejected(text: Seq<char>)
    requires
        parsed_json(text) is None,
    ensures
        loaded(Some(text)) == Err::<AppConfigView, ConfigError>(ConfigError::ParseError),
{
}

/// A missing backing file loads as an I/O error.
pub proof fn lemma_missing_file_is_io_error()
    ensures
        loaded(None) == Err::<AppConfigView, ConfigError>(ConfigError::IoError),
{
}

} // verus!
