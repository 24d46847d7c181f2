//! The key-value store that keeps a pet between runs.
//!
//! The store is a `pickledb::PickleDb`. Verus cannot look into it, so this
//! module names what it holds and states, for each method the crate calls,
//! how the call changes or reads what is held. Nothing here is proved: these
//! are the assumptions the rest of the crate is verified against.
//!
//! The crate works on stores that touch their file only when asked to, and
//! it never asks: writing is the caller's. It makes its own stores that way,
//! and whoever hands it a store owes it one of that kind. A store that
//! writes on a change is left out of every contract here: such a store may
//! fail, or stop the program, where it cannot write.

use pickledb::PickleDb;
use pickledb::PickleDbDumpPolicy;
use pickledb::SerializationMethod;
use vstd::prelude::*;

verus! {

#[verifier::external_type_specification]
#[verifier::external_body]
pub struct ExPickleDb(pickledb::PickleDb);

/// What the store holds under each key that holds a single value, told by
/// how the value reads: first what `PickleDb::get::<i64>` reads there, then
/// what `PickleDb::get::<String>` reads there, each nothing where the value
/// does not read as that type.
pub uninterp spec fn db_values(db: PickleDb) -> Map<Seq<char>, (Option<i64>, Option<Seq<char>>)>;

/// The keys under which the store holds a list.
pub uninterp spec fn db_list_keys(db: PickleDb) -> Set<Seq<char>>;

/// Whether the store writes its file by itself when it is changed or
/// dropped: its dump policy is `AutoDump` or `PeriodicDump`. A store that
/// does not writes only when its `dump` is called, or never.
pub uninterp spec fn db_writes_on_change(db: PickleDb) -> bool;

/// The path of the file the store is bound to, where that path is text.
pub uninterp spec fn db_path(db: PickleDb) -> Seq<char>;

/// How an integer that was put into the store reads: as that integer, and
/// not as text.
pub open spec fn int_value(value: i64) -> (Option<i64>, Option<Seq<char>>) {
    (Some(value), None)
}

/// How a text that was put into the store reads: as that text, and not as an
/// integer.
pub open spec fn text_value(value: Seq<char>) -> (Option<i64>, Option<Seq<char>>) {
    (None, Some(value))
}

/// The integer the store holds under `key`, if it holds a value there that
/// reads as one.
pub open spec fn db_int(db: PickleDb, key: Seq<char>) -> Option<i64> {
    if db_values(db).contains_key(key) {
        db_values(db)[key].0
    } else {
        None
    }
}

/// The text the store holds under `key`, if it holds a value there that
/// reads as one.
pub open spec fn db_text(db: PickleDb, key: Seq<char>) -> Option<Seq<char>> {
    if db_values(db).contains_key(key) {
        db_values(db)[key].1
    } else {
        None
    }
}

/// The store holds `n` keys in all: finitely many hold a value, finitely
/// many hold a list, and the two counts add up to `n`. A key that holds both
/// is counted twice.
pub open spec fn db_key_total_is(db: PickleDb, n: nat) -> bool {
    &&& db_values(db).dom().finite()
    &&& db_list_keys(db).finite()
    &&& db_values(db).dom().len() + db_list_keys(db).len() == n
}

/// A store without values.
pub open spec fn no_values() -> Map<Seq<char>, (Option<i64>, Option<Seq<char>>)> {
    Map::empty()
}

/// No keys.
pub open spec fn no_keys() -> Set<Seq<char>> {
    Set::empty()
}

/// `after` is the store `before`, still bound to the same file and with the
/// same dump policy.
pub open spec fn db_same_store(before: PickleDb, after: PickleDb) -> bool {
    &&& db_path(after) == db_path(before)
    &&& db_writes_on_change(after) == db_writes_on_change(before)
}

/// `PickleDb::new` with the JSON format and the dump policy under which the
/// store touches the disk only when asked to: the new store is bound to
/// `path` and holds nothing.
#[verifier::external_body]
pub(crate) fn db_new(path: &str) -> (db: PickleDb)
    ensures
        db_path(db) == path@,
        !db_writes_on_change(db),
        db_values(db) == no_values(),
        db_list_keys(db) == no_keys(),
{
    PickleDb::new(path, PickleDbDumpPolicy::DumpUponRequest, SerializationMethod::Json)
}

/// `PickleDb::set` with an `i64` value, on a store that does not write on a
/// change. Such a store takes every integer: the call could fail only in
/// encoding the value or in writing the file, and an integer always encodes.
/// After it the key holds the integer, a list that was kept under the key is
/// gone, and the store is otherwise as it was.
#[verifier::external_body]
pub(crate) fn db_set_int(db: &mut PickleDb, key: &str, value: i64) -> (ok: bool)
    requires
        !db_writes_on_change(*old(db)),
    ensures
        ok,
        db_same_store(*old(db), *final(db)),
        db_values(*final(db)) == db_values(*old(db)).insert(key@, int_value(value)),
        db_list_keys(*final(db)) == db_list_keys(*old(db)).remove(key@),
{
    db.set(key, &value).is_ok()
}

/// `PickleDb::set` with a `String` value, on a store that does not write on
/// a change. Such a store takes every text: the call could fail only in
/// encoding the value or in writing the file, and a text always encodes.
/// After it the key holds the text, a list that was kept under the key is
/// gone, and the store is otherwise as it was.
#[verifier::external_body]
pub(crate) fn db_set_text(db: &mut PickleDb, key: &str, value: &String) -> (ok: bool)
    requires
        !db_writes_on_change(*old(db)),
    ensures
        ok,
        db_same_store(*old(db), *final(db)),
        db_values(*final(db)) == db_values(*old(db)).insert(key@, text_value(value@)),
        db_list_keys(*final(db)) == db_list_keys(*old(db)).remove(key@),
{
    db.set(key, value).is_ok()
}

/// `PickleDb::get::<i64>`: the integer under `key`, if `key` holds a value
/// that reads as one.
#[verifier::external_body]
pub(crate) fn db_get_int(db: &PickleDb, key: &str) -> (r: Option<i64>)
    ensures
        r == db_int(*db, key@),
{
    db.get::<i64>(key)
}

/// `PickleDb::get::<String>`: the text under `key`, if `key` holds a value
/// that reads as one.
#[verifier::external_body]
pub(crate) fn db_get_text(db: &PickleDb, key: &str) -> (r: Option<String>)
    ensures
        r is Some <==> db_text(*db, key@) is Some,
        r matches Some(s) ==> db_text(*db, key@) == Some(s@),
{
    db.get::<String>(key)
}

/// `PickleDb::total_keys`: the number of keys that hold a value plus the
/// number of keys that hold a list, both finite.
#[verifier::external_body]
pub(crate) fn db_total_keys(db: &PickleDb) -> (n: usize)
    ensures
        db_key_total_is(*db, n as nat),
{
    db.total_keys()
}

} // verus!
