//! A pet together with the store that keeps it.
//!
//! Every change is made to the record and staged in the store in one step, so
//! that what the store would write to disk is what the program holds. Reading
//! and writing the file itself is left to the caller.

use crate::error::fails_with;
use crate::error::PetError;
use crate::record::Attributes;
use crate::record::PetRecord;
use crate::stat::apply_delta;
use crate::stat::STAT_MAX;
use crate::store::db_get_int;
use crate::store::db_get_text;
use crate::store::db_int;
use crate::store::db_key_total_is;
use crate::store::db_list_keys;
use crate::store::db_new;
use crate::store::db_path;
use crate::store::db_same_store;
use crate::store::db_set_int;
use crate::store::db_set_text;
use crate::store::db_text;
use crate::store::db_total_keys;
use crate::store::db_values;
use crate::store::db_writes_on_change;
use crate::store::int_value;
use crate::store::text_value;
use pickledb::PickleDb;
use vstd::prelude::*;
use vstd::set_lib::lemma_len_subset;
use vstd::set_lib::lemma_subset_equality;

verus! {

/// The number of fields a stored pet has.
pub const FIELD_COUNT: usize = 6;

/// The key the name is kept under.
pub open spec fn key_name() -> Seq<char> {
    "name"@
}

/// The key the time of birth is kept under.
pub open spec fn key_birth() -> Seq<char> {
    "birth"@
}

/// The key hunger is kept under.
pub open spec fn key_hunger() -> Seq<char> {
    "hunger"@
}

/// The key happiness is kept under.
pub open spec fn key_happiness() -> Seq<char> {
    "happiness"@
}

/// The key the time of the last save is kept under.
pub open spec fn key_last_save() -> Seq<char> {
    "last_save"@
}

/// The key the path is kept under.
pub open spec fn key_path() -> Seq<char> {
    "path"@
}

/// The six keys are six different keys.
pub proof fn lemma_keys_distinct()
    ensures
        key_name() != key_birth(),
        key_name() != key_hunger(),
        key_name() != key_happiness(),
        key_name() != key_last_save(),
        key_name() != key_path(),
        key_birth() != key_hunger(),
        key_birth() != key_happiness(),
        key_birth() != key_last_save(),
        key_birth() != key_path(),
        key_hunger() != key_happiness(),
        key_hunger() != key_last_save(),
        key_hunger() != key_path(),
        key_happiness() != key_last_save(),
        key_happiness() != key_path(),
        key_last_save() != key_path(),
{
    reveal_strlit("name");
    reveal_strlit("birth");
    reveal_strlit("hunger");
    reveal_strlit("happiness");
    reveal_strlit("last_save");
    reveal_strlit("path");
    assert(key_name().len() == 4 && key_name()[0] == 'n');
    assert(key_birth().len() == 5);
    assert(key_hunger().len() == 6);
    assert(key_happiness().len() == 9 && key_happiness()[0] == 'h');
    assert(key_last_save().len() == 9 && key_last_save()[0] == 'l');
    assert(key_path().len() == 4 && key_path()[0] == 'p');
}

/// Each of the six keys holds a value of the type its field has.
pub open spec fn db_fields_present(db: PickleDb) -> bool {
    &&& db_text(db, key_name()) is Some
    &&& db_int(db, key_birth()) is Some
    &&& db_int(db, key_hunger()) is Some
    &&& db_int(db, key_happiness()) is Some
    &&& db_int(db, key_last_save()) is Some
    &&& db_text(db, key_path()) is Some
}

/// The attributes the six keys hold.
pub open spec fn db_attributes(db: PickleDb) -> Attributes {
    Attributes {
        name: db_text(db, key_name()).unwrap(),
        birth: db_int(db, key_birth()).unwrap() as int,
        hunger: db_int(db, key_hunger()).unwrap() as int,
        happiness: db_int(db, key_happiness()).unwrap() as int,
        last_save: db_int(db, key_last_save()).unwrap() as int,
        path: db_text(db, key_path()).unwrap(),
    }
}

/// The pet a store holds: the six fields, each of its type, no other key,
/// and values that meet the constraints of a record. A store that falls short
/// of this in any way holds no pet.
pub open spec fn db_record(db: PickleDb) -> Option<Attributes> {
    if db_fields_present(db) && db_key_total_is(db, FIELD_COUNT as nat) && db_attributes(
        db,
    ).valid() {
        Some(db_attributes(db))
    } else {
        None
    }
}

/// The six keys.
pub open spec fn field_keys() -> Set<Seq<char>> {
    Set::<Seq<char>>::empty().insert(key_name()).insert(key_birth()).insert(key_hunger()).insert(
        key_happiness(),
    ).insert(key_last_save()).insert(key_path())
}

/// The two keys that a change to `stat` writes: that of the stat and that
/// of the last save.
pub open spec fn stat_keys(stat: Seq<char>) -> Set<Seq<char>> {
    Set::<Seq<char>>::empty().insert(stat).insert(key_last_save())
}

/// `after` is `before` with the six fields of `a` put under their keys. A
/// list that was kept under one of the keys is gone.
pub open spec fn db_written(before: PickleDb, after: PickleDb, a: Attributes) -> bool {
    &&& db_values(after) == db_values(before).insert(key_name(), text_value(a.name)).insert(
        key_birth(),
        int_value(a.birth as i64),
    ).insert(key_hunger(), int_value(a.hunger as i64)).insert(
        key_happiness(),
        int_value(a.happiness as i64),
    ).insert(key_last_save(), int_value(a.last_save as i64)).insert(
        key_path(),
        text_value(a.path),
    )
    &&& db_list_keys(after) == db_list_keys(before).difference(field_keys())
}

/// `after` is `before` with `value` put under the key `stat` and `now` put
/// under the key of the last save. A list that was kept under one of the two
/// keys is gone.
pub open spec fn db_stat_written(
    before: PickleDb,
    after: PickleDb,
    stat: Seq<char>,
    value: int,
    now: int,
) -> bool {
    &&& db_values(after) == db_values(before).insert(stat, int_value(value as i64)).insert(
        key_last_save(),
        int_value(now as i64),
    )
    &&& db_list_keys(after) == db_list_keys(before).difference(stat_keys(stat))
}

/// `after` holds what `before` holds under every key outside `keys`.
pub open spec fn db_same_outside(before: PickleDb, after: PickleDb, keys: Set<Seq<char>>) -> bool {
    &&& db_values(after).remove_keys(keys) == db_values(before).remove_keys(keys)
    &&& db_list_keys(after).difference(keys) == db_list_keys(before).difference(keys)
}

/// A store that holds a pet has the six keys and no other, and none of them
/// holds a list.
pub proof fn lemma_record_keys(db: PickleDb)
    requires
        db_record(db) is Some,
    ensures
        db_values(db).dom() == field_keys(),
        db_list_keys(db) == Set::<Seq<char>>::empty(),
{
    lemma_keys_distinct();
    let six = field_keys();
    assert(six.finite() && six.len() == 6);
    assert(six.subset_of(db_values(db).dom()));
    lemma_len_subset(six, db_values(db).dom());
    lemma_subset_equality(six, db_values(db).dom());
    db_list_keys(db).lemma_len0_is_empty();
}

/// Writing the six fields of a valid record into an empty store makes a
/// store that holds exactly that record.
pub proof fn lemma_written_fresh(before: PickleDb, after: PickleDb, a: Attributes)
    requires
        db_written(before, after, a),
        db_values(before) == Map::<Seq<char>, (Option<i64>, Option<Seq<char>>)>::empty(),
        db_list_keys(before) == Set::<Seq<char>>::empty(),
        a.valid(),
        i64::MIN <= a.birth <= i64::MAX,
        i64::MIN <= a.last_save <= i64::MAX,
    ensures
        db_record(after) == Some(a),
{
    lemma_keys_distinct();
    let six = field_keys();
    assert(six.finite() && six.len() == 6);
    assert(db_values(after).dom() =~= six);
    assert(db_list_keys(after) =~= Set::<Seq<char>>::empty());
    assert(db_attributes(after) == a);
}

/// Writing the six fields of a valid record into a store that holds a pet
/// makes a store that holds exactly that record.
pub proof fn lemma_written_over(before: PickleDb, after: PickleDb, a: Attributes)
    requires
        db_written(before, after, a),
        db_record(before) is Some,
        a.valid(),
        i64::MIN <= a.birth <= i64::MAX,
        i64::MIN <= a.last_save <= i64::MAX,
    ensures
        db_record(after) == Some(a),
{
    lemma_keys_distinct();
    lemma_record_keys(before);
    assert(db_values(after).dom() =~= field_keys());
    assert(db_list_keys(after) =~= Set::<Seq<char>>::empty());
    assert(db_attributes(after) == a);
}

/// Writing the six fields of a valid record into any store makes a store
/// that reads back those six fields, value for value.
pub proof fn lemma_written_reads_back(before: PickleDb, after: PickleDb, a: Attributes)
    requires
        db_written(before, after, a),
        a.valid(),
        i64::MIN <= a.birth <= i64::MAX,
        i64::MIN <= a.last_save <= i64::MAX,
    ensures
        db_fields_present(after),
        db_attributes(after) == a,
{
    lemma_keys_distinct();
}

/// A store in which one of the six keys does not hold a value of its field's
/// type holds no pet, whatever else it holds.
pub proof fn lemma_missing_field_holds_no_pet(db: PickleDb)
    requires
        db_text(db, key_name()) is None || db_int(db, key_birth()) is None || db_int(
            db,
            key_hunger(),
        ) is None || db_int(db, key_happiness()) is None || db_int(db, key_last_save()) is None
            || db_text(db, key_path()) is None,
    ensures
        db_record(db) is None,
{
}

/// A store that holds a seventh key holds no pet.
pub proof fn lemma_extra_key_holds_no_pet(db: PickleDb, key: Seq<char>)
    requires
        db_values(db).contains_key(key) || db_list_keys(db).contains(key),
        !field_keys().contains(key),
    ensures
        db_record(db) is None,
{
    if db_record(db) is Some {
        lemma_record_keys(db);
    }
}

/// Writing a stat and the time of the save into a store that holds a record
/// makes a store that holds the record with that stat and that time.
pub proof fn lemma_stat_written(
    before: PickleDb,
    after: PickleDb,
    stat: Seq<char>,
    value: int,
    now: int,
)
    requires
        db_record(before) is Some,
        db_stat_written(before, after, stat, value, now),
        stat == key_hunger() || stat == key_happiness(),
        0 <= value <= STAT_MAX,
        i64::MIN <= now <= i64::MAX,
    ensures
        stat == key_hunger() ==> db_record(after) == Some(
            Attributes { hunger: value, last_save: now, ..db_record(before).unwrap() },
        ),
        stat == key_happiness() ==> db_record(after) == Some(
            Attributes { happiness: value, last_save: now, ..db_record(before).unwrap() },
        ),
{
    lemma_keys_distinct();
    lemma_record_keys(before);
    assert(db_values(after).dom() =~= db_values(before).dom());
    assert(db_list_keys(after) =~= db_list_keys(before));
}

/// A pet and its store. The store is one that touches its file only when
/// asked to, so that changing a pet never reads or writes a file: every pet
/// this module hands out has such a store, and every change keeps it so.
pub struct Pet {
    record: PetRecord,
    db: PickleDb,
}

impl View for Pet {
    type V = Attributes;

    closed spec fn view(&self) -> Attributes {
        self.record@
    }
}

impl Pet {
    /// The pet's store touches its file only when asked to.
    pub open spec fn writes_on_request(&self) -> bool {
        !db_writes_on_change(self.store())
    }

    /// The store the pet is kept in.
    pub closed spec fn store(&self) -> PickleDb {
        self.db
    }

    /// The store holds the pet as the program has it.
    pub open spec fn in_sync(&self) -> bool {
        db_record(self.store()) == Some(self@)
    }

    /// The pet's record.
    pub fn record(&self) -> (r: &PetRecord)
        ensures
            r@ == self@,
    {
        &self.record
    }

    /// Gives up the pet and hands out its store, for the caller to write.
    pub fn into_store(self) -> (db: PickleDb)
        ensures
            db == self.store(),
    {
        self.db
    }

    /// Puts all six fields of the record into the store. The store takes
    /// them all: after the call it has them, whatever it held under those
    /// keys before, and every other key is as it was. The record is
    /// untouched. If the store held a pet, this one or another, it now holds
    /// this one and the two are in sync.
    pub fn init(&mut self) -> (r: Result<(), PetError>)
        requires
            old(self).writes_on_request(),
        ensures
            r is Ok,
            final(self)@ == old(self)@,
            db_written(old(self).store(), final(self).store(), old(self)@),
            db_same_outside(old(self).store(), final(self).store(), field_keys()),
            db_same_store(old(self).store(), final(self).store()),
            db_record(old(self).store()) is Some ==> final(self).in_sync(),
    {
        let stored: bool = db_set_text(&mut self.db, "name", self.record.name()) && db_set_int(
            &mut self.db,
            "birth",
            self.record.birth(),
        ) && db_set_int(&mut self.db, "hunger", self.record.hunger() as i64) && db_set_int(
            &mut self.db,
            "happiness",
            self.record.happiness() as i64,
        ) && db_set_int(&mut self.db, "last_save", self.record.last_save()) && db_set_text(
            &mut self.db,
            "path",
            self.record.path(),
        );
        proof {
            let keys = field_keys();
            lemma_keys_distinct();
            assert(db_values(self.db).remove_keys(keys) =~= db_values(old(self).db).remove_keys(
                keys,
            ));
            assert(db_list_keys(self.db).difference(keys) =~= db_list_keys(
                old(self).db,
            ).difference(keys));
            assert(db_list_keys(self.db) =~= db_list_keys(old(self).db).difference(keys));
            if db_record(old(self).db) is Some {
                lemma_written_over(old(self).db, self.db, self@);
            }
        }
        // A store that writes only on request takes every value; what it
        // answered is looked at all the same.
        if stored {
            Ok(())
        } else {
            Err(PetError::DumpError)
        }
    }

    /// Feeds the pet: hunger changes by `amount`, saturating, the record is
    /// marked as saved at `now`, and both are put into the store. Feeding is
    /// never refused and always succeeds. A pet that was in sync with its
    /// store is in sync after it.
    pub fn feed(&mut self, amount: i8, now: i64) -> (r: Result<(), PetError>)
        requires
            old(self).writes_on_request(),
        ensures
            r is Ok,
            final(self)@ == old(self)@.fed(amount as int, now as int),
            db_stat_written(
                old(self).store(),
                final(self).store(),
                key_hunger(),
                final(self)@.hunger,
                now as int,
            ),
            db_same_outside(old(self).store(), final(self).store(), stat_keys(key_hunger())),
            db_same_store(old(self).store(), final(self).store()),
            old(self).in_sync() ==> final(self).in_sync(),
    {
        let hunger: u8 = apply_delta(self.record.hunger(), amount);
        let stored: bool = db_set_int(&mut self.db, "hunger", hunger as i64) && db_set_int(
            &mut self.db,
            "last_save",
            now,
        );
        if !stored {
            return Err(PetError::DumpError);
        }
        self.record.feed(amount, now);
        proof {
            lemma_stat_staged(old(self).db, self.db, key_hunger(), hunger as int, now as int);
            if old(self).in_sync() {
                lemma_stat_written(
                    old(self).db,
                    self.db,
                    key_hunger(),
                    hunger as int,
                    now as int,
                );
            }
        }
        Ok(())
    }

    /// Plays with the pet, if it is interactable at `now`: happiness changes
    /// by `amount`, saturating, the record is marked as saved at `now`, and
    /// both are put into the store. A pet that is interactable always plays.
    /// One that is not declines with `NotInteractable`, and neither it nor
    /// its store changes. A pet that was in sync with its store is in sync
    /// after a play.
    pub fn play(&mut self, amount: i8, now: i64) -> (r: Result<(), PetError>)
        requires
            old(self).writes_on_request(),
        ensures
            r is Ok <==> old(self)@.interactable(now as int),
            !old(self)@.interactable(now as int) ==> *final(self) == *old(self) && fails_with(
                r,
                PetError::NotInteractable,
            ),
            r is Ok ==> final(self)@ == old(self)@.played(amount as int, now as int),
            r is Ok ==> db_stat_written(
                old(self).store(),
                final(self).store(),
                key_happiness(),
                final(self)@.happiness,
                now as int,
            ),
            r is Ok ==> (old(self).in_sync() ==> final(self).in_sync()),
            db_same_outside(old(self).store(), final(self).store(), stat_keys(key_happiness())),
            db_same_store(old(self).store(), final(self).store()),
    {
        if !self.record.interactable(now) {
            proof {
                let keys = stat_keys(key_happiness());
                assert(db_values(self.db).remove_keys(keys) =~= db_values(
                    old(self).db,
                ).remove_keys(keys));
            }
            return Err(PetError::NotInteractable);
        }
        let happiness: u8 = apply_delta(self.record.happiness(), amount);
        let stored: bool = db_set_int(&mut self.db, "happiness", happiness as i64) && db_set_int(
            &mut self.db,
            "last_save",
            now,
        );
        if !stored {
            return Err(PetError::DumpError);
        }
        let played = self.record.play(amount, now);
        proof {
            lemma_stat_staged(
                old(self).db,
                self.db,
                key_happiness(),
                happiness as int,
                now as int,
            );
            if old(self).in_sync() {
                lemma_stat_written(
                    old(self).db,
                    self.db,
                    key_happiness(),
                    happiness as int,
                    now as int,
                );
            }
        }
        played
    }
}

/// Putting a stat and the time of the save into a store changes nothing
/// outside the two keys.
proof fn lemma_stat_staged(before: PickleDb, after: PickleDb, stat: Seq<char>, value: int, now: int)
    requires
        db_values(after) == db_values(before).insert(stat, int_value(value as i64)).insert(
            key_last_save(),
            int_value(now as i64),
        ),
        db_list_keys(after) == db_list_keys(before).remove(stat).remove(key_last_save()),
    ensures
        db_same_outside(before, after, stat_keys(stat)),
        db_stat_written(before, after, stat, value, now),
{
    let keys = stat_keys(stat);
    assert(db_values(after).remove_keys(keys) =~= db_values(before).remove_keys(keys));
    assert(db_list_keys(after).difference(keys) =~= db_list_keys(before).difference(keys));
    assert(db_list_keys(after) =~= db_list_keys(before).difference(keys));
}

/// Creates a pet at `now` and puts it into a new, empty store bound to
/// `path`. `exists` says whether something is already kept at `path`: if so,
/// nothing is created and the result is `AlreadyExists`. Otherwise creation
/// succeeds: the new pet is not hungry and fully happy, and is in sync with
/// its store.
pub fn create_pet(path: String, name: String, now: i64, exists: bool) -> (r: Result<Pet, PetError>)
    requires
        name@.len() > 0,
    ensures
        exists ==> fails_with(r, PetError::AlreadyExists),
        !exists ==> r is Ok,
        r matches Ok(pet) ==> pet@ == Attributes::newborn(path@, name@, now as int)
            && pet.in_sync() && pet.writes_on_request() && db_path(pet.store()) == path@,
{
    if exists {
        return Err(PetError::AlreadyExists);
    }
    let db = db_new(path.as_str());
    let record = PetRecord::newborn(path, name, now);
    let mut pet = Pet { record, db };
    let ghost fresh = pet.db;
    match pet.init() {
        Ok(()) => {
            proof {
                lemma_written_fresh(fresh, pet.db, pet@);
            }
            Ok(pet)
        },
        Err(_) => Err(PetError::DumpError),
    }
}

/// Decides what opening the store at a path comes to. `exists` says whether
/// anything is kept at the path, and `parsed` is the store that was read
/// from it, if it could be read as a store at all. Nothing there is
/// `NotFound`; something that is not a store, or a store that does not hold
/// exactly a pet, is `Corrupt`. The store must be one that writes only when
/// asked to.
pub fn open_db(exists: bool, parsed: Option<PickleDb>) -> (r: Result<Pet, PetError>)
    requires
        parsed matches Some(db) ==> !db_writes_on_change(db),
    ensures
        !exists ==> fails_with(r, PetError::NotFound),
        exists && parsed is None ==> fails_with(r, PetError::Corrupt),
        exists && parsed is Some ==> match db_record(parsed.unwrap()) {
            Some(a) => r matches Ok(pet) && pet@ == a && pet.store() == parsed.unwrap(),
            None => fails_with(r, PetError::Corrupt),
        },
{
    if !exists {
        return Err(PetError::NotFound);
    }
    match parsed {
        Some(db) => load_pet(db),
        None => Err(PetError::Corrupt),
    }
}

/// Decides what writing a pet's store to its file comes to. `store` is the
/// store after the attempt and `written` says whether the file was written.
/// A file that was not written is a `DumpError`; after one that was, the pet
/// is read again from the store that was written. The store must be one that
/// writes only when asked to.
pub fn after_dump(store: PickleDb, written: bool) -> (r: Result<Pet, PetError>)
    requires
        !db_writes_on_change(store),
    ensures
        !written ==> fails_with(r, PetError::DumpError),
        written ==> match db_record(store) {
            Some(a) => r matches Ok(pet) && pet@ == a && pet.store() == store,
            None => fails_with(r, PetError::Corrupt),
        },
{
    if !written {
        return Err(PetError::DumpError);
    }
    load_pet(store)
}

/// Reads a pet from a store. All six fields must be there, each of its type
/// and within its constraints, and nothing else: a store that is not exactly
/// that is `Corrupt`, and no field is ever filled in with a default. The
/// store must be one that writes only when asked to.
pub fn load_pet(db: PickleDb) -> (r: Result<Pet, PetError>)
    requires
        !db_writes_on_change(db),
    ensures
        match db_record(db) {
            Some(a) => r matches Ok(pet) && pet@ == a && pet.store() == db,
            None => fails_with(r, PetError::Corrupt),
        },
{
    let total: usize = db_total_keys(&db);
    let name = db_get_text(&db, "name");
    let birth = db_get_int(&db, "birth");
    let hunger = db_get_int(&db, "hunger");
    let happiness = db_get_int(&db, "happiness");
    let last_save = db_get_int(&db, "last_save");
    let path = db_get_text(&db, "path");
    if total != FIELD_COUNT {
        return Err(PetError::Corrupt);
    }
    match (name, birth, hunger, happiness, last_save, path) {
        (Some(name), Some(birth), Some(hunger), Some(happiness), Some(last_save), Some(path)) => {
            if hunger < 0 || hunger > STAT_MAX as i64 || happiness < 0 || happiness
                > STAT_MAX as i64 {
                return Err(PetError::Corrupt);
            }
            match PetRecord::new(name, birth, hunger as u8, happiness as u8, last_save, path) {
                Some(record) => Ok(Pet { record, db }),
                None => Err(PetError::Corrupt),
            }
        },
        _ => Err(PetError::Corrupt),
    }
}

} // verus!
