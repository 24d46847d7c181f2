use pickledb::PickleDb;
use pickledb::PickleDbDumpPolicy;
use pickledb::SerializationMethod;
use termpet::error::PetError;
use termpet::pet::after_dump;
use termpet::pet::create_pet;
use termpet::pet::load_pet;
use termpet::pet::open_db;
use termpet::pet::Pet;

fn empty_store() -> PickleDb {
    PickleDb::new("unused.pet", PickleDbDumpPolicy::DumpUponRequest, SerializationMethod::Json)
}

fn store_of(hunger: i64, happiness: i64, last_save: i64) -> PickleDb {
    let mut db = empty_store();
    db.set("name", &String::from("Rex")).unwrap();
    db.set("birth", &1_000_000i64).unwrap();
    db.set("hunger", &hunger).unwrap();
    db.set("happiness", &happiness).unwrap();
    db.set("last_save", &last_save).unwrap();
    db.set("path", &String::from("/tmp/rex.pet")).unwrap();
    db
}

fn rex(hunger: i64, happiness: i64, last_save: i64) -> Pet {
    match load_pet(store_of(hunger, happiness, last_save)) {
        Ok(pet) => pet,
        Err(e) => panic!("a full store did not load: {:?}", e),
    }
}

fn error_of(r: Result<Pet, PetError>) -> Option<PetError> {
    match r {
        Ok(_) => None,
        Err(e) => Some(e),
    }
}

#[test]
fn create_makes_a_newborn() {
    let pet = create_pet(String::from("/tmp/mo.pet"), String::from("Mo"), 1234, false);
    let pet = match pet {
        Ok(pet) => pet,
        Err(e) => panic!("creation failed: {:?}", e),
    };
    assert_eq!(pet.record().name(), "Mo");
    assert_eq!(pet.record().path(), "/tmp/mo.pet");
    assert_eq!(pet.record().birth(), 1234);
    assert_eq!(pet.record().last_save(), 1234);
    assert_eq!(pet.record().hunger(), 0);
    assert_eq!(pet.record().happiness(), 100);
}

#[test]
fn create_puts_the_six_fields_into_the_store() {
    let pet = create_pet(String::from("/tmp/mo.pet"), String::from("Mo"), 1234, false);
    let db = match pet {
        Ok(pet) => pet.into_store(),
        Err(e) => panic!("creation failed: {:?}", e),
    };
    assert_eq!(db.total_keys(), 6);
    assert_eq!(db.get::<String>("name"), Some(String::from("Mo")));
    assert_eq!(db.get::<i64>("birth"), Some(1234));
    assert_eq!(db.get::<u8>("hunger"), Some(0));
    assert_eq!(db.get::<u8>("happiness"), Some(100));
    assert_eq!(db.get::<i64>("last_save"), Some(1234));
    assert_eq!(db.get::<String>("path"), Some(String::from("/tmp/mo.pet")));
}

#[test]
fn create_where_a_record_exists_is_refused() {
    let r = create_pet(String::from("/tmp/mo.pet"), String::from("Mo"), 1234, true);
    assert_eq!(error_of(r), Some(PetError::AlreadyExists));
}

#[test]
fn what_was_created_loads_back_field_for_field() {
    let name = String::from("Zoë \"the\" pet\n\\");
    let path = String::from("/home/someone/.config/termpet/first.pet");
    let made = match create_pet(path.clone(), name.clone(), -5, false) {
        Ok(pet) => pet,
        Err(e) => panic!("creation failed: {:?}", e),
    };
    let back = match load_pet(made.into_store()) {
        Ok(pet) => pet,
        Err(e) => panic!("loading failed: {:?}", e),
    };
    assert_eq!(back.record().name(), &name);
    assert_eq!(back.record().path(), &path);
    assert_eq!(back.record().birth(), -5);
    assert_eq!(back.record().last_save(), -5);
    assert_eq!(back.record().hunger(), 0);
    assert_eq!(back.record().happiness(), 100);
}

#[test]
fn what_was_changed_loads_back_field_for_field() {
    let mut pet = rex(40, 50, 1000);
    assert_eq!(pet.feed(-10, 1010), Ok(()));
    assert_eq!(pet.play(7, 1020), Ok(()));
    let back = match load_pet(pet.into_store()) {
        Ok(pet) => pet,
        Err(e) => panic!("loading failed: {:?}", e),
    };
    assert_eq!(back.record().name(), "Rex");
    assert_eq!(back.record().birth(), 1_000_000);
    assert_eq!(back.record().hunger(), 30);
    assert_eq!(back.record().happiness(), 57);
    assert_eq!(back.record().last_save(), 1020);
    assert_eq!(back.record().path(), "/tmp/rex.pet");
}

#[test]
fn load_reads_every_field() {
    let pet = rex(12, 34, 2_000_000);
    assert_eq!(pet.record().name(), "Rex");
    assert_eq!(pet.record().birth(), 1_000_000);
    assert_eq!(pet.record().hunger(), 12);
    assert_eq!(pet.record().happiness(), 34);
    assert_eq!(pet.record().last_save(), 2_000_000);
    assert_eq!(pet.record().path(), "/tmp/rex.pet");
}

#[test]
fn load_reads_what_was_stored_as_a_byte() {
    let mut db = store_of(0, 0, 5);
    db.set("hunger", &77u8).unwrap();
    db.set("happiness", &100u8).unwrap();
    let pet = match load_pet(db) {
        Ok(pet) => pet,
        Err(e) => panic!("loading failed: {:?}", e),
    };
    assert_eq!(pet.record().hunger(), 77);
    assert_eq!(pet.record().happiness(), 100);
}

#[test]
fn load_without_happiness_is_corrupt() {
    let mut db = store_of(10, 20, 30);
    assert!(db.rem("happiness").unwrap());
    assert_eq!(error_of(load_pet(db)), Some(PetError::Corrupt));
}

#[test]
fn load_without_any_one_field_is_corrupt() {
    for key in ["name", "birth", "hunger", "happiness", "last_save", "path"] {
        let mut db = store_of(10, 20, 30);
        assert!(db.rem(key).unwrap());
        assert_eq!(error_of(load_pet(db)), Some(PetError::Corrupt));
    }
}

#[test]
fn load_of_an_empty_store_is_corrupt() {
    assert_eq!(error_of(load_pet(empty_store())), Some(PetError::Corrupt));
}

#[test]
fn load_with_a_seventh_key_is_corrupt() {
    let mut db = store_of(10, 20, 30);
    db.set("colour", &String::from("green")).unwrap();
    assert_eq!(error_of(load_pet(db)), Some(PetError::Corrupt));
}

#[test]
fn load_with_a_list_beside_the_fields_is_corrupt() {
    let mut db = store_of(10, 20, 30);
    db.lcreate("toys").unwrap();
    assert_eq!(error_of(load_pet(db)), Some(PetError::Corrupt));
}

#[test]
fn load_with_a_field_of_the_wrong_type_is_corrupt() {
    let mut db = store_of(10, 20, 30);
    db.set("hunger", &String::from("10")).unwrap();
    assert_eq!(error_of(load_pet(db)), Some(PetError::Corrupt));
    let mut db = store_of(10, 20, 30);
    db.set("name", &5i64).unwrap();
    assert_eq!(error_of(load_pet(db)), Some(PetError::Corrupt));
    let mut db = store_of(10, 20, 30);
    db.set("birth", &true).unwrap();
    assert_eq!(error_of(load_pet(db)), Some(PetError::Corrupt));
}

#[test]
fn load_with_a_stat_out_of_range_is_corrupt() {
    assert_eq!(error_of(load_pet(store_of(101, 20, 30))), Some(PetError::Corrupt));
    assert_eq!(error_of(load_pet(store_of(10, 101, 30))), Some(PetError::Corrupt));
    assert_eq!(error_of(load_pet(store_of(-1, 20, 30))), Some(PetError::Corrupt));
    assert_eq!(error_of(load_pet(store_of(10, 300, 30))), Some(PetError::Corrupt));
    assert!(load_pet(store_of(100, 100, 30)).is_ok());
    assert!(load_pet(store_of(0, 0, 30)).is_ok());
}

#[test]
fn load_with_an_empty_name_is_corrupt() {
    let mut db = store_of(10, 20, 30);
    db.set("name", &String::new()).unwrap();
    assert_eq!(error_of(load_pet(db)), Some(PetError::Corrupt));
}

#[test]
fn open_where_nothing_is_kept_is_not_found() {
    assert_eq!(error_of(open_db(false, None)), Some(PetError::NotFound));
    assert_eq!(error_of(open_db(false, Some(store_of(1, 2, 3)))), Some(PetError::NotFound));
}

#[test]
fn open_what_is_no_store_is_corrupt() {
    assert_eq!(error_of(open_db(true, None)), Some(PetError::Corrupt));
}

#[test]
fn open_a_store_without_happiness_is_corrupt() {
    let mut db = store_of(10, 20, 30);
    assert!(db.rem("happiness").unwrap());
    assert_eq!(error_of(open_db(true, Some(db))), Some(PetError::Corrupt));
}

#[test]
fn open_a_full_store_gives_the_pet() {
    let pet = match open_db(true, Some(store_of(10, 20, 30))) {
        Ok(pet) => pet,
        Err(e) => panic!("opening failed: {:?}", e),
    };
    assert_eq!(pet.record().hunger(), 10);
    assert_eq!(pet.record().happiness(), 20);
    assert_eq!(pet.record().last_save(), 30);
}

#[test]
fn init_overwrites_what_the_store_held_under_the_six_keys() {
    let mut pet = rex(40, 50, 1000);
    assert_eq!(pet.feed(-10, 1010), Ok(()));
    assert_eq!(pet.init(), Ok(()));
    let db = pet.into_store();
    assert_eq!(db.total_keys(), 6);
    assert_eq!(db.get::<i64>("hunger"), Some(30));
    assert_eq!(db.get::<i64>("last_save"), Some(1010));
    assert_eq!(db.get::<String>("name"), Some(String::from("Rex")));
}

#[test]
fn feed_puts_hunger_and_last_save_into_the_store() {
    let mut pet = rex(40, 50, 1000);
    assert_eq!(pet.feed(-10, 5000), Ok(()));
    assert_eq!(pet.record().hunger(), 30);
    assert_eq!(pet.record().last_save(), 5000);
    let db = pet.into_store();
    assert_eq!(db.get::<u8>("hunger"), Some(30));
    assert_eq!(db.get::<i64>("last_save"), Some(5000));
    assert_eq!(db.get::<u8>("happiness"), Some(50));
    assert_eq!(db.get::<i64>("birth"), Some(1_000_000));
    assert_eq!(db.total_keys(), 6);
}

#[test]
fn feed_of_a_stored_pet_saturates() {
    let mut pet = rex(5, 50, 1000);
    assert_eq!(pet.feed(-10, 1001), Ok(()));
    assert_eq!(pet.record().hunger(), 0);
    assert_eq!(pet.feed(127, 1002), Ok(()));
    assert_eq!(pet.record().hunger(), 100);
    let db = pet.into_store();
    assert_eq!(db.get::<u8>("hunger"), Some(100));
}

#[test]
fn play_within_the_window_puts_happiness_and_last_save_into_the_store() {
    let mut pet = rex(40, 40, 1000);
    assert_eq!(pet.play(10, 1030), Ok(()));
    assert_eq!(pet.record().happiness(), 50);
    assert_eq!(pet.record().last_save(), 1030);
    let db = pet.into_store();
    assert_eq!(db.get::<u8>("happiness"), Some(50));
    assert_eq!(db.get::<i64>("last_save"), Some(1030));
    assert_eq!(db.get::<u8>("hunger"), Some(40));
}

#[test]
fn play_at_the_moment_of_the_last_save_succeeds() {
    let now = 1_700_000_000;
    let mut pet = rex(40, 40, now);
    assert_eq!(pet.play(10, now), Ok(()));
    assert_eq!(pet.record().happiness(), 50);
    assert_eq!(pet.record().last_save(), now);
}

#[test]
fn play_two_minutes_after_the_last_save_is_declined() {
    let now = 1_700_000_000;
    let mut pet = rex(40, 40, now - 120);
    assert_eq!(pet.play(10, now), Err(PetError::NotInteractable));
    assert_eq!(pet.record().happiness(), 40);
    assert_eq!(pet.record().last_save(), now - 120);
    let db = pet.into_store();
    assert_eq!(db.get::<u8>("happiness"), Some(40));
    assert_eq!(db.get::<i64>("last_save"), Some(now - 120));
}

#[test]
fn play_at_the_end_of_the_window_is_declined() {
    let mut pet = rex(40, 40, 1000);
    assert_eq!(pet.play(10, 1059), Ok(()));
    assert_eq!(pet.play(10, 1059 + 60), Err(PetError::NotInteractable));
    assert_eq!(pet.record().happiness(), 50);
}

#[test]
fn feed_is_not_held_to_the_window() {
    let mut pet = rex(40, 40, 1000);
    assert_eq!(pet.play(10, 9000), Err(PetError::NotInteractable));
    assert_eq!(pet.feed(-10, 9000), Ok(()));
    assert_eq!(pet.record().hunger(), 30);
    assert_eq!(pet.play(10, 9000), Ok(()));
    assert_eq!(pet.record().happiness(), 50);
}

#[test]
fn a_store_that_was_not_written_is_a_dump_error() {
    assert_eq!(error_of(after_dump(store_of(1, 2, 3), false)), Some(PetError::DumpError));
    assert_eq!(error_of(after_dump(empty_store(), false)), Some(PetError::DumpError));
}

#[test]
fn a_store_that_was_written_gives_the_pet_again() {
    let pet = match after_dump(store_of(1, 2, 3), true) {
        Ok(pet) => pet,
        Err(e) => panic!("reading again failed: {:?}", e),
    };
    assert_eq!(pet.record().hunger(), 1);
    assert_eq!(pet.record().happiness(), 2);
    assert_eq!(pet.record().last_save(), 3);
    assert_eq!(error_of(after_dump(empty_store(), true)), Some(PetError::Corrupt));
}

#[test]
fn feed_play_and_init_of_a_created_pet_succeed() {
    let mut pet = match create_pet(String::from("/tmp/mo.pet"), String::from("Mo"), 1000, false) {
        Ok(pet) => pet,
        Err(e) => panic!("creation failed: {:?}", e),
    };
    assert_eq!(pet.feed(30, 1001), Ok(()));
    assert_eq!(pet.play(-20, 1002), Ok(()));
    assert_eq!(pet.init(), Ok(()));
    let db = pet.into_store();
    assert_eq!(db.total_keys(), 6);
    assert_eq!(db.get::<i64>("hunger"), Some(30));
    assert_eq!(db.get::<i64>("happiness"), Some(80));
    assert_eq!(db.get::<i64>("last_save"), Some(1002));
}

#[test]
fn init_of_a_loaded_pet_keeps_it_loadable() {
    let mut pet = rex(40, 50, 1000);
    assert_eq!(pet.feed(-40, 1001), Ok(()));
    assert_eq!(pet.init(), Ok(()));
    let back = match load_pet(pet.into_store()) {
        Ok(pet) => pet,
        Err(e) => panic!("loading failed: {:?}", e),
    };
    assert_eq!(back.record().name(), "Rex");
    assert_eq!(back.record().birth(), 1_000_000);
    assert_eq!(back.record().hunger(), 0);
    assert_eq!(back.record().happiness(), 50);
    assert_eq!(back.record().last_save(), 1001);
    assert_eq!(back.record().path(), "/tmp/rex.pet");
}
