//! The pet itself: six attributes and the rules by which they change.
//!
//! The rules are stated once, as functions on `Attributes`, the mathematical
//! value of a record. `PetRecord` is the value a program holds; each of its
//! methods is proved to follow the rule of the same name.

use crate::clock::checked_timestamp_to_dmy;
use crate::clock::dhms_text;
use crate::clock::dmy_text;
use crate::clock::elapsed_dhms;
use crate::clock::utc_date;
use crate::error::fails_with;
use crate::error::PetError;
use crate::stat::apply_delta;
use crate::stat::saturate;
use crate::stat::STAT_MAX;
use vstd::prelude::*;

verus! {

/// A pet is interactable for this many seconds after it was last saved.
pub const INTERACT_WINDOW: i64 = 60;

/// A pet that is hungrier than this says so before anything else.
pub const HUNGRY_ABOVE: u8 = 50;

/// A pet that is less happy than this, and not hungry, is bored.
pub const BORED_BELOW: u8 = 50;

/// The hunger of a newly created pet.
pub const NEWBORN_HUNGER: u8 = 0;

/// The happiness of a newly created pet.
pub const NEWBORN_HAPPINESS: u8 = 100;

/// How a pet feels, as far as its hunger and happiness tell.
#[derive(Debug, Clone, Copy, PartialEq, Eq, Structural)]
pub enum Mood {
    /// Hunger is above `HUNGRY_ABOVE`.
    Hungry,
    /// Not hungry, and happiness is below `BORED_BELOW`.
    Bored,
    /// Neither hungry nor bored; the pet talks about itself.
    Content,
    /// Neither hungry nor bored; the pet talks about something else.
    Neutral,
}

/// The mathematical value of a pet record.
pub struct Attributes {
    /// The pet's name.
    pub name: Seq<char>,
    /// When the pet was created, in seconds since the epoch.
    pub birth: int,
    /// How hungry the pet is, from 0 to 100.
    pub hunger: int,
    /// How happy the pet is, from 0 to 100.
    pub happiness: int,
    /// When the record was last changed, in seconds since the epoch.
    pub last_save: int,
    /// Where the record is kept.
    pub path: Seq<char>,
}

impl Attributes {
    /// The constraints every record meets: a name, and both stats in range.
    pub open spec fn valid(self) -> bool {
        &&& self.name.len() > 0
        &&& 0 <= self.hunger <= STAT_MAX
        &&& 0 <= self.happiness <= STAT_MAX
    }

    /// A pet created at `now`: not hungry, fully happy, never saved before.
    pub open spec fn newborn(path: Seq<char>, name: Seq<char>, now: int) -> Attributes {
        Attributes {
            name,
            birth: now,
            hunger: NEWBORN_HUNGER as int,
            happiness: NEWBORN_HAPPINESS as int,
            last_save: now,
            path,
        }
    }

    /// The record after hunger changed by `delta` at `now`. Hunger counts
    /// up: a meal is a negative `delta`. Unlike playing, feeding does not
    /// depend on when the record was last saved.
    pub open spec fn fed(self, delta: int, now: int) -> Attributes {
        Attributes { hunger: saturate(self.hunger + delta), last_save: now, ..self }
    }

    /// Whether the pet can be played with at `now`: strictly less than
    /// `INTERACT_WINDOW` seconds have passed since the last save.
    pub open spec fn interactable(self, now: int) -> bool {
        now - self.last_save < INTERACT_WINDOW
    }

    /// The record after happiness changed by `delta` at `now`. Happiness
    /// counts up too, but here a treat is a positive `delta`: the two stats
    /// take amounts of opposite sense. Whether the pet may be played with is
    /// `interactable`'s to say, not this function's.
    pub open spec fn played(self, delta: int, now: int) -> Attributes {
        Attributes { happiness: saturate(self.happiness + delta), last_save: now, ..self }
    }

    /// The pet's mood. Hunger comes first, boredom second. A pet that is
    /// neither is content or neutral, as `neutral` says.
    pub open spec fn mood(self, neutral: bool) -> Mood {
        if self.hunger > HUNGRY_ABOVE {
            Mood::Hungry
        } else if self.happiness < BORED_BELOW {
            Mood::Bored
        } else if neutral {
            Mood::Neutral
        } else {
            Mood::Content
        }
    }
}

/// Feeding and playing keep a valid record valid: both stats stay in range
/// and the name stays, whatever the amount and the moment.
pub proof fn lemma_changes_keep_valid(a: Attributes, delta: int, now: int)
    requires
        a.valid(),
    ensures
        a.fed(delta, now).valid(),
        a.played(delta, now).valid(),
{
}

/// Feeding and playing change nothing but the one stat and the time of the
/// last save; the name, the birth and the path are for good.
pub proof fn lemma_changes_keep_identity(a: Attributes, delta: int, now: int)
    ensures
        a.fed(delta, now).name == a.name,
        a.fed(delta, now).birth == a.birth,
        a.fed(delta, now).path == a.path,
        a.fed(delta, now).happiness == a.happiness,
        a.played(delta, now).name == a.name,
        a.played(delta, now).birth == a.birth,
        a.played(delta, now).path == a.path,
        a.played(delta, now).hunger == a.hunger,
{
}

/// While the clock does not run backwards, the time of the last save never
/// goes back.
pub proof fn lemma_last_save_never_goes_back(a: Attributes, delta: int, now: int)
    requires
        a.last_save <= now,
    ensures
        a.last_save <= a.fed(delta, now).last_save,
        a.last_save <= a.played(delta, now).last_save,
{
}

/// A summary made after a feeding shows the change in hunger once: hunger is
/// the old hunger plus the amount, saturated, and happiness is as it was.
pub proof fn lemma_feed_shows_once(
    a: Attributes,
    delta: int,
    fed_at: int,
    summary: Summary,
    born: (i32, u32, u32),
    now: int,
)
    requires
        a.valid(),
        summary.tells(a.fed(delta, fed_at), born, now),
    ensures
        summary.hunger == saturate(a.hunger + delta),
        summary.happiness == a.happiness,
        summary.elapsed@ == dhms_text(now - fed_at),
{
}

/// Feeding nothing, twice, leaves hunger as it was, and each of the two
/// feedings sets the time of the last save.
pub proof fn lemma_feed_nothing_twice(a: Attributes, first: int, second: int)
    requires
        a.valid(),
    ensures
        a.fed(0, first).hunger == a.hunger,
        a.fed(0, first).last_save == first,
        a.fed(0, first).fed(0, second).hunger == a.hunger,
        a.fed(0, first).fed(0, second).last_save == second,
{
}

/// A pet is interactable from its last save until `INTERACT_WINDOW` seconds
/// later, that moment not included, and at every moment before its last
/// save.
pub proof fn lemma_interactable_window(a: Attributes, now: int)
    ensures
        a.interactable(now) <==> now < a.last_save + INTERACT_WINDOW,
        a.interactable(a.last_save),
        !a.interactable(a.last_save + INTERACT_WINDOW),
{
}

/// A pet asked to play at a moment before its last save is interactable.
pub proof fn lemma_interactable_before_last_save(a: Attributes, now: int)
    requires
        now < a.last_save,
    ensures
        a.interactable(now),
{
}

/// A hungry pet is hungry whatever else holds of it, and the two moods of a
/// pet that is neither hungry nor bored differ only by what the caller chose.
pub proof fn lemma_mood_order(a: Attributes, neutral: bool)
    ensures
        a.hunger > HUNGRY_ABOVE ==> a.mood(neutral) == Mood::Hungry,
        a.hunger <= HUNGRY_ABOVE && a.happiness < BORED_BELOW ==> a.mood(neutral) == Mood::Bored,
        a.hunger <= HUNGRY_ABOVE && a.happiness >= BORED_BELOW ==> a.mood(neutral) == (if neutral {
            Mood::Neutral
        } else {
            Mood::Content
        }),
{
}

/// What there is to tell of a pet at some moment.
#[derive(Debug)]
pub struct Summary {
    /// The pet's name.
    pub name: String,
    /// The day the pet was created, as `DD-MM-YYYY`.
    pub birth_date: String,
    /// How hungry the pet is.
    pub hunger: u8,
    /// How happy the pet is.
    pub happiness: u8,
    /// The time since the last save, in days, hours, minutes and seconds.
    pub elapsed: String,
}

impl Summary {
    /// The summary tells of a pet with attributes `a`, born on the given
    /// date, at the moment `now`.
    pub open spec fn tells(&self, a: Attributes, born: (i32, u32, u32), now: int) -> bool {
        &&& self.name@ == a.name
        &&& self.birth_date@ == dmy_text(born.0 as int, born.1 as nat, born.2 as nat)
        &&& self.hunger == a.hunger
        &&& self.happiness == a.happiness
        &&& self.elapsed@ == dhms_text(now - a.last_save)
    }
}

/// A pet record. Its fields are private so that every record a program holds
/// meets `Attributes::valid`.
#[derive(Debug)]
pub struct PetRecord {
    name: String,
    birth: i64,
    hunger: u8,
    happiness: u8,
    last_save: i64,
    path: String,
}

impl View for PetRecord {
    type V = Attributes;

    closed spec fn view(&self) -> Attributes {
        Attributes {
            name: self.name@,
            birth: self.birth as int,
            hunger: self.hunger as int,
            happiness: self.happiness as int,
            last_save: self.last_save as int,
            path: self.path@,
        }
    }
}

impl PetRecord {
    #[verifier::type_invariant]
    spec fn well_formed(&self) -> bool {
        self@.valid()
    }

    /// A record with the given attributes, if they meet the constraints.
    pub fn new(
        name: String,
        birth: i64,
        hunger: u8,
        happiness: u8,
        last_save: i64,
        path: String,
    ) -> (r: Option<PetRecord>)
        ensures
            r is Some <==> name@.len() > 0 && hunger <= STAT_MAX && happiness <= STAT_MAX,
            r matches Some(rec) ==> rec@ == (Attributes {
                name: name@,
                birth: birth as int,
                hunger: hunger as int,
                happiness: happiness as int,
                last_save: last_save as int,
                path: path@,
            }),
    {
        if name.as_str().is_empty() || hunger > STAT_MAX || happiness > STAT_MAX {
            None
        } else {
            Some(PetRecord { name, birth, hunger, happiness, last_save, path })
        }
    }

    /// The record of a pet created at `now`.
    pub fn newborn(path: String, name: String, now: i64) -> (r: PetRecord)
        requires
            name@.len() > 0,
        ensures
            r@ == Attributes::newborn(path@, name@, now as int),
    {
        PetRecord {
            name,
            birth: now,
            hunger: NEWBORN_HUNGER,
            happiness: NEWBORN_HAPPINESS,
            last_save: now,
            path,
        }
    }

    /// The pet's name.
    pub fn name(&self) -> (r: &String)
        ensures
            r@ == self@.name,
            r@.len() > 0,
    {
        proof {
            use_type_invariant(self);
        }
        &self.name
    }

    /// When the pet was created.
    pub fn birth(&self) -> (r: i64)
        ensures
            r == self@.birth,
    {
        self.birth
    }

    /// How hungry the pet is.
    pub fn hunger(&self) -> (r: u8)
        ensures
            r == self@.hunger,
            r <= STAT_MAX,
    {
        proof {
            use_type_invariant(self);
        }
        self.hunger
    }

    /// How happy the pet is.
    pub fn happiness(&self) -> (r: u8)
        ensures
            r == self@.happiness,
            r <= STAT_MAX,
    {
        proof {
            use_type_invariant(self);
        }
        self.happiness
    }

    /// When the record was last changed.
    pub fn last_save(&self) -> (r: i64)
        ensures
            r == self@.last_save,
    {
        self.last_save
    }

    /// Where the record is kept.
    pub fn path(&self) -> (r: &String)
        ensures
            r@ == self@.path,
    {
        &self.path
    }

    /// Changes hunger by `delta`, saturating, and marks the record as saved
    /// at `now`. A negative `delta` makes the pet less hungry. Feeding is
    /// never refused: of the two changes only playing is held to the
    /// interaction window.
    pub fn feed(&mut self, delta: i8, now: i64)
        ensures
            final(self)@ == old(self)@.fed(delta as int, now as int),
    {
        proof {
            use_type_invariant(&*self);
        }
        self.hunger = apply_delta(self.hunger, delta);
        self.last_save = now;
    }

    /// Whether the pet can be played with at `now`.
    pub fn interactable(&self, now: i64) -> (r: bool)
        ensures
            r == self@.interactable(now as int),
    {
        (now as i128) - (self.last_save as i128) < INTERACT_WINDOW as i128
    }

    /// Changes happiness by `delta`, saturating, and marks the record as
    /// saved at `now`, if the pet is interactable at `now`. Otherwise the
    /// request is declined and the record stays as it was. A positive `delta`
    /// makes the pet happier.
    pub fn play(&mut self, delta: i8, now: i64) -> (r: Result<(), PetError>)
        ensures
            old(self)@.interactable(now as int) ==> r is Ok && final(self)@ == old(self)@.played(
                delta as int,
                now as int,
            ),
            !old(self)@.interactable(now as int) ==> fails_with(r, PetError::NotInteractable)
                && final(self)@ == old(self)@,
    {
        proof {
            use_type_invariant(&*self);
        }
        if !self.interactable(now) {
            return Err(PetError::NotInteractable);
        }
        self.happiness = apply_delta(self.happiness, delta);
        self.last_save = now;
        Ok(())
    }

    /// Tells of the pet at `now`: its name, the day it was born, its stats,
    /// and the time since it was last saved. Nothing changes. There is no
    /// summary of a pet whose birth lies beyond the calendar's reach.
    pub fn describe(&self, now: i64) -> (r: Option<Summary>)
        ensures
            match utc_date(self@.birth as i64) {
                Some(born) => r matches Some(summary) && summary.tells(self@, born, now as int),
                None => r is None,
            },
    {
        match checked_timestamp_to_dmy(self.birth) {
            Some(birth_date) => Some(
                Summary {
                    name: self.name.clone(),
                    birth_date,
                    hunger: self.hunger,
                    happiness: self.happiness,
                    elapsed: elapsed_dhms(self.last_save, now),
                },
            ),
            None => None,
        }
    }

    /// The pet's mood. The caller says with `neutral` which way a pet that is
    /// neither hungry nor bored leans.
    pub fn mood_phrase(&self, neutral: bool) -> (r: Mood)
        ensures
            r == self@.mood(neutral),
    {
        if self.hunger > HUNGRY_ABOVE {
            Mood::Hungry
        } else if self.happiness < BORED_BELOW {
            Mood::Bored
        } else if neutral {
            Mood::Neutral
        } else {
            Mood::Content
        }
    }
}

} // verus!
