//! What a pet says when it is greeted: one of a few phrases for its mood,
//! picked at random.

use crate::record::Attributes;
use crate::record::Mood;
use crate::record::PetRecord;
use rand::rngs::ThreadRng;
use rand::Rng;
use vstd::prelude::*;

verus! {

/// The number of phrases a pet has for each mood.
pub const PHRASES_PER_MOOD: usize = 4;

#[verifier::external_type_specification]
#[verifier::external_body]
pub struct ExThreadRng(rand::rngs::ThreadRng);

/// `rand::thread_rng`: the random number generator of the current thread,
/// seeded by the system. Nothing is known of what it will give.
pub assume_specification[ rand::thread_rng ]() -> (rng: ThreadRng)
;

/// `Rng::gen_range` over the numbers from 0 up to, not including, `bound`:
/// one of them. Which one cannot be foretold. The range must not be empty.
#[verifier::external_body]
fn random_below(rng: &mut ThreadRng, bound: usize) -> (r: usize)
    requires
        bound > 0,
    ensures
        r < bound,
{
    rng.gen_range(0..bound)
}

/// What a hungry pet says.
pub open spec fn hungry_phrase(index: int) -> Seq<char> {
    if index == 0 {
        "Felling really hungry rn!"@
    } else if index == 1 {
        "I want food!"@
    } else if index == 2 {
        "I'm starving! ("@
    } else {
        "I'm famished!"@
    }
}

/// What a bored pet says.
pub open spec fn bored_phrase(index: int) -> Seq<char> {
    if index == 0 {
        "I'm bored!"@
    } else if index == 1 {
        "I want to play!"@
    } else if index == 2 {
        "I'm tired of doing nothing!"@
    } else {
        "I'm feeling lonely!"@
    }
}

/// What a content pet says of itself.
pub open spec fn content_phrase(index: int) -> Seq<char> {
    if index == 0 {
        "I'm feeling good!"@
    } else if index == 1 {
        "How you doing?"@
    } else if index == 2 {
        "I'm fine, thanks for asking!"@
    } else {
        "Remember to check on me often!"@
    }
}

/// What a pet says when it has nothing to say of itself: a piece of advice.
pub open spec fn neutral_phrase(index: int) -> Seq<char> {
    if index == 0 {
        "Remember to stage your files before commiting!"@
    } else if index == 1 {
        "Remember to push your changes!"@
    } else if index == 2 {
        "Remember to pull before pushing!"@
    } else {
        "Remember to drink some water!"@
    }
}

/// The phrase with the given index among those for `mood`.
pub open spec fn phrase_text(mood: Mood, index: int) -> Seq<char> {
    match mood {
        Mood::Hungry => hungry_phrase(index),
        Mood::Bored => bored_phrase(index),
        Mood::Content => content_phrase(index),
        Mood::Neutral => neutral_phrase(index),
    }
}

/// `text` is something a pet with these attributes may say when greeted:
/// one of the phrases for a mood it can be in.
pub open spec fn is_greeting_of(a: Attributes, text: Seq<char>) -> bool {
    exists|neutral: bool, index: int|
        0 <= index < PHRASES_PER_MOOD && #[trigger] phrase_text(a.mood(neutral), index) == text
}

/// The phrase with the given index among those for `mood`.
pub fn phrase(mood: Mood, index: usize) -> (r: &'static str)
    requires
        index < PHRASES_PER_MOOD,
    ensures
        r@ == phrase_text(mood, index as int),
{
    match mood {
        Mood::Hungry => {
            if index == 0 {
                "Felling really hungry rn!"
            } else if index == 1 {
                "I want food!"
            } else if index == 2 {
                "I'm starving! ("
            } else {
                "I'm famished!"
            }
        },
        Mood::Bored => {
            if index == 0 {
                "I'm bored!"
            } else if index == 1 {
                "I want to play!"
            } else if index == 2 {
                "I'm tired of doing nothing!"
            } else {
                "I'm feeling lonely!"
            }
        },
        Mood::Content => {
            if index == 0 {
                "I'm feeling good!"
            } else if index == 1 {
                "How you doing?"
            } else if index == 2 {
                "I'm fine, thanks for asking!"
            } else {
                "Remember to check on me often!"
            }
        },
        Mood::Neutral => {
            if index == 0 {
                "Remember to stage your files before commiting!"
            } else if index == 1 {
                "Remember to push your changes!"
            } else if index == 2 {
                "Remember to pull before pushing!"
            } else {
                "Remember to drink some water!"
            }
        },
    }
}

/// What the pet says, given the two things chance decides: which way a pet
/// that is neither hungry nor bored leans, and which phrase of its mood it
/// picks.
pub fn greeting(pet: &PetRecord, neutral: bool, index: usize) -> (r: &'static str)
    requires
        index < PHRASES_PER_MOOD,
    ensures
        r@ == phrase_text(pet@.mood(neutral), index as int),
{
    phrase(pet.mood_phrase(neutral), index)
}

/// Greets the pet: it answers with a phrase for its mood, picked at random.
/// A pet that is neither hungry nor bored is as likely to talk of itself as
/// to give advice.
pub fn greet_pet(pet: &PetRecord) -> (r: &'static str)
    ensures
        is_greeting_of(pet@, r@),
{
    let mut rng = rand::thread_rng();
    let neutral: bool = random_below(&mut rng, 2) == 1;
    let index: usize = random_below(&mut rng, PHRASES_PER_MOOD);
    let said = greeting(pet, neutral, index);
    proof {
        assert(phrase_text(pet@.mood(neutral), index as int) == said@);
    }
    said
}

} // verus!
