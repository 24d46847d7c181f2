//! A terminal pet: one small record of named attributes, the rules by which
//! feeding and playing change it, and the key-value store that keeps it.
//!
//! The library decides and computes; it never reads or writes a file, never
//! prints and never ends the process. A program around it tells it what is
//! on disk and what time it is, and writes the store when told that a change
//! was made.
//!
//! - `stat`: a stat and how a change to it saturates.
//! - `record`: the six attributes of a pet and the rules of feeding, playing
//!   and describing.
//! - `store`: what is assumed of the key-value store.
//! - `pet`: a record together with its store: creating, loading, changing.
//! - `clock`: the present moment, spans of time and calendar dates as text.
//! - `text`: decimal numbers and lists written as text.
//! - `paths`: which path a pet is kept at.
//! - `greet`: what a pet says.
//! - `error`: the outcomes other than success.

pub mod clock;
pub mod error;
pub mod greet;
pub mod paths;
pub mod pet;
pub mod record;
pub mod stat;
pub mod store;
pub mod text;
