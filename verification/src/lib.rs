//! Splitting one duplex byte stream into a read handle and a write handle.
//!
//! Both handles share the stream through a two-owner lock. An operation that a
//! handle has begun keeps exclusive access to the stream until it completes,
//! however many scheduling turns that takes, so the two directions are strictly
//! serialized.
//!
//! * [`protocol`] holds the vocabulary and the transition rules, [`lock`] and
//!   [`cell`] the executable state that follows them.
//! * [`stream`] says what is asked of the stream, [`shared`] plays one turn
//!   of a handle on it, and [`split`] holds the two handles.
//! * [`schedule`] and [`content`] state what holds of every schedule of
//!   turns: mutual exclusion, single dispatch, no interleaving, and the
//!   preservation of what is read.
//! * [`runtime`] lists what is taken on trust from the task system and from
//!   `futures`.
//!
//! Which handle gets the stream when both want it is not decided here: a
//! handle that is polled again as soon as it completes can keep the other
//! one waiting for as long as it likes.

pub mod protocol;
pub mod lock;
pub mod cell;
pub mod outcome;
pub mod stream;
pub mod runtime;
pub mod shared;
pub mod split;
pub mod schedule;
pub mod content;
