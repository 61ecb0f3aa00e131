//! A small persistent state machine: a signed 8-bit counter and the text
//! messages filed under its past values.
//!
//! Writing a message files it under the current counter value and advances the
//! counter by one. Advancing past `i8::MAX` is refused with
//! `PosterError::Overflow` and leaves the state as it was, so no two writes
//! ever share a key through wraparound. Log lines are returned as
//! `Diagnostic` values for the host to emit.

use vstd::prelude::*;

mod laws;
mod poster;

pub use laws::{lemma_records_behind_counter, lemma_unwritten_keys_absent, lemma_writes_from_fresh, replay};
pub use poster::{advance_lines, write_lines, Diagnostic, Poster, PosterError, PosterView, COUNTER_MAX};
