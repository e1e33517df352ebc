//! Mirrors of an enum's variants, made from strings.
//!
//! Each variant of an enum is described by its name and its fields
//! (`syntax`, `describe`). From a description the library does two things.
//! It makes values: a tuple of typed slots parsed from a list of strings or
//! from a comma-separated line (`tuple`), the record that holds such a
//! tuple beside the variant's description (`record`), the case that stands
//! for the variant among all of the enum's (`union`), and lists of values
//! written on one line (`list`). And it writes source text: the family of
//! tuple types up to a given arity (`args`, `attribute`) and the record
//! types, mirroring enum and conversions for one enum (`derive`).
//!
//! `laws` holds what is proved of all this for every input.

use vstd::prelude::*;

pub mod args;
pub mod attribute;
pub mod derive;
pub mod describe;
pub mod errors;
pub mod laws;
pub mod list;
pub mod numbers;
pub mod record;
pub mod syntax;
pub mod text;
pub mod tuple;
pub mod union;

verus! {

/// The largest number of slots a tuple of the family may have.
pub const MAX_ARITY: usize = 26;

} // verus!
