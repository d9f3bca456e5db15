//! Three-tier configuration: compiled-in defaults, the fields that every
//! instance shares, and the overlay of each instance.
//!
//! An overlay sets any of the fields and leaves the others open. Resolving it
//! against a default fills each open field from the default, so a resolved
//! configuration always has every field.

pub mod music;
pub mod power;
pub mod script;

use vstd::prelude::*;

verus! {

/// The characters of an optional text.
pub open spec fn text_view(text: Option<String>) -> Option<Seq<char>> {
    match text {
        Some(value) => Some(value@),
        None => None,
    }
}

} // verus!
