//! A payload shape that the public placeholder service never sends, kept to
//! show what a body of the wrong shape does to a caller.

use vstd::prelude::*;

verus! {

/// A to-do entry with the one field `cannot_parse`, which no real entry has.
#[derive(Debug, Clone, Copy, PartialEq, Eq, Structural)]
pub struct Todo {
    pub cannot_parse: bool,
}

} // verus!
