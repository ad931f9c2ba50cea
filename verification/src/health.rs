//! Hit points of a level-authored entity.

use vstd::prelude::*;

verus! {

/// An entity's hit points, read from the level's authored `health`
/// field.
#[derive(Clone, Copy, Debug, PartialEq, Eq, Structural)]
pub struct Health(pub i32);

impl Health {
    /// Builds the component from the authored field value. The loader is
    /// expected to have already failed on a level that lacks the field.
    pub fn from_field(health: i32) -> (r: Health)
        ensures
            r.0 == health,
    {
        Health(health)
    }
}

} // verus!
