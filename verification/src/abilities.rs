//! The player's ability flags, mutated only by pickup resolution and
//! persisting for the player's lifetime.

use vstd::prelude::*;

verus! {

/// The per-player ability flag set; currently only blocking can be
/// unlocked.
#[derive(Clone, Copy, Debug, PartialEq, Eq, Structural)]
pub struct Abilities {
    pub can_block: bool,
}

impl Default for Abilities {
    /// A fresh player has unlocked nothing.
    fn default() -> (a: Self)
        ensures
            !a.can_block,
    {
        Abilities { can_block: false }
    }
}

impl Abilities {
    /// Grants the blocking ability; never revoked afterwards.
    pub fn unlock_block(&mut self)
        ensures
            final(self).can_block,
    {
        self.can_block = true;
    }

    /// Whether the player may block.
    pub fn can_block(&self) -> (r: bool)
        ensures
            r == self.can_block,
    {
        self.can_block
    }
}

} // verus!
