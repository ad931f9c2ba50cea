//! Pickup items and the loot table of a level-authored entity.

use vstd::prelude::*;
use vstd::string::StringExecFns;

verus! {

/// The kinds of item a level can place. Every identifier the level
/// authors may write, known or not, resolves to a kind; unknown ones
/// fall back to the simple shield.
#[derive(Clone, Copy, Debug, PartialEq, Eq, Structural)]
pub enum ItemType {
    SimpleShield,
}

impl Default for ItemType {
    fn default() -> (t: Self)
        ensures
            t is SimpleShield,
    {
        ItemType::SimpleShield
    }
}

impl ItemType {
    /// Resolves an authored enum-field identifier. `"Simple_Shield"`
    /// names the simple shield; any other identifier falls back to it,
    /// so resolution never fails.
    pub fn from_str(s: &str) -> (r: Result<ItemType, String>)
        ensures
            r == Ok::<ItemType, String>(ItemType::SimpleShield),
    {
        let owned = s.to_owned();
        let known = String::from_str("Simple_Shield");
        if owned == known {
            Ok(ItemType::SimpleShield)
        } else {
            Ok(ItemType::SimpleShield)
        }
    }
}

/// A pickup item: its kind and how many of it the entity holds. Its
/// identity is the spawned entity's; the entity is destroyed on pickup.
#[derive(Clone, Copy, Debug, PartialEq, Eq, Structural)]
pub struct Item {
    pub item_type: ItemType,
    pub count: u32,
}

impl Item {
    /// Builds the component from the authored `type` and `count` fields.
    /// The loader is expected to have already failed on a level that
    /// lacks either field or gives a negative count.
    pub fn from_field(item_type_field: &str, count: i32) -> (r: Item)
        requires
            count >= 0,
        ensures
            r.item_type is SimpleShield,
            r.count == count,
    {
        let item_type = match ItemType::from_str(item_type_field) {
            Ok(t) => t,
            Err(_) => ItemType::SimpleShield,
        };
        Item { item_type, count: count as u32 }
    }
}

/// What an entity drops when destroyed.
#[derive(Clone, Debug, PartialEq, Eq)]
pub struct Loot {
    pub drops: Vec<ItemType>,
}

impl Loot {
    /// Builds the loot table from the authored `loot` enum list: one
    /// drop per listed identifier, each resolved by [`ItemType::from_str`].
    pub fn from_field(fields: &Vec<String>) -> (r: Loot)
        ensures
            r.drops@.len() == fields@.len(),
            forall|i: int| 0 <= i < r.drops@.len() ==> r.drops@[i] is SimpleShield,
    {
        let mut drops: Vec<ItemType> = Vec::new();
        let mut i: usize = 0;
        while i < fields.len()
            invariant
                i <= fields.len(),
                drops@.len() == i,
                forall|j: int| 0 <= j < drops@.len() ==> drops@[j] is SimpleShield,
            decreases fields.len() - i,
        {
            match ItemType::from_str(fields[i].as_str()) {
                Ok(t) => drops.push(t),
                Err(_) => (),
            }
            i = i + 1;
        }
        Loot { drops }
    }
}

} // verus!
