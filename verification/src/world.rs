//! The plain-value picture of the entity store that the trigger systems
//! read.
//!
//! The physics layer reports pairwise collision-start/stop signals by
//! entity identity; the entity store answers "is this a sensor, and whose
//! child is it", "is this entity an NPC", "is this entity an item". The
//! trigger systems work on a snapshot of those answers: the player's
//! identity, the sensor→parent pairs, the NPC records and the item
//! records, looked up by first match.

use vstd::prelude::*;

use crate::items::Item;

verus! {

/// A pairwise collision signal from the physics layer, carrying the two
/// participants' identities.
#[derive(Clone, Copy, Debug, PartialEq, Eq, Structural)]
pub enum CollisionEvent {
    Started(u64, u64),
    Stopped(u64, u64),
}

/// An NPC as the triggers see it: its entity, its authored name and its
/// dialogue line.
#[derive(Clone, Debug, PartialEq, Eq)]
pub struct NpcRecord {
    pub entity: u64,
    pub name: String,
    pub dialogue: String,
}

/// An item as the triggers see it: its entity and the item it carries.
#[derive(Clone, Copy, Debug, PartialEq, Eq, Structural)]
pub struct ItemRecord {
    pub entity: u64,
    pub item: Item,
}

/// The parent of the first sensor pair registered for `e`, if `e` is a
/// sensor at all.
pub open spec fn spec_sensor_parent(sensors: Seq<(u64, u64)>, e: u64) -> Option<u64>
    decreases sensors.len(),
{
    if sensors.len() == 0 {
        None
    } else if sensors[0].0 == e {
        Some(sensors[0].1)
    } else {
        spec_sensor_parent(sensors.skip(1), e)
    }
}

/// The first NPC record registered for entity `e`.
pub open spec fn spec_find_npc(npcs: Seq<NpcRecord>, e: u64) -> Option<NpcRecord>
    decreases npcs.len(),
{
    if npcs.len() == 0 {
        None
    } else if npcs[0].entity == e {
        Some(npcs[0])
    } else {
        spec_find_npc(npcs.skip(1), e)
    }
}

/// The first item record registered for entity `e`.
pub open spec fn spec_find_item(items: Seq<ItemRecord>, e: u64) -> Option<ItemRecord>
    decreases items.len(),
{
    if items.len() == 0 {
        None
    } else if items[0].entity == e {
        Some(items[0])
    } else {
        spec_find_item(items.skip(1), e)
    }
}

/// Looks `e` up among the sensor pairs and hands back its parent.
pub fn sensor_parent(sensors: &Vec<(u64, u64)>, e: u64) -> (r: Option<u64>)
    ensures
        r == spec_sensor_parent(sensors@, e),
{
    let mut i: usize = 0;
    proof {
        assert(sensors@.skip(0) =~= sensors@);
    }
    while i < sensors.len()
        invariant
            i <= sensors.len(),
            spec_sensor_parent(sensors@, e) == spec_sensor_parent(sensors@.skip(i as int), e),
        decreases sensors.len() - i,
    {
        proof {
            assert(sensors@.skip(i as int)[0] == sensors@[i as int]);
            assert(sensors@.skip(i as int).skip(1) =~= sensors@.skip(i as int + 1));
        }
        if sensors[i].0 == e {
            return Some(sensors[i].1);
        }
        i = i + 1;
    }
    None
}

/// Looks an NPC up by entity and hands back its index among the records.
pub fn find_npc(npcs: &Vec<NpcRecord>, e: u64) -> (r: Option<usize>)
    ensures
        match r {
            Some(i) => i < npcs@.len() && spec_find_npc(npcs@, e) == Some(npcs@[i as int]),
            None => spec_find_npc(npcs@, e) is None,
        },
{
    let mut i: usize = 0;
    proof {
        assert(npcs@.skip(0) =~= npcs@);
    }
    while i < npcs.len()
        invariant
            i <= npcs.len(),
            spec_find_npc(npcs@, e) == spec_find_npc(npcs@.skip(i as int), e),
        decreases npcs.len() - i,
    {
        proof {
            assert(npcs@.skip(i as int)[0] == npcs@[i as int]);
            assert(npcs@.skip(i as int).skip(1) =~= npcs@.skip(i as int + 1));
        }
        if npcs[i].entity == e {
            return Some(i);
        }
        i = i + 1;
    }
    None
}

/// Looks an item up by entity and hands back its index among the records.
pub fn find_item(items: &Vec<ItemRecord>, e: u64) -> (r: Option<usize>)
    ensures
        match r {
            Some(i) => i < items@.len() && spec_find_item(items@, e) == Some(items@[i as int]),
            None => spec_find_item(items@, e) is None,
        },
{
    let mut i: usize = 0;
    proof {
        assert(items@.skip(0) =~= items@);
    }
    while i < items.len()
        invariant
            i <= items.len(),
            spec_find_item(items@, e) == spec_find_item(items@.skip(i as int), e),
        decreases items.len() - i,
    {
        proof {
            assert(items@.skip(i as int)[0] == items@[i as int]);
            assert(items@.skip(i as int).skip(1) =~= items@.skip(i as int + 1));
        }
        if items[i].entity == e {
            return Some(i);
        }
        i = i + 1;
    }
    None
}

} // verus!
