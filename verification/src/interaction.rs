//! Interaction prompts and input-gated activation.
//!
//! When the player's sensor overlaps an NPC's or an item's sensor, a
//! transient on-screen prompt is spawned, bound to the resolved entity;
//! any collision-stop despawns the prompts shown before this tick. While
//! prompts are shown, pressing the interact key consumes them: a pickup
//! prompt resolves its bound item, grants the ability the item's kind
//! carries and destroys the item; a dialogue prompt closes the dialogue
//! box. Consuming removes every shown prompt.

use vstd::prelude::*;

use crate::abilities::Abilities;
use crate::dialogue::DialogueUI;
use crate::npc::{get_sensor_parent, spec_collision_sensor_parent};
use crate::world::{find_item, find_npc};
use crate::world::{spec_find_item, spec_find_npc};
use crate::world::{CollisionEvent, ItemRecord, NpcRecord};

verus! {

/// What an interaction prompt offers.
#[derive(Clone, Copy, Debug, PartialEq, Eq, Structural)]
pub enum PromptType {
    Dialogue,
    Pickup,
}

/// A transient prompt bound to the entity an interaction would address.
#[derive(Clone, Copy, Debug, PartialEq, Eq, Structural)]
pub struct InteractionPrompt {
    pub entity: u64,
    pub prompt_type: PromptType,
}

/// The prompt one collision signal spawns, if any: a start that involves
/// the player resolves a sensor participant — either of the pair — to
/// its parent; an NPC parent offers dialogue, an item parent offers
/// pickup.
pub open spec fn spec_prompt_for(
    ev: CollisionEvent,
    player: u64,
    sensors: Seq<(u64, u64)>,
    npcs: Seq<NpcRecord>,
    items: Seq<ItemRecord>,
) -> Option<InteractionPrompt> {
    match ev {
        CollisionEvent::Started(e1, e2) => {
            if e1 == player || e2 == player {
                match spec_collision_sensor_parent(sensors, e1, e2) {
                    Some(p) => if spec_find_npc(npcs, p) is Some {
                        Some(InteractionPrompt { entity: p, prompt_type: PromptType::Dialogue })
                    } else if spec_find_item(items, p) is Some {
                        Some(InteractionPrompt { entity: p, prompt_type: PromptType::Pickup })
                    } else {
                        None
                    },
                    None => None,
                }
            } else {
                None
            }
        },
        CollisionEvent::Stopped(_, _) => None,
    }
}

/// The prompts a tick's collision signals spawn, in arrival order.
pub open spec fn spec_spawned_prompts(
    events: Seq<CollisionEvent>,
    player: u64,
    sensors: Seq<(u64, u64)>,
    npcs: Seq<NpcRecord>,
    items: Seq<ItemRecord>,
) -> Seq<InteractionPrompt>
    decreases events.len(),
{
    if events.len() == 0 {
        Seq::empty()
    } else {
        spec_spawned_prompts(events.drop_last(), player, sensors, npcs, items) + (
        match spec_prompt_for(events.last(), player, sensors, npcs, items) {
            Some(p) => seq![p],
            None => seq![],
        })
    }
}

/// Whether any of the tick's signals is a collision-stop.
pub open spec fn spec_any_stopped(events: Seq<CollisionEvent>) -> bool
    decreases events.len(),
{
    if events.len() == 0 {
        false
    } else {
        spec_any_stopped(events.drop_last()) || events.last() is Stopped
    }
}

/// Drains one tick's collision signals into the prompt list. Any stop
/// signal despawns the prompts shown before this tick; every qualifying
/// start appends its prompt, in arrival order (the design tracks them
/// all and lets the newest sit last; no stacking policy beyond that).
pub fn handle_interaction_prompts(
    collision_events: &Vec<CollisionEvent>,
    player: u64,
    sensors: &Vec<(u64, u64)>,
    npcs: &Vec<NpcRecord>,
    items: &Vec<ItemRecord>,
    prompts: &mut Vec<InteractionPrompt>,
)
    ensures
        final(prompts)@ == (if spec_any_stopped(collision_events@) {
            Seq::<InteractionPrompt>::empty()
        } else {
            old(prompts)@
        }) + spec_spawned_prompts(collision_events@, player, sensors@, npcs@, items@),
{
    let mut spawned: Vec<InteractionPrompt> = Vec::new();
    let mut saw_stop = false;
    let mut i: usize = 0;
    while i < collision_events.len()
        invariant
            i <= collision_events.len(),
            spawned@ == spec_spawned_prompts(
                collision_events@.take(i as int),
                player,
                sensors@,
                npcs@,
                items@,
            ),
            saw_stop == spec_any_stopped(collision_events@.take(i as int)),
        decreases collision_events.len() - i,
    {
        proof {
            assert(collision_events@.take(i as int + 1).drop_last() =~= collision_events@.take(
                i as int,
            ));
            assert(collision_events@.take(i as int + 1).last() == collision_events@[i as int]);
        }
        match collision_events[i] {
            CollisionEvent::Started(e1, e2) => {
                if e1 == player || e2 == player {
                    if let Some(parent) = get_sensor_parent(e1, e2, sensors) {
                        if find_npc(npcs, parent).is_some() {
                            spawned.push(
                                InteractionPrompt {
                                    entity: parent,
                                    prompt_type: PromptType::Dialogue,
                                },
                            );
                        } else if find_item(items, parent).is_some() {
                            spawned.push(
                                InteractionPrompt {
                                    entity: parent,
                                    prompt_type: PromptType::Pickup,
                                },
                            );
                        }
                    }
                }
            },
            CollisionEvent::Stopped(_, _) => {
                saw_stop = true;
            },
        }
        i = i + 1;
    }
    proof {
        assert(collision_events@.take(collision_events@.len() as int) =~= collision_events@);
    }
    if saw_stop {
        prompts.clear();
    }
    prompts.append(&mut spawned);
}

/// Whether some shown prompt offers a pickup of entity `e`.
pub open spec fn spec_has_pickup_prompt(prompts: Seq<InteractionPrompt>, e: u64) -> bool {
    exists|i: int|
        0 <= i < prompts.len() && (#[trigger] prompts[i]).prompt_type is Pickup && prompts[i].entity
            == e
}

/// Whether some shown prompt offers dialogue.
pub open spec fn spec_has_dialogue_prompt(prompts: Seq<InteractionPrompt>) -> bool {
    exists|i: int| 0 <= i < prompts.len() && (#[trigger] prompts[i]).prompt_type is Dialogue
}

/// The item records that survive consuming the shown prompts: exactly
/// those no pickup prompt is bound to.
pub open spec fn spec_kept_items(
    items: Seq<ItemRecord>,
    prompts: Seq<InteractionPrompt>,
) -> Seq<ItemRecord>
    decreases items.len(),
{
    if items.len() == 0 {
        Seq::empty()
    } else {
        spec_kept_items(items.drop_last(), prompts) + (if spec_has_pickup_prompt(
            prompts,
            items.last().entity,
        ) {
            seq![]
        } else {
            seq![items.last()]
        })
    }
}

/// Whether consuming the shown prompts picks up an item whose kind
/// grants the blocking ability (currently every item, being a simple
/// shield, does).
pub open spec fn spec_grants_block(
    items: Seq<ItemRecord>,
    prompts: Seq<InteractionPrompt>,
) -> bool
    decreases items.len(),
{
    if items.len() == 0 {
        false
    } else {
        spec_grants_block(items.drop_last(), prompts) || (spec_has_pickup_prompt(
            prompts,
            items.last().entity,
        ) && items.last().item.item_type is SimpleShield)
    }
}

/// Whether some shown prompt offers a pickup of entity `e`.
fn has_pickup_prompt(prompts: &Vec<InteractionPrompt>, e: u64) -> (r: bool)
    ensures
        r == spec_has_pickup_prompt(prompts@, e),
{
    let mut i: usize = 0;
    while i < prompts.len()
        invariant
            i <= prompts.len(),
            forall|k: int|
                0 <= k < i ==> !((#[trigger] prompts@[k]).prompt_type is Pickup && prompts@[k].entity
                    == e),
        decreases prompts.len() - i,
    {
        if matches!(prompts[i].prompt_type, PromptType::Pickup) && prompts[i].entity == e {
            return true;
        }
        i = i + 1;
    }
    false
}

/// Whether some shown prompt offers dialogue.
fn has_dialogue_prompt(prompts: &Vec<InteractionPrompt>) -> (r: bool)
    ensures
        r == spec_has_dialogue_prompt(prompts@),
{
    let mut i: usize = 0;
    while i < prompts.len()
        invariant
            i <= prompts.len(),
            forall|k: int| 0 <= k < i ==> !((#[trigger] prompts@[k]).prompt_type is Dialogue),
        decreases prompts.len() - i,
    {
        if matches!(prompts[i].prompt_type, PromptType::Dialogue) {
            return true;
        }
        i = i + 1;
    }
    false
}

/// Consumes the shown prompts on an interact press. Dialogue prompts
/// close the dialogue box; each pickup prompt destroys its bound item
/// and, for an ability-granting kind, sets the player's flag. Every
/// shown prompt is removed. Without a press nothing changes.
pub fn handle_interaction_input(
    interact_pressed: bool,
    prompts: &mut Vec<InteractionPrompt>,
    items: &mut Vec<ItemRecord>,
    abilities: &mut Abilities,
    dialogue_ui: &mut DialogueUI,
)
    ensures
        !interact_pressed ==> {
            &&& final(prompts)@ == old(prompts)@
            &&& final(items)@ == old(items)@
            &&& *final(abilities) == *old(abilities)
            &&& *final(dialogue_ui) == *old(dialogue_ui)
        },
        interact_pressed ==> {
            &&& final(prompts)@ == Seq::<InteractionPrompt>::empty()
            &&& final(items)@ == spec_kept_items(old(items)@, old(prompts)@)
            &&& final(abilities).can_block == (old(abilities).can_block || spec_grants_block(
                old(items)@,
                old(prompts)@,
            ))
            &&& final(dialogue_ui).active == (if spec_has_dialogue_prompt(old(prompts)@) {
                false
            } else {
                old(dialogue_ui).active
            })
            &&& final(dialogue_ui).text@ == old(dialogue_ui).text@
        },
{
    if !interact_pressed {
        return ;
    }

    if has_dialogue_prompt(prompts) {
        dialogue_ui.active = false;
    }

    let mut kept: Vec<ItemRecord> = Vec::new();
    let mut grants_block = false;
    let mut j: usize = 0;
    while j < items.len()
        invariant
            j <= items.len(),
            kept@ == spec_kept_items(items@.take(j as int), prompts@),
            grants_block == spec_grants_block(items@.take(j as int), prompts@),
        decreases items.len() - j,
    {
        proof {
            assert(items@.take(j as int + 1).drop_last() =~= items@.take(j as int));
            assert(items@.take(j as int + 1).last() == items@[j as int]);
        }
        let record = items[j];
        if has_pickup_prompt(prompts, record.entity) {
            if matches!(record.item.item_type, crate::items::ItemType::SimpleShield) {
                grants_block = true;
            }
        } else {
            kept.push(record);
        }
        j = j + 1;
    }
    proof {
        assert(items@.take(items@.len() as int) =~= items@);
    }
    if grants_block {
        abilities.unlock_block();
    }
    *items = kept;
    prompts.clear();
}

} // verus!
