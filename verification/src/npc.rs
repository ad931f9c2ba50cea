//! The NPC dialogue trigger.
//!
//! NPCs carry a sensor child that only detects the player. When a
//! collision-start signal pairs the player with such a sensor, the
//! sensor's parent is resolved to its NPC record and the dialogue box
//! opens with the line `"{name}: {dialogue}"`; any collision-stop signal
//! closes the box again.

use vstd::prelude::*;
use vstd::string::StringExecFns;

use crate::dialogue::DialogueUI;
use crate::world::{spec_find_npc, spec_sensor_parent, CollisionEvent, NpcRecord};
use crate::world::{find_npc, sensor_parent};

verus! {

/// Whether either collision participant is the player.
pub fn is_player_involved(entity1: u64, entity2: u64, player: u64) -> (r: bool)
    ensures
        r == (entity1 == player || entity2 == player),
{
    entity1 == player || entity2 == player
}

/// The parent the two participants resolve to: the first participant's
/// sensor parent if it has one, else the second's.
pub open spec fn spec_collision_sensor_parent(
    sensors: Seq<(u64, u64)>,
    entity1: u64,
    entity2: u64,
) -> Option<u64> {
    match spec_sensor_parent(sensors, entity1) {
        Some(p) => Some(p),
        None => spec_sensor_parent(sensors, entity2),
    }
}

/// Resolves a collision pair through the sensor→parent lookup.
pub fn get_sensor_parent(entity1: u64, entity2: u64, sensors: &Vec<(u64, u64)>) -> (r: Option<
    u64,
>)
    ensures
        r == spec_collision_sensor_parent(sensors@, entity1, entity2),
{
    match sensor_parent(sensors, entity1) {
        Some(p) => Some(p),
        None => sensor_parent(sensors, entity2),
    }
}

/// Builds the dialogue box's line, `"{name}: {dialogue}"`.
pub fn dialogue_line(name: &str, dialogue: &str) -> (r: String)
    ensures
        r@ == name@ + ": "@ + dialogue@,
{
    let mut line = name.to_owned();
    line.append(": ");
    line.append(dialogue);
    proof {
        assert(line@ =~= name@ + ": "@ + dialogue@);
    }
    line
}

/// The dialogue-box state after one collision signal: a start that pairs
/// the player with an NPC's sensor opens the box on that NPC's line; any
/// stop closes it; everything else leaves it alone.
pub open spec fn spec_dialogue_step(
    active: bool,
    text: Seq<char>,
    ev: CollisionEvent,
    player: u64,
    sensors: Seq<(u64, u64)>,
    npcs: Seq<NpcRecord>,
) -> (bool, Seq<char>) {
    match ev {
        CollisionEvent::Started(e1, e2) => {
            if e1 == player || e2 == player {
                match spec_collision_sensor_parent(sensors, e1, e2) {
                    Some(p) => match spec_find_npc(npcs, p) {
                        Some(rec) => (true, rec.name@ + ": "@ + rec.dialogue@),
                        None => (active, text),
                    },
                    None => (active, text),
                }
            } else {
                (active, text)
            }
        },
        CollisionEvent::Stopped(_, _) => (false, text),
    }
}

/// The dialogue-box state after a tick's collision signals, drained in
/// arrival order.
pub open spec fn spec_dialogue_after(
    active: bool,
    text: Seq<char>,
    events: Seq<CollisionEvent>,
    player: u64,
    sensors: Seq<(u64, u64)>,
    npcs: Seq<NpcRecord>,
) -> (bool, Seq<char>)
    decreases events.len(),
{
    if events.len() == 0 {
        (active, text)
    } else {
        let stepped = spec_dialogue_step(active, text, events[0], player, sensors, npcs);
        spec_dialogue_after(stepped.0, stepped.1, events.skip(1), player, sensors, npcs)
    }
}

/// Drains one tick's collision signals into the dialogue box: opens it
/// with `"{name}: {dialogue}"` when the player meets an NPC's sensor,
/// closes it when any tracked contact stops.
pub fn handle_npc_dialogue_trigger(
    collision_events: &Vec<CollisionEvent>,
    player: u64,
    sensors: &Vec<(u64, u64)>,
    npcs: &Vec<NpcRecord>,
    dialogue_ui: &mut DialogueUI,
)
    ensures
        ({
            let after = spec_dialogue_after(
                old(dialogue_ui).active,
                old(dialogue_ui).text@,
                collision_events@,
                player,
                sensors@,
                npcs@,
            );
            final(dialogue_ui).active == after.0 && final(dialogue_ui).text@ == after.1
        }),
{
    let ghost goal = spec_dialogue_after(
        old(dialogue_ui).active,
        old(dialogue_ui).text@,
        collision_events@,
        player,
        sensors@,
        npcs@,
    );
    let mut i: usize = 0;
    proof {
        assert(collision_events@.skip(0) =~= collision_events@);
    }
    while i < collision_events.len()
        invariant
            i <= collision_events.len(),
            goal == spec_dialogue_after(
                dialogue_ui.active,
                dialogue_ui.text@,
                collision_events@.skip(i as int),
                player,
                sensors@,
                npcs@,
            ),
        decreases collision_events.len() - i,
    {
        proof {
            assert(collision_events@.skip(i as int)[0] == collision_events@[i as int]);
            assert(collision_events@.skip(i as int).skip(1) =~= collision_events@.skip(
                i as int + 1,
            ));
        }
        match collision_events[i] {
            CollisionEvent::Started(e1, e2) => {
                let parent = get_sensor_parent(e1, e2, sensors);
                let involved = is_player_involved(e1, e2, player);
                if involved {
                    if let Some(npc_entity) = parent {
                        if let Some(npc_index) = find_npc(npcs, npc_entity) {
                            dialogue_ui.active = true;
                            dialogue_ui.text = dialogue_line(
                                npcs[npc_index].name.as_str(),
                                npcs[npc_index].dialogue.as_str(),
                            );
                        }
                    }
                }
            },
            CollisionEvent::Stopped(_, _) => {
                dialogue_ui.active = false;
            },
        }
        i = i + 1;
    }
    proof {
        assert(goal == (dialogue_ui.active, dialogue_ui.text@));
    }
}

} // verus!
