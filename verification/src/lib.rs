//! Gameplay-logic core of a 2D action platformer: a finite-state player
//! controller, frame-based sprite animation driven by that state, and
//! trigger-based interaction (NPC dialogue, item pickup).
//!
//! The engine around this core (rendering, physics simulation, input
//! devices, level loading) is expected to feed it plain values each tick
//! and apply the commands it returns.

pub mod abilities;
pub mod animation;
pub mod dialogue;
pub mod event_bus;
pub mod health;
pub mod interaction;
pub mod items;
pub mod npc;
pub mod player;
pub mod simulation;
pub mod state_machine;
pub mod world;
