//! NPC dialogue data and the dialogue-box state the UI presents.

use vstd::prelude::*;

verus! {

/// An NPC's authored dialogue line.
#[derive(Clone, Debug, PartialEq, Eq)]
pub struct Dialogue {
    pub text: String,
}

impl Dialogue {
    /// Builds the component from the authored `dialogue` field. The
    /// loader is expected to have already failed on a level that lacks
    /// the field.
    pub fn from_field(text: &str) -> (r: Dialogue)
        ensures
            r.text@ == text@,
    {
        Dialogue { text: text.to_owned() }
    }
}

/// The singleton dialogue-box state: whether it is open and what line it
/// shows. Mutated by NPC trigger collisions and by the dialogue-close
/// input; the UI layer only reads it.
#[derive(Clone, Debug, PartialEq, Eq)]
pub struct DialogueUI {
    pub active: bool,
    pub text: String,
}

impl Default for DialogueUI {
    /// The dialogue box starts hidden and empty.
    fn default() -> (ui: Self)
        ensures
            !ui.active,
            ui.text@ == Seq::<char>::empty(),
    {
        DialogueUI { active: false, text: String::new() }
    }
}

/// What the rendering layer should present for the dialogue box this
/// tick: whether the box is visible, and the line to (re)write into it —
/// only an open box has its text refreshed.
pub fn update_dialogue_ui(ui: &DialogueUI) -> (r: (bool, Option<String>))
    ensures
        r.0 == ui.active,
        ui.active ==> (r.1 matches Some(t) && t@ == ui.text@),
        !ui.active ==> r.1 is None,
{
    if ui.active {
        (true, Some(ui.text.clone()))
    } else {
        (false, None)
    }
}

} // verus!
