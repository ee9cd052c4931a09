//! Mutations: behaviours the player picks in the menu before play starts.
use crate::state::AppState;
use vstd::prelude::*;

verus! {

/// The mutations an entity carries.
#[derive(Clone, Copy, Debug, Default, PartialEq, Eq)]
pub struct Mutations {
    /// The entity's velocity follows held directions instead of jitter.
    pub controlled_movement: bool,
}

/// A mutation offered in the menu.
#[derive(Clone, Copy, Debug, PartialEq, Eq)]
pub enum Mutation {
    ControlledMovement,
}

/// What just happened to a menu button.
#[derive(Clone, Copy, Debug, PartialEq, Eq)]
pub enum ButtonInteraction {
    Pressed,
    Hovered,
    Idle,
}

/// Reacts to an interaction with the button offering `mutation`: a press
/// gives the mutation to `mutations` and asks to move on to
/// `AppState::Game`; anything else changes nothing and asks for no move.
pub fn handle_mouse_input(
    interaction: ButtonInteraction,
    mutation: Mutation,
    mutations: &mut Mutations,
) -> (next: Option<AppState>)
    ensures
        interaction == ButtonInteraction::Pressed ==> {
            &&& next == Some(AppState::Game)
            &&& mutation == Mutation::ControlledMovement ==> final(mutations).controlled_movement
        },
        interaction != ButtonInteraction::Pressed ==> {
            &&& next == None::<AppState>
            &&& *final(mutations) == *old(mutations)
        },
{
    match interaction {
        ButtonInteraction::Pressed => match mutation {
            Mutation::ControlledMovement => {
                mutations.controlled_movement = true;
                Some(AppState::Game)
            },
        },
        _ => None,
    }
}

} // verus!
