//! The two phases of the game.
use vstd::prelude::*;

verus! {

/// Whether the player is still choosing a mutation or playing.
#[derive(Clone, Copy, Debug, Default, PartialEq, Eq, Hash)]
pub enum AppState {
    #[default]
    Menu,
    Game,
}

} // verus!
