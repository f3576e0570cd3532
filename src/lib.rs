use vstd::prelude::*;

pub mod animation;
pub mod components;
pub mod direction;
pub mod game;
pub mod mainmenu;
pub mod player;
pub mod projectiles;
pub mod timer;

verus! {

/// The screens of the game.
#[derive(Debug, Clone, Copy, PartialEq, Eq, Hash, Structural)]
pub enum GameState {
    AssetLoading,
    MainMenu,
    InGame,
}

impl Default for GameState {
    fn default() -> (r: GameState)
        ensures
            r == GameState::MainMenu,
    {
        GameState::MainMenu
    }
}

} // verus!
