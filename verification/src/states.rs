//! The two states of a game.

use vstd::prelude::*;

verus! {

/// Whether the ball is at rest in the centre or in play.
#[derive(Clone, Copy, Debug, PartialEq, Eq, Hash, Structural)]
pub enum GameState {
    /// The ball rests at its start position; the game waits for the launch key.
    Stop,
    /// The ball is in motion and the paddles answer to their keys.
    Play,
}

impl Default for GameState {
    /// A game starts stopped.
    fn default() -> (state: GameState)
        ensures
            state == GameState::Stop,
    {
        GameState::Stop
    }
}

} // verus!
