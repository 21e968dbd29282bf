//! The algorithms that can play 7 Wonders.

use vstd::prelude::*;

use crate::action::Action;
use crate::game::VisibleGame;
use crate::player::Player;

pub mod human;
pub mod monte_carlo;
pub mod random;

verus! {

/// An algorithm that can play 7 Wonders.
pub trait PlayingAlgorithm {
    /// Returns the action that the given player is to take.
    ///
    /// `visible_game` is what the player can see of all the players in the game. The player has at
    /// least one card in hand.
    fn get_next_action(&mut self, player: &Player, visible_game: &VisibleGame) -> (action: Action)
        requires
            player.wf(),
            player.hand@.len() > 0,
            visible_game.sound(),
    ;
}

} // verus!
