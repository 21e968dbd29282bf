//! A simulation of the card-drafting board game 7 Wonders: what a card costs, every way a player
//! can pay for it, the rounds of a game, and the final scores.

pub mod action;
pub mod algorithms;
pub mod card;
pub mod chance;
pub mod deck;
pub mod game;
pub mod option_laws;
pub mod player;
pub mod power;
pub mod regrouping;
pub mod resolver;
pub mod resources;
pub mod scoring;
pub mod table;
pub mod tally_laws;
pub mod turn;
pub mod utils;
pub mod wonder;
