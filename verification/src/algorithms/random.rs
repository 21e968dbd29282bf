//! A computer algorithm for playing 7 Wonders. It builds a card picked at random from those that
//! it can build, and discards a card picked at random if it can build none.

use vstd::prelude::*;

use crate::action::Action;
use crate::action::ActionView;
use crate::algorithms::PlayingAlgorithm;
use crate::card::Card;
use crate::chance::choose_index;
use crate::game::VisibleGame;
use crate::player::Player;

verus! {

/// The algorithm that plays at random: see [`get_next_action`].
#[derive(Debug)]
pub struct Random;

impl PlayingAlgorithm for Random {
    /// Returns a random action for the player: see [`get_next_action`].
    fn get_next_action(&mut self, player: &Player, visible_game: &VisibleGame) -> (action: Action)
        ensures
            is_random_action(
                *player,
                action@,
                visible_game.spec_left_neighbour().built_structures@,
                visible_game.spec_right_neighbour().built_structures@,
            ),
    {
        get_next_action(player, visible_game)
    }
}

/// True if the player can build none of the first `upto` cards of the hand.
pub open spec fn nothing_to_build(player: Player, left: Seq<Card>, right: Seq<Card>, upto: int) -> bool {
    forall|place: int| 0 <= place < upto ==> (#[trigger] player.options(player.hand@[place], left, right)).len() == 0
}

/// Returns, for each card in the player's hand that the player can build, one action that builds
/// it, which is picked at random where there are several. Every action that is returned is legal,
/// and none is returned only if the player can build no card of the hand.
pub fn buildable(player: &Player, visible_game: &VisibleGame) -> (actions: Vec<Action>)
    requires
        player.wf(),
        visible_game.wf(),
    ensures
        forall|i: int|
            0 <= i < actions@.len() ==> (#[trigger] actions@[i])@ is Build && player.can_play_spec(
                actions@[i]@,
                visible_game.spec_left_neighbour().built_structures@,
                visible_game.spec_right_neighbour().built_structures@,
            ),
        actions@.len() == 0 <==> nothing_to_build(
            *player,
            visible_game.spec_left_neighbour().built_structures@,
            visible_game.spec_right_neighbour().built_structures@,
            player.hand@.len() as int,
        ),
{
    let ghost left = visible_game.spec_left_neighbour().built_structures@;
    let ghost right = visible_game.spec_right_neighbour().built_structures@;
    let mut actions: Vec<Action> = Vec::new();
    let mut i: usize = 0;
    while i < player.hand.len()
        invariant
            i <= player.hand@.len(),
            player.wf(),
            visible_game.wf(),
            left == visible_game.spec_left_neighbour().built_structures@,
            right == visible_game.spec_right_neighbour().built_structures@,
            forall|k: int|
                0 <= k < actions@.len() ==> (#[trigger] actions@[k])@ is Build && player.can_play_spec(
                    actions@[k]@,
                    left,
                    right,
                ),
            actions@.len() == 0 <==> nothing_to_build(*player, left, right, i as int),
        decreases player.hand@.len() - i,
    {
        let card = player.hand[i];
        let mut options = player.options_for_card(&card, visible_game, true);
        let ghost option = options@;
        proof {
            assert(player.hand@.contains(card));
            player.lemma_single_option_found(option, card, left, right);
        }
        if options.possible() {
            let action = options.actions.swap_remove(0);
            proof {
                assert(action@ == option[0]);
                player.lemma_single_option_is_offered(option, card, left, right);
                player.lemma_single_option_is_legal(option, card, left, right);
            }
            let ghost before = actions@;
            actions.push(action);
            assert forall|k: int| 0 <= k < actions@.len() implies (#[trigger] actions@[k])@ is Build
                && player.can_play_spec(actions@[k]@, left, right) by {
                if k < before.len() {
                    assert(actions@[k] == before[k]);
                }
            }
            assert(!nothing_to_build(*player, left, right, i + 1)) by {
                assert(player.options(player.hand@[i as int], left, right).len() > 0);
            }
        } else {
            assert(player.options(player.hand@[i as int], left, right).len() == 0);
        }
        i = i + 1;
    }
    actions
}

/// Returns the action at the chosen place of `actions`, or, where no place is chosen, the action
/// that discards the card at the place `fallback` of the hand.
pub fn pick(actions: Vec<Action>, hand: &Vec<Card>, choice: Option<usize>, fallback: usize) -> (action: Action)
    requires
        choice matches Some(place) ==> place < actions@.len(),
        choice is None ==> fallback < hand@.len(),
    ensures
        action@ == match choice {
            Some(place) => actions@[place as int]@,
            None => ActionView::Discard(hand@[fallback as int]),
        },
{
    let mut actions = actions;
    match choice {
        Some(place) => actions.swap_remove(place),
        None => Action::Discard(hand[fallback]),
    }
}

/// What holds of every action that [`get_next_action`] can return: it is legal, it builds a card
/// unless the player can build no card of the hand, and then it discards one.
pub open spec fn is_random_action(player: Player, action: ActionView, left: Seq<Card>, right: Seq<Card>) -> bool {
    &&& player.can_play_spec(action, left, right)
    &&& if nothing_to_build(player, left, right, player.hand@.len() as int) {
        action is Discard
    } else {
        action is Build
    }
}

/// Returns an action for the player: to build a card, picked at random from those in the hand that
/// can be built, or, if none can be built, to discard a card picked at random from the hand. The
/// hand must not be empty.
pub fn get_next_action(player: &Player, visible_game: &VisibleGame) -> (action: Action)
    requires
        player.wf(),
        player.hand@.len() > 0,
        visible_game.wf(),
    ensures
        is_random_action(
            *player,
            action@,
            visible_game.spec_left_neighbour().built_structures@,
            visible_game.spec_right_neighbour().built_structures@,
        ),
{
    let actions = buildable(player, visible_game);
    let ghost offered = actions@;
    let choice = choose_index(actions.len());
    let fallback: usize = match choice {
        Some(_) => 0,
        None => choose_index(player.hand.len()).unwrap(),
    };
    let action = pick(actions, &player.hand, choice, fallback);
    proof {
        match choice {
            Some(place) => {
                assert(offered[place as int]@ == action@);
            },
            None => {
                assert(player.hand@.contains(player.hand@[fallback as int]));
            },
        }
    }
    action
}

} // verus!
