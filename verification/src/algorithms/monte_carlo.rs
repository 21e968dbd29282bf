//! A computer algorithm for playing 7 Wonders. For each action that it could take it plays the
//! rest of the game through a number of times, with random moves, and takes the action with
//! which it won most often.

use vstd::prelude::*;

use crate::action::Action;
use crate::action::ActionView;
use crate::action::action_views;
use crate::algorithms::PlayingAlgorithm;
use crate::algorithms::random;
use crate::algorithms::random::Random;
use crate::card::Card;
use crate::deck::HAND_SIZE;
use crate::deck::deck_can_be_made;
use crate::deck::deck_exists;
use crate::deck::deck_size;
use crate::deck::lemma_deck_len;
use crate::deck::new_deck_without;
use crate::game::Game;
use crate::game::TURNS_PER_AGE;
use crate::game::VisibleGame;
use crate::game::age_of_turn;
use crate::game::player_sound;
use crate::player::Player;
use crate::player::PublicPlayer;
use crate::player::copy_cards;

verus! {

/// The number of games that are played through for each action.
pub const PLAYOUTS: usize = 10;

/// The algorithm that plays games through in advance to find its action.
#[derive(Debug)]
pub struct MonteCarlo;

/// The algorithm that plays for the player in the games that [`MonteCarlo`] plays through: it takes
/// the given action first, if it is legal, and random actions after that.
#[derive(Debug)]
pub struct MonteCarloAlg {
    pub action: Option<Action>,
}

impl MonteCarloAlg {
    /// The algorithm that takes `action` first.
    pub fn new(action: Action) -> (algorithm: MonteCarloAlg)
        ensures
            algorithm.action == Some(action),
    {
        MonteCarloAlg { action: Some(action) }
    }
}

impl MonteCarloAlg {
    /// True if the algorithm still has an action to take first, and the action is legal for the
    /// player.
    pub open spec fn plan_holds(&self, player: Player, left: Seq<Card>, right: Seq<Card>) -> bool {
        self.action matches Some(planned) && player.can_play_spec(planned@, left, right)
    }
}

impl PlayingAlgorithm for MonteCarloAlg {
    /// Returns the action that the algorithm was made with, if it has not been asked before and
    /// the action is legal, and a random action otherwise: see [`random::get_next_action`]. After
    /// that, the algorithm has no action to take first any more.
    fn get_next_action(&mut self, player: &Player, visible_game: &VisibleGame) -> (action: Action)
        ensures
            final(self).action is None,
            old(self).plan_holds(
                *player,
                visible_game.spec_left_neighbour().built_structures@,
                visible_game.spec_right_neighbour().built_structures@,
            ) ==> Some(action) == old(self).action,
            !old(self).plan_holds(
                *player,
                visible_game.spec_left_neighbour().built_structures@,
                visible_game.spec_right_neighbour().built_structures@,
            ) ==> random::is_random_action(
                *player,
                action@,
                visible_game.spec_left_neighbour().built_structures@,
                visible_game.spec_right_neighbour().built_structures@,
            ),
            player.can_play_spec(
                action@,
                visible_game.spec_left_neighbour().built_structures@,
                visible_game.spec_right_neighbour().built_structures@,
            ),
    {
        let mut planned: Option<Action> = None;
        std::mem::swap(&mut self.action, &mut planned);
        if let Some(action) = planned {
            if player.can_play(&action, visible_game) {
                return action;
            }
        }
        random::get_next_action(player, visible_game)
    }
}

/// The actions that [`MonteCarlo`] chooses from, for the first `upto` cards of the hand: for each
/// card the first way to build it, if there is one, and then to discard it.
pub open spec fn candidates(player: Player, left: Seq<Card>, right: Seq<Card>, upto: int) -> Seq<ActionView>
    decreases upto,
{
    if upto <= 0 {
        Seq::empty()
    } else {
        let card = player.hand@[upto - 1];
        let options = player.options(card, left, right);
        candidates(player, left, right, upto - 1) + (if options.len() > 0 {
            seq![options.first()]
        } else {
            Seq::empty()
        }) + seq![ActionView::Discard(card)]
    }
}

/// A list with one more item is one longer.
proof fn lemma_one_more<T>(items: Seq<T>, item: T)
    ensures
        items.push(item).len() == items.len() + 1,
{
}

/// The structures that the first `upto` players have built, player by player.
pub open spec fn all_built(public_players: Seq<PublicPlayer>, upto: int) -> Seq<Card>
    decreases upto,
{
    if upto <= 0 {
        Seq::empty()
    } else {
        all_built(public_players, upto - 1) + public_players[upto - 1].built_structures@
    }
}

/// Returns the place of the highest of the numbers, and of the last of them where several are the
/// highest.
pub fn place_of_highest(numbers: &Vec<i32>) -> (place: usize)
    requires
        numbers@.len() > 0,
    ensures
        place < numbers@.len(),
        forall|i: int| 0 <= i < numbers@.len() ==> numbers@[i] <= numbers@[place as int],
        forall|i: int| place < i < numbers@.len() ==> numbers@[i] < numbers@[place as int],
{
    let mut place: usize = 0;
    let mut i: usize = 1;
    while i < numbers.len()
        invariant
            0 < i <= numbers@.len(),
            place < i,
            forall|k: int| 0 <= k < i ==> numbers@[k] <= numbers@[place as int],
            forall|k: int| place < k < i ==> numbers@[k] < numbers@[place as int],
        decreases numbers@.len() - i,
    {
        if numbers[i] >= numbers[place] {
            place = i;
        }
        i = i + 1;
    }
    place
}

impl MonteCarlo {
    /// Returns the actions to choose from: for each card in the player's hand the first way to
    /// build it, if there is one, and then to discard it. See [`candidates`].
    pub fn action_options(player: &Player, visible_game: &VisibleGame) -> (actions: Vec<Action>)
        requires
            player.wf(),
            visible_game.wf(),
        ensures
            action_views(actions@) == candidates(
                *player,
                visible_game.spec_left_neighbour().built_structures@,
                visible_game.spec_right_neighbour().built_structures@,
                player.hand@.len() as int,
            ),
            actions@.len() >= player.hand@.len(),
    {
        let ghost left = visible_game.spec_left_neighbour().built_structures@;
        let ghost right = visible_game.spec_right_neighbour().built_structures@;
        let mut actions: Vec<Action> = Vec::new();
        let mut i: usize = 0;
        assert(action_views(actions@) =~= Seq::empty());
        while i < player.hand.len()
            invariant
                i <= player.hand@.len(),
                player.wf(),
                visible_game.wf(),
                left == visible_game.spec_left_neighbour().built_structures@,
                right == visible_game.spec_right_neighbour().built_structures@,
                action_views(actions@) == candidates(*player, left, right, i as int),
                actions@.len() >= i,
            decreases player.hand@.len() - i,
        {
            let ghost before = action_views(actions@);
            let card = player.hand[i];
            let mut options = player.options_for_card(&card, visible_game, false);
            let ghost offered = options@;
            if options.possible() {
                // Just one way to build the card is looked at, however many there are.
                let action = options.actions.swap_remove(0);
                assert(action@ == offered[0]);
                actions.push(action);
            }
            actions.push(Action::Discard(card));
            assert(action_views(actions@) =~= before + (if offered.len() > 0 {
                seq![offered.first()]
            } else {
                Seq::empty()
            }) + seq![ActionView::Discard(card)]);
            i = i + 1;
        }
        actions
    }

    /// Returns the cards of which the player knows where they are: those in the player's hand and
    /// then those that the players have built, player by player.
    pub fn known_cards(player: &Player, visible_game: &VisibleGame) -> (cards: Vec<Card>)
        ensures
            cards@ == player.hand@ + all_built(
                visible_game.public_players@,
                visible_game.public_players@.len() as int,
            ),
    {
        let mut cards = copy_cards(&player.hand);
        let mut seat: usize = 0;
        assert(cards@ =~= player.hand@ + all_built(visible_game.public_players@, 0));
        while seat < visible_game.public_players.len()
            invariant
                seat <= visible_game.public_players@.len(),
                cards@ == player.hand@ + all_built(visible_game.public_players@, seat as int),
            decreases visible_game.public_players@.len() - seat,
        {
            let built = &visible_game.public_players[seat].built_structures;
            let ghost before = cards@;
            let mut i: usize = 0;
            while i < built.len()
                invariant
                    i <= built@.len(),
                    cards@ == before + built@.take(i as int),
                decreases built@.len() - i,
            {
                cards.push(built[i]);
                assert(built@.take(i + 1) =~= built@.take(i as int).push(built@[i as int]));
                i = i + 1;
            }
            assert(built@.take(built@.len() as int) =~= built@);
            assert(cards@ =~= player.hand@ + all_built(visible_game.public_players@, seat + 1));
            seat = seat + 1;
        }
        cards
    }

    /// True if the rest of the game can be played through for the player: within an age the
    /// player holds at least as many cards as a game at that turn leaves in a hand, a deck can be
    /// made of the cards that are not known, and it holds a hand as large as the player's for each
    /// of the other players.
    pub open spec fn can_play_out(player: &Player, visible_game: &VisibleGame, known_cards: Seq<Card>) -> bool {
        let count = visible_game.public_players@.len();
        let round = visible_game.turn % TURNS_PER_AGE;
        let age = age_of_turn(visible_game.turn);
        &&& round != 0 ==> player.hand@.len() >= HAND_SIZE - round
        &&& deck_exists(age, count as u32, known_cards)
        &&& deck_size(age, count as u32, known_cards) >= (count - 1) * player.hand@.len()
    }

    /// Plays the rest of the game through once, with the player taking `action` first and
    /// random actions after that, and with the other players holding random hands and taking
    /// random actions. Returns whether the player won, or nothing if no such game can be set up:
    /// see [`MonteCarlo::can_play_out`].
    pub fn play_out(player: &Player, visible_game: &VisibleGame, action: &Action, known_cards: &Vec<Card>) -> (won:
        Option<bool>)
        requires
            player.wf(),
            visible_game.sound(),
        ensures
            won is Some <==> MonteCarlo::can_play_out(player, visible_game, known_cards@),
    {
        let count: usize = visible_game.public_players.len();
        let round: u32 = visible_game.turn % TURNS_PER_AGE;
        if round != 0 && player.hand.len() < HAND_SIZE - round as usize {
            return None;
        }
        let age = visible_game.age();
        if !deck_can_be_made(&age, count as u32, known_cards) {
            return None;
        }
        let mut deck = new_deck_without(&age, count as u32, known_cards);
        let ghost total = deck_size(age, count as u32, known_cards@);
        let ghost size = player.hand@.len() as int;
        let ghost mut dealt: int = 0;
        proof {
            lemma_deck_len(deck@, age, count as u32, known_cards@);
            assert(dealt * size == 0) by (nonlinear_arith)
                requires
                    dealt == 0,
            ;
        }
        let mut players: Vec<Player> = Vec::new();
        let mut algorithms: Vec<Box<dyn PlayingAlgorithm>> = Vec::new();
        let mut i: usize = 0;
        while i < count
            invariant
                i <= count,
                count == visible_game.public_players@.len(),
                visible_game.sound(),
                round == visible_game.turn % TURNS_PER_AGE,
                round != 0 ==> player.hand@.len() >= HAND_SIZE - round,
                age == age_of_turn(visible_game.turn),
                deck_exists(age, count as u32, known_cards@),
                total == deck_size(age, count as u32, known_cards@),
                size == player.hand@.len(),
                dealt == if visible_game.player_index < i {
                    i - 1
                } else {
                    i as int
                },
                deck@.len() + dealt * size == total,
                players@.len() == i,
                algorithms@.len() == i,
                forall|seat: int|
                    0 <= seat < i ==> player_sound(#[trigger] players@[seat], visible_game.turn as int),
            decreases count - i,
        {
            let public_player = &visible_game.public_players[i];
            assert(public_player.sound(visible_game.turn));
            let ghost seated = algorithms@;
            if i == visible_game.player_index {
                // Us. Use our hand and an algorithm that takes the chosen action and random
                // actions after that.
                players.push(Player::new_from_public(public_player, copy_cards(&player.hand)));
                let algorithm: Box<dyn PlayingAlgorithm> = Box::new(MonteCarloAlg::new(action.duplicate()));
                let ghost added = algorithm;
                algorithms.push(algorithm);
                proof {
                    lemma_one_more(seated, added);
                }
            } else {
                // Everyone else. Deal a random hand, since the real one is not known, and play
                // at random throughout.
                if deck.len() < player.hand.len() {
                    proof {
                        assert((dealt + 1) * size <= (count - 1) * size) by (nonlinear_arith)
                            requires
                                dealt + 1 <= count - 1,
                                size >= 0,
                        ;
                        assert((dealt + 1) * size == dealt * size + size) by (nonlinear_arith);
                    }
                    return None;
                }
                let rest = deck.split_off(player.hand.len());
                let hand = deck;
                deck = rest;
                players.push(Player::new_from_public(public_player, hand));
                let algorithm: Box<dyn PlayingAlgorithm> = Box::new(Random {});
                let ghost added = algorithm;
                algorithms.push(algorithm);
                proof {
                    lemma_one_more(seated, added);
                    assert((dealt + 1) * size == dealt * size + size) by (nonlinear_arith);
                    dealt = dealt + 1;
                }
            }
            i = i + 1;
        }
        // Play the game to the end and see whether we win.
        let mut game = Game::new_with_players(players, algorithms, visible_game.turn);
        let scores = game.play();
        Some(place_of_highest(&scores) == visible_game.player_index)
    }

    /// Returns the action at the place of the highest strength, and of the last one where several
    /// are the highest.
    pub fn best_action(action_options: Vec<Action>, strength: &Vec<i32>) -> (action: Action)
        requires
            strength@.len() == action_options@.len(),
            strength@.len() > 0,
        ensures
            exists|place: int|
                {
                    &&& 0 <= place < strength@.len()
                    &&& action == #[trigger] action_options@[place]
                    &&& forall|i: int| 0 <= i < strength@.len() ==> strength@[i] <= strength@[place]
                    &&& forall|i: int| place < i < strength@.len() ==> strength@[i] < strength@[place]
                },
    {
        let mut action_options = action_options;
        let place: usize = place_of_highest(strength);
        let ghost all = action_options@;
        let action = action_options.swap_remove(place);
        assert(action == all[place as int]);
        action
    }
}

impl PlayingAlgorithm for MonteCarlo {
    /// Returns the action with which the player won most often in the games that were played
    /// through: see [`MonteCarlo::decide`].
    fn get_next_action(&mut self, player: &Player, visible_game: &VisibleGame) -> (action: Action)
        ensures
            candidates(
                *player,
                visible_game.spec_left_neighbour().built_structures@,
                visible_game.spec_right_neighbour().built_structures@,
                player.hand@.len() as int,
            ).contains(action@),
            player.can_play_spec(
                action@,
                visible_game.spec_left_neighbour().built_structures@,
                visible_game.spec_right_neighbour().built_structures@,
            ),
    {
        MonteCarlo::decide(player, visible_game)
    }
}

impl MonteCarlo {
    /// Returns the action with which the player won most often in the games that were played
    /// through: one of the actions of [`MonteCarlo::action_options`].
    pub fn decide(player: &Player, visible_game: &VisibleGame) -> (action: Action)
        requires
            player.wf(),
            player.hand@.len() > 0,
            visible_game.sound(),
        ensures
            candidates(
                *player,
                visible_game.spec_left_neighbour().built_structures@,
                visible_game.spec_right_neighbour().built_structures@,
                player.hand@.len() as int,
            ).contains(action@),
            player.can_play_spec(
                action@,
                visible_game.spec_left_neighbour().built_structures@,
                visible_game.spec_right_neighbour().built_structures@,
            ),
    {
        // The actions to look at. The strength of each is how often it wins.
        let action_options = MonteCarlo::action_options(player, visible_game);
        // The cards that are known: random hands are made up for the other players from the cards
        // that are left.
        let known_cards = MonteCarlo::known_cards(player, visible_game);
        let mut strength: Vec<i32> = Vec::new();
        let mut option_index: usize = 0;
        while option_index < action_options.len()
            invariant
                option_index <= action_options@.len(),
                strength@.len() == option_index,
                player.wf(),
                visible_game.sound(),
            decreases action_options@.len() - option_index,
        {
            let mut wins: i32 = 0;
            let mut playout: usize = 0;
            while playout < PLAYOUTS
                invariant
                    playout <= PLAYOUTS,
                    0 <= wins <= playout,
                    option_index < action_options@.len(),
                    player.wf(),
                    visible_game.sound(),
                decreases PLAYOUTS - playout,
            {
                let won = MonteCarlo::play_out(player, visible_game, &action_options[option_index], &known_cards);
                if let Some(true) = won {
                    wins = wins + 1;
                }
                playout = playout + 1;
            }
            strength.push(wins);
            option_index = option_index + 1;
        }
        let ghost options = action_options@;
        let action = MonteCarlo::best_action(action_options, &strength);
        proof {
            let place = choose|place: int| 0 <= place < options.len() && action == #[trigger] options[place];
            assert(action_views(options)[place] == action@);
            lemma_candidates_are_legal(
                *player,
                visible_game.spec_left_neighbour().built_structures@,
                visible_game.spec_right_neighbour().built_structures@,
                player.hand@.len() as int,
                place,
            );
        }
        action
    }
}

/// Every action that [`MonteCarlo`] chooses from is legal.
pub proof fn lemma_candidates_are_legal(player: Player, left: Seq<Card>, right: Seq<Card>, upto: int, place: int)
    requires
        0 <= upto <= player.hand@.len(),
        0 <= place < candidates(player, left, right, upto).len(),
    ensures
        player.can_play_spec(candidates(player, left, right, upto)[place], left, right),
    decreases upto,
{
    if upto > 0 {
        let before = candidates(player, left, right, upto - 1);
        let card = player.hand@[upto - 1];
        let options = player.options(card, left, right);
        assert(player.hand@.contains(card));
        if place < before.len() {
            lemma_candidates_are_legal(player, left, right, upto - 1, place);
        } else if options.len() > 0 && place == before.len() {
            player.lemma_option_is_legal(card, left, right, 0);
        }
    }
}

} // verus!
