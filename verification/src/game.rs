//! The whole game: the seats round the table, the turns and ages, and the discard pile.

use vstd::arithmetic::div_mod::lemma_fundamental_div_mod_converse;
use vstd::prelude::*;

use crate::algorithms::PlayingAlgorithm;
use crate::card::Age;
use crate::card::Card;
use crate::deck::HAND_SIZE;
use crate::player::Player;
use crate::player::PublicPlayer;
use crate::player::STARTING_COINS;
use crate::wonder::WonderSide;
use crate::wonder::WonderType;

verus! {

/// The number of turns in an age.
pub const TURNS_PER_AGE: u32 = 6;

/// The number of turns in a game: three ages of six turns each.
pub const TURNS_PER_GAME: u32 = 18;

/// The fewest players that a game can have.
pub const MIN_PLAYERS: usize = 3;

/// The most players that a game can have.
pub const MAX_PLAYERS: usize = 7;

/// The most coins that a player can gain in one turn: each of the players, in their action, pays or
/// brings a player no more than this seventh of it.
pub const TURN_GAIN: i32 = 336;

/// The most coins that one action can bring to any one player.
pub const ACTION_GAIN: i32 = 48;

/// The most coins that a player can have when the given turn starts.
pub open spec fn coin_cap(turn: int) -> int {
    STARTING_COINS + TURN_GAIN * turn
}

/// The age in which the given turn is played, counted from turn 0.
pub open spec fn age_of_turn(turn: u32) -> Age {
    if turn < 6 {
        Age::First
    } else if turn < 12 {
        Age::Second
    } else {
        Age::Third
    }
}

/// The state of the game that all players can see: everything but the players' hands.
#[derive(Debug)]
pub struct VisibleGame<'a> {
    /// All players in the game, clockwise round the table.
    pub public_players: &'a [PublicPlayer],
    /// The place in `public_players` of the player that this view was made for.
    pub player_index: usize,
    /// The turn being played, counted from 0.
    pub turn: u32,
}

impl<'a> VisibleGame<'a> {
    /// The player that the view was made for sits at the table.
    pub open spec fn wf(&self) -> bool {
        self.player_index < self.public_players@.len()
    }

    /// What can be seen is the table of a game in progress: three to seven players sit at
    /// it, the turn is one of the game, and no player has more structures or coins than the turns so
    /// far allow.
    pub open spec fn sound(&self) -> bool {
        &&& self.wf()
        &&& MIN_PLAYERS <= self.public_players@.len() <= MAX_PLAYERS
        &&& self.turn < TURNS_PER_GAME
        &&& forall|seat: int|
            0 <= seat < self.public_players@.len() ==> (#[trigger] self.public_players@[seat]).sound(
                self.turn,
            )
    }

    /// The place of the player on the left, which is the next one clockwise.
    pub open spec fn spec_left_neighbour_index(&self) -> int {
        (self.player_index + 1) % (self.public_players@.len() as int)
    }

    /// The place of the player on the right, which is the next one anti-clockwise.
    pub open spec fn spec_right_neighbour_index(&self) -> int {
        (self.player_index + self.public_players@.len() - 1) % (self.public_players@.len() as int)
    }

    /// The player on the left, which is the next one clockwise.
    pub open spec fn spec_left_neighbour(&self) -> PublicPlayer {
        self.public_players@[self.spec_left_neighbour_index()]
    }

    /// The player on the right, which is the next one anti-clockwise.
    pub open spec fn spec_right_neighbour(&self) -> PublicPlayer {
        self.public_players@[self.spec_right_neighbour_index()]
    }

    /// Returns the player on the current player's left, which is the next one clockwise.
    pub fn left_neighbour(&self) -> (neighbour: &PublicPlayer)
        requires
            self.wf(),
        ensures
            *neighbour == self.spec_left_neighbour(),
    {
        &self.public_players[self.left_neighbour_index()]
    }

    /// Returns the player on the current player's right, which is the next one anti-clockwise.
    pub fn right_neighbour(&self) -> (neighbour: &PublicPlayer)
        requires
            self.wf(),
        ensures
            *neighbour == self.spec_right_neighbour(),
    {
        &self.public_players[self.right_neighbour_index()]
    }

    /// Returns the place, counted from 0, of the left neighbour.
    pub fn left_neighbour_index(&self) -> (index: usize)
        requires
            self.wf(),
        ensures
            index == self.spec_left_neighbour_index(),
            index < self.public_players@.len(),
    {
        let count: usize = self.public_players.len();
        (self.player_index + 1) % count
    }

    /// Returns the place, counted from 0, of the right neighbour.
    pub fn right_neighbour_index(&self) -> (index: usize)
        requires
            self.wf(),
        ensures
            index == self.spec_right_neighbour_index(),
            index < self.public_players@.len(),
    {
        let count: usize = self.public_players.len();
        if self.player_index == 0 {
            proof {
                lemma_fundamental_div_mod_converse(count - 1, count as int, 0, count - 1);
            }
            count - 1
        } else {
            proof {
                lemma_fundamental_div_mod_converse(
                    self.player_index + count - 1,
                    count as int,
                    1,
                    self.player_index - 1,
                );
            }
            self.player_index - 1
        }
    }

    /// Returns the age being played.
    pub fn age(&self) -> (age: Age)
        requires
            self.turn < TURNS_PER_GAME,
        ensures
            age == age_of_turn(self.turn),
    {
        if self.turn < 6 {
            Age::First
        } else if self.turn < 12 {
            Age::Second
        } else {
            Age::Third
        }
    }
}

/// The whole state of a game.
pub struct Game {
    /// The players in the game, clockwise round the table: the player at place 1 sits to the left
    /// of the player at place 0, and the last player sits to the right of the player at place 0.
    pub players: Vec<Player>,
    /// For each player, at the same place, the algorithm that plays for it. The algorithms are
    /// kept apart from the players, since an algorithm changes its own state while it looks at
    /// the player.
    pub algorithms: Vec<Box<dyn PlayingAlgorithm>>,
    /// The turn of the game, which runs from 0 to 17 for 3 ages of 6 turns each, and is 18 when
    /// the game is over.
    pub turn: u32,
    /// The discard pile. It starts empty and gets the cards that the players discard, and at the
    /// start of each age the cards that were left in their hands.
    pub discard_pile: Vec<Card>,
}

/// The hands of the players, in the order of the players.
pub open spec fn hands_of(players: Seq<Player>) -> Seq<Seq<Card>> {
    players.map_values(|player: Player| player.hand@)
}

/// The place of the seat to the left of the seat at `index`, which is the next one clockwise, at
/// a table of `count` seats.
pub open spec fn left_of(index: int, count: int) -> int {
    if index + 1 == count {
        0
    } else {
        index + 1
    }
}

/// The place of the seat to the right of the seat at `index`, which is the next one
/// anti-clockwise, at a table of `count` seats.
pub open spec fn right_of(index: int, count: int) -> int {
    if index == 0 {
        count - 1
    } else {
        index - 1
    }
}

/// The neighbours' places at a round table: one further, and one back, modulo the number of seats.
/// At a table of three or more, a seat and its two neighbours are three different seats.
pub proof fn lemma_neighbour_places(index: int, count: int)
    requires
        0 <= index < count,
    ensures
        left_of(index, count) == (index + 1) % count,
        right_of(index, count) == (index + count - 1) % count,
        0 <= left_of(index, count) < count,
        0 <= right_of(index, count) < count,
        count >= 3 ==> left_of(index, count) != index && right_of(index, count) != index && left_of(
            index,
            count,
        ) != right_of(index, count),
{
    if index + 1 == count {
        lemma_fundamental_div_mod_converse(index + 1, count, 1, 0);
    } else {
        lemma_fundamental_div_mod_converse(index + 1, count, 0, index + 1);
    }
    if index == 0 {
        lemma_fundamental_div_mod_converse(index + count - 1, count, 0, count - 1);
    } else {
        lemma_fundamental_div_mod_converse(index + count - 1, count, 1, index - 1);
    }
}

/// The hands after they are passed on in the given age: clockwise, to the left, in the first and
/// the third age, and anti-clockwise, to the right, in the second.
pub open spec fn passed_on(hands: Seq<Seq<Card>>, age: Age) -> Seq<Seq<Card>> {
    Seq::new(
        hands.len(),
        |seat: int|
            if age == Age::Second {
                hands[left_of(seat, hands.len() as int)]
            } else {
                hands[right_of(seat, hands.len() as int)]
            },
    )
}

/// The hands that are dealt from a deck: the first seven cards for the first seat, the next seven
/// for the second seat, and so on.
pub open spec fn dealt(deck: Seq<Card>, seats: int) -> Seq<Seq<Card>> {
    Seq::new(
        if seats >= 0 {
            seats as nat
        } else {
            0
        },
        |seat: int| deck.subrange(seat * HAND_SIZE, (seat + 1) * HAND_SIZE),
    )
}

/// All the cards of the given hands in one list, hand by hand.
pub open spec fn all_cards(hands: Seq<Seq<Card>>) -> Seq<Card>
    decreases hands.len(),
{
    if hands.len() == 0 {
        Seq::empty()
    } else {
        all_cards(hands.drop_last()) + hands.last()
    }
}

/// One player is in a state that a game in the given turn can hold: at most one structure for each
/// turn so far, coins within what those turns can have brought, and, within an age, at least as
/// many cards in hand as there are turns left in it, and one more.
pub open spec fn player_sound(player: Player, turn: int) -> bool {
    &&& 0 <= player.coins <= coin_cap(turn)
    &&& player.built_structures@.len() <= turn
    &&& turn % (TURNS_PER_AGE as int) != 0 ==> player.hand@.len() >= HAND_SIZE - turn % (TURNS_PER_AGE as int)
}

/// `after` is `before` but for the hand.
pub open spec fn same_board(before: Player, after: Player) -> bool {
    &&& after.wonder == before.wonder
    &&& after.built_structures == before.built_structures
    &&& after.built_wonder_stages == before.built_wonder_stages
    &&& after.coins == before.coins
}

impl Game {
    /// The hands of the players, in the order of their seats.
    pub open spec fn hands(&self) -> Seq<Seq<Card>> {
        hands_of(self.players@)
    }

    /// The game is in a state that a game can reach: three to seven players, an algorithm for
    /// each, a turn of the game or the turn after the last, and every player in a state that the
    /// turn allows: see [`player_sound`].
    pub open spec fn wf(&self) -> bool {
        &&& MIN_PLAYERS <= self.players@.len() <= MAX_PLAYERS
        &&& self.algorithms@.len() == self.players@.len()
        &&& self.turn <= TURNS_PER_GAME
        &&& forall|seat: int|
            0 <= seat < self.players@.len() ==> player_sound(#[trigger] self.players@[seat], self.turn as int)
    }

    /// Returns the number of players.
    pub fn player_count(&self) -> (count: u32)
        requires
            self.players@.len() <= u32::MAX,
        ensures
            count == self.players@.len(),
    {
        self.players.len() as u32
    }

    /// Returns the current age being played.
    pub fn age(&self) -> (age: Age)
        requires
            self.turn < TURNS_PER_GAME,
        ensures
            age == age_of_turn(self.turn),
    {
        if self.turn < 6 {
            Age::First
        } else if self.turn < 12 {
            Age::Second
        } else {
            Age::Third
        }
    }

    /// Returns the turn of the game, counted from 0.
    pub fn turn(&self) -> (turn: u32)
        ensures
            turn == self.turn,
    {
        self.turn
    }

    /// Returns the player at the given seat.
    pub fn player(&self, seat: usize) -> (player: &Player)
        requires
            seat < self.players@.len(),
        ensures
            *player == self.players@[seat as int],
    {
        &self.players[seat]
    }

    /// Returns the discard pile.
    pub fn discard_pile(&self) -> (pile: &Vec<Card>)
        ensures
            *pile == self.discard_pile,
    {
        &self.discard_pile
    }

    /// Given the place of a player, returns that player for changing, together with the players to
    /// the right and to the left of it: the right neighbour first, then the player, then the left
    /// neighbour. There have to be at least three players, so that the three are different ones.
    pub fn get_mutable_player_and_neighbours(players: &mut Vec<Player>, index: usize) -> (seats: (
        &mut Player,
        &mut Player,
        &mut Player,
    ))
        requires
            old(players)@.len() >= MIN_PLAYERS,
            index < old(players)@.len(),
        ensures
            *seats.0 == old(players)@[right_of(index as int, old(players)@.len() as int)],
            *seats.1 == old(players)@[index as int],
            *seats.2 == old(players)@[left_of(index as int, old(players)@.len() as int)],
            final(players)@ == old(players)@.update(
                right_of(index as int, old(players)@.len() as int),
                *final(seats.0),
            ).update(index as int, *final(seats.1)).update(
                left_of(index as int, old(players)@.len() as int),
                *final(seats.2),
            ),
    {
        let count: usize = players.len();
        let slice = players.as_mut_slice();
        if index == 0 {
            // player=0, left=1, right=n-1
            let (first, after) = slice.split_at_mut(1);
            let (middle, last) = after.split_at_mut(count - 2);
            let player = first.first_mut().unwrap();
            let left_player = middle.first_mut().unwrap();
            let right_player = last.first_mut().unwrap();
            (right_player, player, left_player)
        } else if index == count - 1 {
            // player=n-1, left=0, right=n-2
            let (before, last) = slice.split_at_mut(count - 1);
            let (first, middle) = before.split_at_mut(1);
            let player = last.first_mut().unwrap();
            let left_player = first.first_mut().unwrap();
            let right_player = middle.last_mut().unwrap();
            (right_player, player, left_player)
        } else {
            // player=i, left=i+1, right=i-1
            let (before, player_and_after) = slice.split_at_mut(index);
            let (player_slice, after) = player_and_after.split_at_mut(1);
            let right_player = before.last_mut().unwrap();
            let player = player_slice.first_mut().unwrap();
            let left_player = after.first_mut().unwrap();
            (right_player, player, left_player)
        }
    }

    /// Creates a game that goes on from the given turn with the given players, for each of which
    /// the algorithm at the same place plays. The players have to be in a state that a game can
    /// reach: see [`Game::wf`].
    pub fn new_with_players(players: Vec<Player>, algorithms: Vec<Box<dyn PlayingAlgorithm>>, turn: u32) -> (game:
        Game)
        requires
            MIN_PLAYERS <= players@.len() <= MAX_PLAYERS,
            algorithms@.len() == players@.len(),
            turn <= TURNS_PER_GAME,
            forall|seat: int| 0 <= seat < players@.len() ==> player_sound(#[trigger] players@[seat], turn as int),
        ensures
            game.wf(),
            game.players == players,
            game.algorithms == algorithms,
            game.turn == turn,
            game.discard_pile@ == Seq::<Card>::empty(),
    {
        Game { players, algorithms, turn, discard_pile: Vec::new() }
    }

    /// Creates a game in which each algorithm plays for a new player, whose wonder is the one at
    /// the algorithm's place in `wonder_types`, side A.
    pub fn seat_players(algorithms: Vec<Box<dyn PlayingAlgorithm>>, wonder_types: &Vec<WonderType>) -> (game:
        Game)
        requires
            MIN_PLAYERS <= algorithms@.len() <= MAX_PLAYERS,
            algorithms@.len() <= wonder_types@.len(),
        ensures
            game.wf(),
            game.turn == 0,
            game.discard_pile@ == Seq::<Card>::empty(),
            game.algorithms == algorithms,
            game.players@.len() == algorithms@.len(),
            forall|seat: int|
                0 <= seat < algorithms@.len() ==> {
                    let player = #[trigger] game.players@[seat];
                    &&& player.wonder.wonder_type == wonder_types@[seat]
                    &&& player.wonder.wonder_side == WonderSide::A
                    &&& player.coins == STARTING_COINS
                    &&& player.built_structures@.len() == 0
                    &&& player.hand@.len() == 0
                },
    {
        let mut players: Vec<Player> = Vec::new();
        let count: usize = algorithms.len();
        while players.len() < count
            invariant
                count <= wonder_types@.len(),
                players@.len() <= count,
                forall|seat: int|
                    0 <= seat < players@.len() ==> {
                        let player = #[trigger] players@[seat];
                        &&& player.wonder.wonder_type == wonder_types@[seat]
                        &&& player.wonder.wonder_side == WonderSide::A
                        &&& player.coins == STARTING_COINS
                        &&& player.built_structures@.len() == 0
                        &&& player.hand@.len() == 0
                    },
            decreases count - players@.len(),
        {
            let seat: usize = players.len();
            players.push(Player::new(wonder_types[seat], WonderSide::A));
        }
        Game { players, algorithms, turn: 0, discard_pile: Vec::new() }
    }

    /// Creates a new game in which each player plays by the given algorithm. The wonders are
    /// given out at random, all with side A. `algorithms` has to have between 3 and 7 entries, for
    /// between 3 and 7 players.
    pub fn new(algorithms: Vec<Box<dyn PlayingAlgorithm>>) -> (game: Game)
        requires
            MIN_PLAYERS <= algorithms@.len() <= MAX_PLAYERS,
        ensures
            game.wf(),
            game.turn == 0,
            game.discard_pile@ == Seq::<Card>::empty(),
            game.algorithms == algorithms,
            game.players@.len() == algorithms@.len(),
            exists|wonder_types: Seq<WonderType>|
                {
                    &&& #[trigger] wonder_types.to_multiset() == WonderType::catalogue().to_multiset()
                    &&& forall|seat: int|
                        0 <= seat < algorithms@.len() ==> {
                            let player = #[trigger] game.players@[seat];
                            &&& player.wonder.wonder_type == wonder_types[seat]
                            &&& player.wonder.wonder_side == WonderSide::A
                            &&& player.coins == STARTING_COINS
                            &&& player.built_structures@.len() == 0
                            &&& player.hand@.len() == 0
                        }
                },
    {
        let mut wonder_types = WonderType::all();
        crate::chance::shuffle(&mut wonder_types);
        proof {
            vstd::seq_lib::to_multiset_len(wonder_types@);
            vstd::seq_lib::to_multiset_len(WonderType::catalogue());
        }
        Game::seat_players(algorithms, &wonder_types)
    }

    /// Deals the cards of `deck`: each player's hand becomes the next seven cards of the deck, and
    /// the cards that the player had in hand go to the discard pile. The deck has to hold seven
    /// cards for each player.
    pub fn deal(&mut self, deck: Vec<Card>)
        requires
            deck@.len() >= HAND_SIZE * old(self).players@.len(),
        ensures
            final(self).turn == old(self).turn,
            final(self).algorithms == old(self).algorithms,
            final(self).players@.len() == old(self).players@.len(),
            final(self).hands() == dealt(deck@, old(self).players@.len() as int),
            final(self).discard_pile@ == old(self).discard_pile@ + all_cards(old(self).hands()),
            forall|seat: int|
                0 <= seat < old(self).players@.len() ==> same_board(
                    #[trigger] old(self).players@[seat],
                    final(self).players@[seat],
                ),
    {
        let ghost all = deck@;
        let ghost count = self.players@.len() as int;
        let mut deck = deck;
        let mut seat: usize = 0;
        while seat < self.players.len()
            invariant
                seat <= self.players@.len(),
                count == self.players@.len() == old(self).players@.len(),
                self.turn == old(self).turn,
                self.algorithms == old(self).algorithms,
                all.len() >= HAND_SIZE * count,
                deck@ == all.skip(seat * HAND_SIZE),
                self.discard_pile@ == old(self).discard_pile@ + all_cards(old(self).hands().take(seat as int)),
                forall|k: int|
                    0 <= k < seat ==> (#[trigger] self.players@[k]).hand@ == all.subrange(
                        k * HAND_SIZE,
                        (k + 1) * HAND_SIZE,
                    ),
                forall|k: int| seat <= k < count ==> (#[trigger] self.players@[k]).hand == old(self).players@[k].hand,
                forall|k: int| 0 <= k < count ==> same_board(#[trigger] old(self).players@[k], self.players@[k]),
            decreases self.players@.len() - seat,
        {
            assert(seat * HAND_SIZE + HAND_SIZE <= all.len()) by (nonlinear_arith)
                requires
                    seat < count,
                    all.len() >= HAND_SIZE * count,
            ;
            let rest = deck.split_off(HAND_SIZE);
            let new_hand = deck;
            deck = rest;
            proof {
                assert(new_hand@ =~= all.subrange(seat * HAND_SIZE, (seat + 1) * HAND_SIZE));
                assert(deck@ =~= all.skip((seat + 1) * HAND_SIZE));
            }
            let old_hand = self.players[seat].swap_hand(new_hand);
            let ghost pile_before = self.discard_pile@;
            let ghost players_now = self.players@;
            let mut i: usize = 0;
            while i < old_hand.len()
                invariant
                    i <= old_hand.len(),
                    self.discard_pile@ == pile_before + old_hand@.take(i as int),
                    self.players@ == players_now,
                    self.turn == old(self).turn,
                    self.algorithms == old(self).algorithms,
                decreases old_hand.len() - i,
            {
                self.discard_pile.push(old_hand[i]);
                assert(old_hand@.take(i + 1) =~= old_hand@.take(i as int).push(old_hand@[i as int]));
                i = i + 1;
            }
            proof {
                assert(old_hand@.take(old_hand.len() as int) =~= old_hand@);
                let hands = old(self).hands();
                assert(hands.take(seat + 1).drop_last() =~= hands.take(seat as int));
                assert(hands.take(seat + 1).last() == old_hand@);
            }
            seat = seat + 1;
        }
        proof {
            assert(old(self).hands().take(count) =~= old(self).hands());
            assert(self.hands() =~= dealt(all, count));
        }
    }
}

impl Game {
    /// Passes the hands on: every player gets the hand of a neighbour, clockwise in the first and
    /// third age and anti-clockwise in the second. See [`passed_on`].
    pub fn pass_hands(&mut self)
        requires
            old(self).players@.len() > 0,
            old(self).turn < TURNS_PER_GAME,
        ensures
            final(self).hands() == passed_on(old(self).hands(), age_of_turn(old(self).turn)),
            final(self).turn == old(self).turn,
            final(self).algorithms == old(self).algorithms,
            final(self).discard_pile == old(self).discard_pile,
            final(self).players@.len() == old(self).players@.len(),
            forall|seat: int|
                0 <= seat < old(self).players@.len() ==> same_board(
                    #[trigger] old(self).players@[seat],
                    final(self).players@[seat],
                ),
    {
        let num_players: usize = self.players.len();
        let ghost before = self.players@;
        let ghost count = num_players as int;
        let mut hand: Vec<Card> = Vec::new();
        let mut i: usize = 0;
        if self.age() == Age::Second {
            // In the second age, we pass cards anti-clockwise: seat 0 first, then the last seat, and
            // so on down to seat 1.
            while i < num_players
                invariant
                    i <= num_players,
                    0 < num_players == count == before.len() == self.players@.len(),
                    before == old(self).players@,
                    self.turn == old(self).turn,
                    self.algorithms == old(self).algorithms,
                    self.discard_pile == old(self).discard_pile,
                    forall|k: int| 0 <= k < count ==> same_board(#[trigger] before[k], self.players@[k]),
                    i == 0 ==> self.players@[0].hand@ == before[0].hand@ && hand@ == Seq::<Card>::empty(),
                    i > 0 ==> self.players@[0].hand@ == Seq::<Card>::empty() && hand@ == before[left_of(
                        count - i,
                        count,
                    )].hand@,
                    forall|k: int|
                        0 < k <= count - i ==> (#[trigger] self.players@[k]).hand@ == before[k].hand@,
                    forall|k: int|
                        0 < k < count && k > count - i ==> (#[trigger] self.players@[k]).hand@ == before[left_of(
                            k,
                            count,
                        )].hand@,
                decreases num_players - i,
            {
                let index: usize = (num_players - i) % num_players;
                proof {
                    if i == 0 {
                        lemma_fundamental_div_mod_converse(count, count, 1, 0);
                    } else {
                        lemma_fundamental_div_mod_converse(count - i, count, 0, count - i);
                    }
                }
                let ghost seats = self.players@;
                let ghost carried = hand@;
                hand = self.players[index].swap_hand(hand);
                proof {
                    assert(self.players@ == seats.update(index as int, self.players@[index as int]));
                    assert(self.players@[index as int].hand@ == carried);
                    assert(hand@ == seats[index as int].hand@);
                    assert(same_board(before[index as int], self.players@[index as int]));
                    assert(left_of(count - (i + 1), count) == index);
                    assert forall|k: int| 0 < k <= count - (i + 1) implies (#[trigger] self.players@[k]).hand@
                        == before[k].hand@ by {
                        assert(self.players@[k] == seats[k]);
                    }
                    assert forall|k: int| 0 < k < count && k > count - (i + 1) implies (
                    #[trigger] self.players@[k]).hand@ == before[left_of(k, count)].hand@ by {
                        if k != index {
                            assert(self.players@[k] == seats[k]);
                        }
                    }
                    assert forall|k: int| 0 <= k < count implies same_board(
                        #[trigger] before[k],
                        self.players@[k],
                    ) by {
                        if k != index {
                            assert(self.players@[k] == seats[k]);
                        }
                    }
                }
                i = i + 1;
            }
            let index: usize = (num_players - i) % num_players;
            proof {
                lemma_fundamental_div_mod_converse(0, count, 0, 0);
            }
            self.players[index].swap_hand(hand);
            proof {
                assert forall|k: int| 0 <= k < count implies self.players@[k].hand@ == before[left_of(
                    k,
                    count,
                )].hand@ by {}
            }
        } else {
            // Otherwise, pass clockwise: seat 0 first, then seat 1, and so on up to the last seat.
            while i < num_players
                invariant
                    i <= num_players,
                    0 < num_players == count == before.len() == self.players@.len(),
                    before == old(self).players@,
                    self.turn == old(self).turn,
                    self.algorithms == old(self).algorithms,
                    self.discard_pile == old(self).discard_pile,
                    forall|k: int| 0 <= k < count ==> same_board(#[trigger] before[k], self.players@[k]),
                    i == 0 ==> hand@ == Seq::<Card>::empty(),
                    i > 0 ==> self.players@[0].hand@ == Seq::<Card>::empty() && hand@ == before[i - 1].hand@,
                    forall|k: int| i <= k < count ==> (#[trigger] self.players@[k]).hand@ == before[k].hand@,
                    forall|k: int| 0 < k < i ==> (#[trigger] self.players@[k]).hand@ == before[k - 1].hand@,
                decreases num_players - i,
            {
                let index: usize = i % num_players;
                proof {
                    lemma_fundamental_div_mod_converse(i as int, count, 0, i as int);
                }
                hand = self.players[index].swap_hand(hand);
                i = i + 1;
            }
            let index: usize = i % num_players;
            proof {
                lemma_fundamental_div_mod_converse(count, count, 1, 0);
            }
            self.players[index].swap_hand(hand);
            proof {
                assert forall|k: int| 0 <= k < count implies self.players@[k].hand@ == before[right_of(
                    k,
                    count,
                )].hand@ by {}
            }
        }
        assert(self.hands() =~= passed_on(old(self).hands(), age_of_turn(old(self).turn)));
    }

    /// Returns what all players can see of each player, in the order of the seats.
    pub fn snapshot(&self) -> (public_players: Vec<PublicPlayer>)
        ensures
            public_players@.len() == self.players@.len(),
            forall|seat: int|
                0 <= seat < self.players@.len() ==> {
                    let seen = #[trigger] public_players@[seat];
                    &&& seen.wonder == self.players@[seat].wonder
                    &&& seen.built_structures@ == self.players@[seat].built_structures@
                    &&& seen.coins == self.players@[seat].coins
                },
    {
        let mut public_players: Vec<PublicPlayer> = Vec::new();
        let mut seat: usize = 0;
        while seat < self.players.len()
            invariant
                seat <= self.players@.len(),
                public_players@.len() == seat,
                forall|k: int|
                    0 <= k < seat ==> {
                        let seen = #[trigger] public_players@[k];
                        &&& seen.wonder == self.players@[k].wonder
                        &&& seen.built_structures@ == self.players@[k].built_structures@
                        &&& seen.coins == self.players@[k].coins
                    },
            decreases self.players@.len() - seat,
        {
            public_players.push(PublicPlayer::new(&self.players[seat]));
            seat = seat + 1;
        }
        public_players
    }
}

/// The cards of hands that are put one list behind the other are the cards of the one list and
/// then those of the other.
proof fn lemma_all_cards_of_both(first: Seq<Seq<Card>>, second: Seq<Seq<Card>>)
    ensures
        all_cards(first + second) == all_cards(first) + all_cards(second),
    decreases second.len(),
{
    if second.len() == 0 {
        assert(first + second =~= first);
        assert(all_cards(first) + all_cards(second) =~= all_cards(first));
    } else {
        lemma_all_cards_of_both(first, second.drop_last());
        assert((first + second).drop_last() =~= first + second.drop_last());
        assert((first + second).last() == second.last());
        assert(all_cards(first + second) =~= all_cards(first) + all_cards(second));
    }
}

/// The cards of a single hand are that hand.
proof fn lemma_all_cards_of_one(hand: Seq<Card>)
    ensures
        all_cards(seq![hand]) == hand,
{
    reveal_with_fuel(all_cards, 2);
    assert(seq![hand].drop_last() =~= Seq::<Seq<Card>>::empty());
    assert(seq![hand].last() == hand);
    assert(all_cards(seq![hand]) =~= hand);
}

/// Passing the hands on keeps every card in play: the cards in all hands together are the same,
/// each as often as before, whichever way the hands are passed.
pub proof fn lemma_passing_keeps_cards(hands: Seq<Seq<Card>>, age: Age)
    ensures
        all_cards(passed_on(hands, age)).to_multiset() == all_cards(hands).to_multiset(),
{
    let count = hands.len() as int;
    let passed = passed_on(hands, age);
    if count > 0 {
        if age == Age::Second {
            let first = seq![hands.first()];
            let rest = hands.skip(1);
            assert(hands =~= first + rest);
            assert(passed =~= rest + first);
            lemma_all_cards_of_both(first, rest);
            lemma_all_cards_of_both(rest, first);
            lemma_all_cards_of_one(hands.first());
            vstd::seq_lib::lemma_seq_union_to_multiset_commutative(all_cards(first), all_cards(rest));
        } else {
            let last = seq![hands.last()];
            let rest = hands.drop_last();
            assert(hands =~= rest + last);
            assert(passed =~= last + rest);
            lemma_all_cards_of_both(last, rest);
            lemma_all_cards_of_both(rest, last);
            lemma_all_cards_of_one(hands.last());
            vstd::seq_lib::lemma_seq_union_to_multiset_commutative(all_cards(last), all_cards(rest));
        }
    } else {
        assert(passed =~= hands);
    }
}

/// The hands after they are passed on the given number of times in the given age.
pub open spec fn passed_on_times(hands: Seq<Seq<Card>>, age: Age, times: nat) -> Seq<Seq<Card>>
    decreases times,
{
    if times == 0 {
        hands
    } else {
        passed_on(passed_on_times(hands, age, (times - 1) as nat), age)
    }
}

/// The seat whose hand is at `seat` after the hands are passed on `times` times, which is not more
/// often than there are seats.
pub open spec fn came_from(seat: int, times: int, count: int, age: Age) -> int {
    if age == Age::Second {
        if seat + times < count {
            seat + times
        } else {
            seat + times - count
        }
    } else {
        if seat >= times {
            seat - times
        } else {
            seat + count - times
        }
    }
}

/// After the hands are passed on a number of times, each seat holds the hand that started so many
/// seats away from it.
proof fn lemma_passed_on_times(hands: Seq<Seq<Card>>, age: Age, times: nat)
    requires
        times <= hands.len(),
    ensures
        passed_on_times(hands, age, times).len() == hands.len(),
        forall|seat: int|
            0 <= seat < hands.len() ==> #[trigger] passed_on_times(hands, age, times)[seat] == hands[came_from(
                seat,
                times as int,
                hands.len() as int,
                age,
            )],
    decreases times,
{
    if times > 0 {
        lemma_passed_on_times(hands, age, (times - 1) as nat);
        let before = passed_on_times(hands, age, (times - 1) as nat);
        let count = hands.len() as int;
        assert forall|seat: int| 0 <= seat < hands.len() implies #[trigger] passed_on_times(hands, age, times)[seat]
            == hands[came_from(seat, times as int, count, age)] by {
            let from = if age == Age::Second {
                left_of(seat, count)
            } else {
                right_of(seat, count)
            };
            assert(passed_on(before, age)[seat] == before[from]);
            assert(before[from] == hands[came_from(from, times - 1, count, age)]);
        }
    }
}

/// Passing the hands on once for each seat brings every hand back to where it started.
pub proof fn lemma_passing_round_trip(hands: Seq<Seq<Card>>, age: Age)
    ensures
        passed_on_times(hands, age, hands.len()) == hands,
{
    lemma_passed_on_times(hands, age, hands.len());
    assert(passed_on_times(hands, age, hands.len()) =~= hands);
}

} // verus!
