//! The turns of a game: each player has a go with the action that its algorithm asks for, then
//! the hands are passed on.

use vstd::prelude::*;

use crate::action::Action;
use crate::action::ActionView;
use crate::algorithms::PlayingAlgorithm;
use crate::card::Age;
use crate::card::Card;
use crate::deck::HAND_SIZE;
use crate::deck::is_deck;
use crate::deck::lemma_deck_exists;
use crate::deck::lemma_deck_size;
use crate::deck::new_deck;
use crate::game::ACTION_GAIN;
use crate::game::Game;
use crate::game::MAX_PLAYERS;
use crate::game::MIN_PLAYERS;
use crate::game::TURNS_PER_AGE;
use crate::game::TURNS_PER_GAME;
use crate::game::VisibleGame;
use crate::game::age_of_turn;
use crate::game::all_cards;
use crate::game::coin_cap;
use crate::game::dealt;
use crate::game::hands_of;
use crate::game::left_of;
use crate::game::lemma_neighbour_places;
use crate::game::passed_on;
use crate::game::player_sound;
use crate::game::right_of;
use crate::game::same_board;
use crate::option_laws::MAX_BORROWS;
use crate::player::Player;
use crate::player::PublicPlayer;
use crate::player::hand_without;
use crate::resolver::BORROW_PRICE;
use crate::scoring::strength_of;

verus! {

/// True if the action is legal for `player`, whose place at the table that `public_players` shows
/// is `index`: see [`Player::can_play_spec`].
pub open spec fn legal_at(player: Player, index: int, action: ActionView, public_players: Seq<PublicPlayer>) -> bool {
    player.can_play_spec(
        action,
        public_players[left_of(index, public_players.len() as int)].built_structures@,
        public_players[right_of(index, public_players.len() as int)].built_structures@,
    )
}

/// The players after the player at `index` has taken the legal action `action`: that player is
/// changed as [`Player::is_after`] says, the two neighbours are paid for what is borrowed from
/// them, and nobody else is touched.
pub open spec fn players_after(before: Seq<Player>, after: Seq<Player>, index: int, action: ActionView) -> bool {
    let count = before.len() as int;
    &&& after.len() == before.len()
    &&& after[index].is_after(before[index], action)
    &&& after[left_of(index, count)] == (Player {
        coins: (before[left_of(index, count)].coins + Player::paid_left(action)) as i32,
        ..before[left_of(index, count)]
    })
    &&& after[right_of(index, count)] == (Player {
        coins: (before[right_of(index, count)].coins + Player::paid_right(action)) as i32,
        ..before[right_of(index, count)]
    })
    &&& forall|seat: int|
        0 <= seat < count && seat != index && seat != left_of(index, count) && seat != right_of(index, count)
            ==> #[trigger] after[seat] == before[seat]
}

impl Game {
    /// Lets the player at `index` take `action`, as a player who sees of the table what
    /// `public_players` shows. Returns `true` if the action is legal, `false` otherwise, in which
    /// case nothing changes.
    pub fn play_seat(&mut self, index: usize, action: &Action, public_players: &Vec<PublicPlayer>) -> (done: bool)
        requires
            old(self).players@.len() >= MIN_PLAYERS,
            index < old(self).players@.len(),
            public_players@.len() == old(self).players@.len(),
            old(self).players@[index as int].wf(),
            legal_at(old(self).players@[index as int], index as int, action@, public_players@) ==> old(
                self,
            ).players@[index as int].fits(
                action@,
                old(self).players@[left_of(index as int, public_players@.len() as int)].coins as int,
                old(self).players@[right_of(index as int, public_players@.len() as int)].coins as int,
            ),
        ensures
            done == legal_at(old(self).players@[index as int], index as int, action@, public_players@),
            final(self).turn == old(self).turn,
            final(self).algorithms == old(self).algorithms,
            done ==> players_after(old(self).players@, final(self).players@, index as int, action@),
            done ==> final(self).discard_pile@ == Player::pile_after(old(self).discard_pile@, action@),
            !done ==> final(self).players@ == old(self).players@,
            !done ==> final(self).discard_pile@ == old(self).discard_pile@,
    {
        let ghost count = self.players@.len() as int;
        proof {
            lemma_neighbour_places(index as int, count);
        }
        let visible_game = VisibleGame {
            public_players: public_players.as_slice(),
            player_index: index,
            turn: self.turn,
        };
        let ghost before = self.players@;
        let (right_player, player, left_player) = Game::get_mutable_player_and_neighbours(
            &mut self.players,
            index,
        );
        let done = player.do_action(action, &visible_game, left_player, right_player, &mut self.discard_pile);
        proof {
            if !done {
                assert(self.players@ =~= before);
            }
        }
        done
    }
}

/// The hand of a player who has played the given card out of it, or who has played no card.
pub open spec fn hand_after_play(hand: Seq<Card>, played: Option<Card>) -> Seq<Card> {
    match played {
        Some(card) => hand_without(hand, card),
        None => hand,
    }
}

/// The hands after each player has played the card that `played` names for its seat, if any.
pub open spec fn hands_after_plays(hands: Seq<Seq<Card>>, played: Seq<Option<Card>>) -> Seq<Seq<Card>> {
    Seq::new(hands.len(), |seat: int| hand_after_play(hands[seat], played[seat]))
}

/// The card that leaves the hand of a player whose action was carried out, or was not.
pub open spec fn card_played(action: ActionView, done: bool) -> Option<Card> {
    if done {
        match action {
            ActionView::Build(card, _) => Some(card),
            ActionView::Wonder(_, _) => None,
            ActionView::Discard(card) => Some(card),
        }
    } else {
        None
    }
}

/// The hands that a turn starts with: those that the players hold, or, at the start of an age,
/// those that are dealt from some deck of the age.
pub open spec fn starts_turn(start: Seq<Seq<Card>>, before: Seq<Seq<Card>>, turn: u32) -> bool {
    if turn % TURNS_PER_AGE == 0 {
        exists|deck: Seq<Card>|
            #[trigger] is_deck(deck, age_of_turn(turn), before.len() as u32, Seq::empty()) && start == dealt(
                deck,
                before.len() as int,
            )
    } else {
        start == before
    }
}

/// The hands `after` are what a turn can leave of the hands `before`: each player plays at most
/// one card out of the hand that the turn starts with, and hands on what is left.
pub open spec fn is_turn(before: Seq<Seq<Card>>, after: Seq<Seq<Card>>, turn: u32) -> bool {
    exists|start: Seq<Seq<Card>>, played: Seq<Option<Card>>|
        {
            &&& #[trigger] starts_turn(start, before, turn)
            &&& start.len() == before.len()
            &&& played.len() == before.len()
            &&& forall|seat: int|
                0 <= seat < played.len() && (#[trigger] played[seat]) is Some ==> start[seat].contains(
                    played[seat]->0,
                )
            &&& after == passed_on(#[trigger] hands_after_plays(start, played), age_of_turn(turn))
        }
}

/// The state of one player in the middle of a turn in which the turn began with `start` and the
/// first `acted` players have had their go.
pub open spec fn mid_turn_player(
    start: Player,
    now: Player,
    played: Option<Card>,
    has_acted: bool,
    acted: int,
    turn: int,
    hand_size: int,
) -> bool {
    &&& now.wonder == start.wonder
    &&& 0 <= now.coins <= coin_cap(turn) + ACTION_GAIN * acted
    &&& now.hand@ == hand_after_play(start.hand@, played)
    &&& start.hand@.len() >= hand_size
    &&& now.hand@.len() >= hand_size - if has_acted { 1int } else { 0 }
    &&& now.built_structures@.len() <= turn + if has_acted { 1int } else { 0 }
    &&& played is Some ==> start.hand@.contains(played->0)
    &&& !has_acted ==> played is None
}

/// The state of the players in the middle of a turn: see [`mid_turn_player`].
pub open spec fn mid_turn(
    start: Seq<Player>,
    now: Seq<Player>,
    played: Seq<Option<Card>>,
    acted: int,
    turn: int,
    hand_size: int,
) -> bool {
    &&& now.len() == start.len()
    &&& played.len() == start.len()
    &&& forall|seat: int|
        0 <= seat < now.len() ==> mid_turn_player(
            start[seat],
            #[trigger] now[seat],
            played[seat],
            seat < acted,
            acted,
            turn,
            hand_size,
        )
}

/// A hand out of which a card that it holds is played is one card shorter.
pub proof fn lemma_hand_without(hand: Seq<Card>, card: Card)
    requires
        hand.contains(card),
    ensures
        hand_without(hand, card).len() == hand.len() - 1,
{
    hand.index_of_first_ensures(card);
}

/// What a sound action of the player at `index` does to the state in the middle of a turn.
pub proof fn lemma_seat_acts(
    start: Seq<Player>,
    before: Seq<Player>,
    after: Seq<Player>,
    played: Seq<Option<Card>>,
    index: int,
    action: ActionView,
    done: bool,
    turn: int,
    hand_size: int,
)
    requires
        mid_turn(start, before, played, index, turn, hand_size),
        MIN_PLAYERS <= before.len(),
        0 <= index < before.len(),
        0 <= turn,
        coin_cap(turn) + ACTION_GAIN * (index + 1) <= i32::MAX,
        done ==> players_after(before, after, index, action),
        !done ==> after == before,
        done ==> match action {
            ActionView::Build(card, borrowing) => {
                &&& before[index].hand@.contains(card)
                &&& card.cost().coins >= 0
                &&& card.cost().coins + BORROW_PRICE * borrowing.count() <= before[index].coins
                &&& borrowing.count() <= MAX_BORROWS
            },
            ActionView::Wonder(_, _) => false,
            ActionView::Discard(card) => before[index].hand@.contains(card),
        },
    ensures
        mid_turn(start, after, played.update(index, card_played(action, done)), index + 1, turn, hand_size),
{
    let count = before.len() as int;
    let left = left_of(index, count);
    let right = right_of(index, count);
    lemma_neighbour_places(index, count);
    let now_played = played.update(index, card_played(action, done));
    assert forall|seat: int| 0 <= seat < after.len() implies mid_turn_player(
        start[seat],
        #[trigger] after[seat],
        now_played[seat],
        seat < index + 1,
        index + 1,
        turn,
        hand_size,
    ) by {
        assert(mid_turn_player(start[seat], before[seat], played[seat], seat < index, index, turn, hand_size));
        assert(ACTION_GAIN * (index + 1) == ACTION_GAIN * index + ACTION_GAIN) by (nonlinear_arith);
        if done {
            if seat == index {
                match action {
                    ActionView::Build(card, borrowing) => {
                        lemma_hand_without(before[index].hand@, card);
                    },
                    ActionView::Discard(card) => {
                        lemma_hand_without(before[index].hand@, card);
                    },
                    _ => {},
                }
            } else if seat == left || seat == right {
                match action {
                    ActionView::Build(card, borrowing) => {
                        assert(borrowing.left.len() <= MAX_BORROWS && borrowing.right.len() <= MAX_BORROWS);
                    },
                    _ => {},
                }
            } else {
                assert(after[seat] == before[seat]);
            }
        }
    }
}

/// True if `public_players` shows of each player what is public of it.
pub open spec fn shows(public_players: Seq<PublicPlayer>, players: Seq<Player>) -> bool {
    &&& public_players.len() == players.len()
    &&& forall|seat: int|
        0 <= seat < players.len() ==> {
            let seen = #[trigger] public_players[seat];
            &&& seen.wonder == players[seat].wonder
            &&& seen.built_structures@ == players[seat].built_structures@
            &&& seen.coins == players[seat].coins
        }
}

/// The go of the player at `index`, who sees of the table what `public_players` shows: the action
/// is carried out if it is legal, and nothing changes if it is not.
pub open spec fn is_go(
    before: Seq<Player>,
    after: Seq<Player>,
    pile_before: Seq<Card>,
    pile_after: Seq<Card>,
    index: int,
    action: ActionView,
    public_players: Seq<PublicPlayer>,
) -> bool {
    if legal_at(before[index], index, action, public_players) {
        players_after(before, after, index, action) && pile_after == Player::pile_after(pile_before, action)
    } else {
        after == before && pile_after == pile_before
    }
}

/// The goes of the players one after the other, each with its action: `states` and `piles` hold
/// the players and the discard pile before the first go, and after each go.
pub open spec fn is_run(
    states: Seq<Seq<Player>>,
    piles: Seq<Seq<Card>>,
    actions: Seq<ActionView>,
    public_players: Seq<PublicPlayer>,
) -> bool {
    &&& states.len() == actions.len() + 1
    &&& piles.len() == actions.len() + 1
    &&& forall|index: int|
        0 <= index < actions.len() ==> is_go(
            #[trigger] states[index],
            states[index + 1],
            piles[index],
            piles[index + 1],
            index,
            actions[index],
            public_players,
        )
}

/// The players and the discard pile with which a turn starts: as the turn before left them, or, at
/// the start of an age, with new hands from a deck of the age, and with the old hands on the
/// discard pile.
pub open spec fn is_start(
    before: Seq<Player>,
    pile_before: Seq<Card>,
    start: Seq<Player>,
    pile: Seq<Card>,
    turn: u32,
) -> bool {
    &&& start.len() == before.len()
    &&& forall|seat: int| 0 <= seat < before.len() ==> same_board(#[trigger] before[seat], start[seat])
    &&& starts_turn(hands_of(start), hands_of(before), turn)
    &&& pile == if turn % TURNS_PER_AGE == 0 {
        pile_before + all_cards(hands_of(before))
    } else {
        pile_before
    }
}

/// The players after their hands are passed on in the given age.
pub open spec fn is_passed(before: Seq<Player>, after: Seq<Player>, age: Age) -> bool {
    &&& after.len() == before.len()
    &&& forall|seat: int| 0 <= seat < before.len() ==> same_board(#[trigger] before[seat], after[seat])
    &&& hands_of(after) == passed_on(hands_of(before), age)
}

/// The games are a game as it goes on: each is what a turn makes of the one before it.
pub open spec fn is_play(games: Seq<Game>) -> bool {
    forall|turn: int| 0 <= turn < games.len() - 1 ==> (#[trigger] games[turn + 1]).follows(games[turn])
}

impl Game {
    /// True if this game is the game `before` at a later turn, or at the same.
    pub open spec fn is_played_on(&self, before: Game) -> bool {
        exists|games: Seq<Game>|
            {
                &&& #[trigger] is_play(games)
                &&& games.len() > 0
                &&& games.first() == before
                &&& games.last() == *self
            }
    }

    /// True if this game is what a turn makes of the game `before`: the turn starts as
    /// [`is_start`] says, then each player has a go with some action, as [`is_go`] says, while all
    /// of them see the table as it was at the start, and then the hands are passed on.
    pub open spec fn follows(&self, before: Game) -> bool {
        exists|
            states: Seq<Seq<Player>>,
            piles: Seq<Seq<Card>>,
            actions: Seq<ActionView>,
            public_players: Seq<PublicPlayer>,
        |
            {
                &&& actions.len() == before.players@.len()
                &&& #[trigger] is_run(states, piles, actions, public_players)
                &&& is_start(before.players@, before.discard_pile@, states.first(), piles.first(), before.turn)
                &&& shows(public_players, states.first())
                &&& is_passed(states.last(), self.players@, age_of_turn(before.turn))
                &&& self.discard_pile@ == piles.last()
                &&& self.turn == before.turn + 1
            }
    }

    /// Executes a turn of the game: at the start of an age deals new cards, then takes an
    /// [`Action`] from the algorithm of each player in turn and carries it out if it is legal, then
    /// passes the hands on. What the algorithms see of the table is what it was before the first
    /// of them had its go.
    pub fn do_turn(&mut self)
        requires
            old(self).wf(),
            old(self).turn < TURNS_PER_GAME,
        ensures
            final(self).wf(),
            final(self).turn == old(self).turn + 1,
            final(self).players@.len() == old(self).players@.len(),
            forall|seat: int|
                0 <= seat < old(self).players@.len() ==> (#[trigger] final(self).players@[seat]).wonder == old(
                    self,
                ).players@[seat].wonder,
            is_turn(old(self).hands(), final(self).hands(), old(self).turn),
            final(self).follows(*old(self)),
    {
        let ghost turn = self.turn as int;
        let ghost count = self.players@.len() as int;
        let ghost hand_size = hand_size_in(turn);
        // At the start of each age, deal new cards and add any remaining cards to the discard pile.
        if self.turn % TURNS_PER_AGE == 0 {
            let age = self.age();
            let player_count: u32 = self.player_count();
            proof {
                lemma_deck_exists(age, player_count);
            }
            let deck = new_deck(&age, player_count);
            let ghost deck_cards = deck@;
            proof {
                lemma_deck_size(deck@, age, player_count);
            }
            self.deal(deck);
            proof {
                assert(old(self).hands().len() == count);
                assert(is_deck(deck_cards, age_of_turn(old(self).turn), count as u32, Seq::empty()));
                assert(self.hands() == dealt(deck_cards, count));
                lemma_dealt_hands(deck_cards, count, self.players@);
            }
        }
        let ghost start = self.players@;
        let ghost first_pile = self.discard_pile@;
        let ghost mut played: Seq<Option<Card>> = Seq::new(count as nat, |seat: int| None);
        let ghost mut states: Seq<Seq<Player>> = seq![start];
        let ghost mut piles: Seq<Seq<Card>> = seq![first_pile];
        let ghost mut actions: Seq<ActionView> = Seq::empty();
        // Do actions. public_players is a snapshot of the table from before the players start
        // moving, so that each moves "simultaneously".
        let public_players = self.snapshot();
        proof {
            assert(hands_of(start) == self.hands());
            assert(is_start(old(self).players@, old(self).discard_pile@, start, first_pile, old(self).turn));
            lemma_turn_starts(old(self).players@, start, played, turn, hand_size);
            assert forall|seat: int| 0 <= seat < count implies (#[trigger] public_players@[seat]).sound(
                self.turn,
            ) by {
                assert(mid_turn_player(start[seat], start[seat], played[seat], seat < 0, 0, turn, hand_size));
            }
        }
        let mut index: usize = 0;
        while index < self.players.len()
            invariant
                index <= self.players@.len(),
                MIN_PLAYERS <= count <= MAX_PLAYERS,
                count == self.players@.len(),
                self.algorithms@.len() == count,
                public_players@.len() == count,
                turn == self.turn == old(self).turn < TURNS_PER_GAME,
                1 < hand_size <= HAND_SIZE,
                forall|seat: int| 0 <= seat < count ==> (#[trigger] public_players@[seat]).sound(self.turn),
                mid_turn(start, self.players@, played, index as int, turn, hand_size),
                actions.len() == index,
                is_run(states, piles, actions, public_players@),
                states.first() == start,
                piles.first() == first_pile,
                states.last() == self.players@,
                piles.last() == self.discard_pile@,
            decreases self.players@.len() - index,
        {
            let ghost before = self.players@;
            let ghost pile_before = self.discard_pile@;
            proof {
                lemma_seat_is_ready(start, before, played, index as int, turn, hand_size);
            }
            let visible_game = VisibleGame {
                public_players: public_players.as_slice(),
                player_index: index,
                turn: self.turn,
            };
            let action = self.algorithms[index].get_next_action(&self.players[index], &visible_game);
            proof {
                lemma_action_fits(start, before, played, index as int, turn, hand_size, action@, public_players@);
            }
            let done = self.play_seat(index, &action, &public_players);
            proof {
                lemma_seat_acts(start, before, self.players@, played, index as int, action@, done, turn, hand_size);
                lemma_run_goes_on(
                    states,
                    piles,
                    actions,
                    public_players@,
                    self.players@,
                    self.discard_pile@,
                    action@,
                );
                played = played.update(index as int, card_played(action@, done));
                states = states.push(self.players@);
                piles = piles.push(self.discard_pile@);
                actions = actions.push(action@);
            }
            index = index + 1;
        }
        // Pass cards.
        let ghost unpassed = self.players@;
        self.pass_hands();
        self.turn = self.turn + 1;
        proof {
            let age = age_of_turn(old(self).turn);
            assert(is_passed(unpassed, self.players@, age));
            lemma_turn_ends(start, unpassed, self.players@, played, old(self).turn, hand_size);
            assert(starts_turn(hands_of(start), old(self).hands(), old(self).turn));
            assert(is_turn(old(self).hands(), self.hands(), old(self).turn));
            assert(self.follows(*old(self)));
            assert forall|seat: int| 0 <= seat < count implies (#[trigger] self.players@[seat]).wonder == old(
                self,
            ).players@[seat].wonder by {
                assert(same_board(old(self).players@[seat], start[seat]));
            }
        }
    }

    /// Plays the game from the turn that it is in to its end. Returns the final strengths of each
    /// player, in the order of the seats: see [`strength_of`].
    pub fn play(&mut self) -> (scores: Vec<i32>)
        requires
            old(self).wf(),
        ensures
            final(self).wf(),
            final(self).is_played_on(*old(self)),
            final(self).turn == TURNS_PER_GAME,
            scores@.len() == old(self).players@.len(),
            final(self).players@.len() == old(self).players@.len(),
            forall|seat: int|
                0 <= seat < scores@.len() ==> #[trigger] scores@[seat] == strength_of(
                    final(self).players@[seat].built_structures@,
                ),
    {
        let ghost mut games: Seq<Game> = seq![*self];
        while self.turn < TURNS_PER_GAME
            invariant
                self.wf(),
                self.players@.len() == old(self).players@.len(),
                games.len() > 0,
                games.first() == *old(self),
                games.last() == *self,
                is_play(games),
            decreases TURNS_PER_GAME - self.turn,
        {
            let ghost before = games;
            self.do_turn();
            proof {
                games = games.push(*self);
                assert forall|turn: int| 0 <= turn < games.len() - 1 implies (#[trigger] games[turn + 1]).follows(
                    games[turn],
                ) by {
                    if turn < before.len() - 1 {
                        assert(before[turn + 1].follows(before[turn]));
                    }
                }
            }
        }
        proof {
            assert(self.is_played_on(*old(self)));
        }
        let mut scores: Vec<i32> = Vec::new();
        let mut seat: usize = 0;
        while seat < self.players.len()
            invariant
                seat <= self.players@.len(),
                self.wf(),
                self.turn == TURNS_PER_GAME,
                self.players@.len() == old(self).players@.len(),
                scores@.len() == seat,
                forall|k: int|
                    0 <= k < seat ==> #[trigger] scores@[k] == strength_of(self.players@[k].built_structures@),
            decreases self.players@.len() - seat,
        {
            proof {
                assert(player_sound(self.players@[seat as int], self.turn as int));
                crate::scoring::lemma_strength_is_small(self.players@[seat as int].built_structures@);
            }
            scores.push(self.players[seat].strength());
            seat = seat + 1;
        }
        scores
    }
}

/// A legal action of a sound player is sound: the card is in the player's hand, the player has
/// the coins for it, and the borrowing is short. So it fits: see [`Player::fits`].
pub proof fn lemma_legal_is_sound(player: Player, index: int, action: ActionView, public_players: Seq<PublicPlayer>)
    requires
        player.coins >= 0,
        legal_at(player, index, action, public_players),
    ensures
        match action {
            ActionView::Build(card, borrowing) => {
                &&& player.hand@.contains(card)
                &&& card.cost().coins >= 0
                &&& card.cost().coins + BORROW_PRICE * borrowing.count() <= player.coins
                &&& borrowing.count() <= MAX_BORROWS
            },
            ActionView::Wonder(_, _) => false,
            ActionView::Discard(card) => player.hand@.contains(card),
        },
{
    match action {
        ActionView::Build(card, borrowing) => {
            let count = public_players.len() as int;
            let left = public_players[left_of(index, count)].built_structures@;
            let right = public_players[right_of(index, count)].built_structures@;
            player.lemma_legal_build_is_sound(card, borrowing, left, right);
            player.lemma_sound_borrowing_is_short(card, borrowing, left, right);
            crate::card::lemma_cost_is_small(card);
            assert(card.cost()@.amount(crate::resources::Resource::Coins) >= 0);
        },
        _ => {},
    }
}

/// The number of cards that each player holds at least when the given turn starts, once the
/// cards of a new age are dealt.
pub open spec fn hand_size_in(turn: int) -> int {
    HAND_SIZE - turn % (TURNS_PER_AGE as int)
}

/// Hands that are dealt from a deck with seven cards for each player hold seven cards each.
proof fn lemma_dealt_hands(deck: Seq<Card>, count: int, players: Seq<Player>)
    requires
        players.len() == count,
        deck.len() == HAND_SIZE * count,
        hands_of(players) == dealt(deck, count),
    ensures
        forall|seat: int| 0 <= seat < count ==> (#[trigger] players[seat]).hand@.len() == HAND_SIZE,
{
    assert forall|seat: int| 0 <= seat < count implies (#[trigger] players[seat]).hand@.len() == HAND_SIZE by {
        assert(hands_of(players)[seat] == players[seat].hand@);
        assert(seat * HAND_SIZE + HAND_SIZE <= deck.len()) by (nonlinear_arith)
            requires
                0 <= seat < count,
                deck.len() == HAND_SIZE * count,
        ;
    }
}

/// The players with whom a turn starts are in the state of the middle of a turn in which nobody
/// has had a go yet.
proof fn lemma_turn_starts(
    before: Seq<Player>,
    start: Seq<Player>,
    played: Seq<Option<Card>>,
    turn: int,
    hand_size: int,
)
    requires
        0 <= turn,
        hand_size == hand_size_in(turn),
        start.len() == before.len(),
        played.len() == before.len(),
        forall|seat: int| 0 <= seat < played.len() ==> (#[trigger] played[seat]) is None,
        forall|seat: int| 0 <= seat < before.len() ==> player_sound(#[trigger] before[seat], turn),
        forall|seat: int| 0 <= seat < before.len() ==> same_board(#[trigger] before[seat], start[seat]),
        turn % (TURNS_PER_AGE as int) == 0 ==> forall|seat: int|
            0 <= seat < start.len() ==> (#[trigger] start[seat]).hand@.len() == HAND_SIZE,
        turn % (TURNS_PER_AGE as int) != 0 ==> start == before,
    ensures
        mid_turn(start, start, played, 0, turn, hand_size),
        1 < hand_size <= HAND_SIZE,
{
    assert forall|seat: int| 0 <= seat < start.len() implies mid_turn_player(
        start[seat],
        #[trigger] start[seat],
        played[seat],
        seat < 0,
        0,
        turn,
        hand_size,
    ) by {
        assert(player_sound(before[seat], turn));
        assert(same_board(before[seat], start[seat]));
    }
}

/// The player whose go it is is sound and holds at least one card.
proof fn lemma_seat_is_ready(
    start: Seq<Player>,
    now: Seq<Player>,
    played: Seq<Option<Card>>,
    index: int,
    turn: int,
    hand_size: int,
)
    requires
        mid_turn(start, now, played, index, turn, hand_size),
        0 <= index < now.len(),
        0 <= turn < TURNS_PER_GAME,
        1 < hand_size,
    ensures
        now[index].wf(),
        now[index].hand@.len() > 0,
{
    assert(mid_turn_player(start[index], now[index], played[index], false, index, turn, hand_size));
}

/// Whatever action the player whose go it is asks for: if it is legal, it is sound, and the
/// numbers that it changes stay within what the machine can hold.
proof fn lemma_action_fits(
    start: Seq<Player>,
    now: Seq<Player>,
    played: Seq<Option<Card>>,
    index: int,
    turn: int,
    hand_size: int,
    action: ActionView,
    public_players: Seq<PublicPlayer>,
)
    requires
        mid_turn(start, now, played, index, turn, hand_size),
        MIN_PLAYERS <= now.len() <= MAX_PLAYERS,
        public_players.len() == now.len(),
        0 <= index < now.len(),
        0 <= turn < TURNS_PER_GAME,
    ensures
        coin_cap(turn) + ACTION_GAIN * (index + 1) <= i32::MAX,
        legal_at(now[index], index, action, public_players) ==> now[index].fits(
            action,
            now[left_of(index, now.len() as int)].coins as int,
            now[right_of(index, now.len() as int)].coins as int,
        ),
        legal_at(now[index], index, action, public_players) ==> match action {
            ActionView::Build(card, borrowing) => {
                &&& now[index].hand@.contains(card)
                &&& card.cost().coins >= 0
                &&& card.cost().coins + BORROW_PRICE * borrowing.count() <= now[index].coins
                &&& borrowing.count() <= MAX_BORROWS
            },
            ActionView::Wonder(_, _) => false,
            ActionView::Discard(card) => now[index].hand@.contains(card),
        },
{
    let count = now.len() as int;
    let left = left_of(index, count);
    let right = right_of(index, count);
    lemma_neighbour_places(index, count);
    assert(coin_cap(turn) + ACTION_GAIN * (index + 1) <= i32::MAX) by (nonlinear_arith)
        requires
            0 <= turn < 18,
            0 <= index < 7,
            coin_cap(turn) == 3 + 336 * turn,
            ACTION_GAIN == 48,
    ;
    assert(mid_turn_player(start[index], now[index], played[index], false, index, turn, hand_size));
    assert(mid_turn_player(start[left], now[left], played[left], left < index, index, turn, hand_size));
    assert(mid_turn_player(start[right], now[right], played[right], right < index, index, turn, hand_size));
    if legal_at(now[index], index, action, public_players) {
        lemma_legal_is_sound(now[index], index, action, public_players);
        match action {
            ActionView::Build(card, borrowing) => {
                assert(borrowing.left.len() <= MAX_BORROWS && borrowing.right.len() <= MAX_BORROWS);
            },
            _ => {},
        }
    }
}

/// One more go makes a run of goes one longer.
proof fn lemma_run_goes_on(
    states: Seq<Seq<Player>>,
    piles: Seq<Seq<Card>>,
    actions: Seq<ActionView>,
    public_players: Seq<PublicPlayer>,
    after: Seq<Player>,
    pile_after: Seq<Card>,
    action: ActionView,
)
    requires
        is_run(states, piles, actions, public_players),
        is_go(states.last(), after, piles.last(), pile_after, actions.len() as int, action, public_players),
    ensures
        is_run(states.push(after), piles.push(pile_after), actions.push(action), public_players),
{
    let more_states = states.push(after);
    let more_piles = piles.push(pile_after);
    let more_actions = actions.push(action);
    assert forall|index: int| 0 <= index < more_actions.len() implies is_go(
        #[trigger] more_states[index],
        more_states[index + 1],
        more_piles[index],
        more_piles[index + 1],
        index,
        more_actions[index],
        public_players,
    ) by {
        if index < actions.len() {
            assert(is_go(
                states[index],
                states[index + 1],
                piles[index],
                piles[index + 1],
                index,
                actions[index],
                public_players,
            ));
        }
    }
}

/// When every player has had a go and the hands are passed on, the players are sound for the
/// next turn, and their hands are what is left of the hands from the start of the turn, passed on.
proof fn lemma_turn_ends(
    start: Seq<Player>,
    unpassed: Seq<Player>,
    passed: Seq<Player>,
    played: Seq<Option<Card>>,
    turn: u32,
    hand_size: int,
)
    requires
        MIN_PLAYERS <= start.len() <= MAX_PLAYERS,
        turn < TURNS_PER_GAME,
        hand_size == hand_size_in(turn as int),
        mid_turn(start, unpassed, played, start.len() as int, turn as int, hand_size),
        is_passed(unpassed, passed, age_of_turn(turn)),
    ensures
        forall|seat: int|
            0 <= seat < passed.len() ==> player_sound(#[trigger] passed[seat], turn + 1) && passed[seat].wonder
                == start[seat].wonder,
        hands_of(passed) == passed_on(hands_after_plays(hands_of(start), played), age_of_turn(turn)),
        forall|seat: int|
            0 <= seat < played.len() && (#[trigger] played[seat]) is Some ==> hands_of(start)[seat].contains(
                played[seat]->0,
            ),
{
    let count = start.len() as int;
    let age = age_of_turn(turn);
    assert(hands_of(unpassed) =~= hands_after_plays(hands_of(start), played)) by {
        assert forall|seat: int| 0 <= seat < count implies hands_of(unpassed)[seat] == hand_after_play(
            hands_of(start)[seat],
            played[seat],
        ) by {
            assert(mid_turn_player(
                start[seat],
                unpassed[seat],
                played[seat],
                seat < count,
                count,
                turn as int,
                hand_size,
            ));
        }
    }
    assert forall|seat: int|
        0 <= seat < played.len() && (#[trigger] played[seat]) is Some implies hands_of(start)[seat].contains(
        played[seat]->0,
    ) by {
        assert(mid_turn_player(
            start[seat],
            unpassed[seat],
            played[seat],
            seat < count,
            count,
            turn as int,
            hand_size,
        ));
    }
    assert forall|seat: int| 0 <= seat < passed.len() implies player_sound(#[trigger] passed[seat], turn + 1)
        && passed[seat].wonder == start[seat].wonder by {
        let from = if age == Age::Second {
            left_of(seat, count)
        } else {
            right_of(seat, count)
        };
        lemma_neighbour_places(seat, count);
        assert(same_board(unpassed[seat], passed[seat]));
        assert(hands_of(passed)[seat] == passed[seat].hand@);
        assert(hands_of(unpassed)[from] == unpassed[from].hand@);
        assert(mid_turn_player(
            start[seat],
            unpassed[seat],
            played[seat],
            seat < count,
            count,
            turn as int,
            hand_size,
        ));
        assert(mid_turn_player(
            start[from],
            unpassed[from],
            played[from],
            from < count,
            count,
            turn as int,
            hand_size,
        ));
        assert(coin_cap(turn as int) + ACTION_GAIN * count <= coin_cap(turn + 1)) by (nonlinear_arith)
            requires
                count <= 7,
                coin_cap(turn as int) == 3 + 336 * turn,
                coin_cap(turn + 1) == 3 + 336 * (turn + 1),
                ACTION_GAIN == 48,
        ;
    }
}

} // verus!
