//! A player: the wonder, the structures built, the coins, and the cards in hand.

use vstd::prelude::*;

use crate::action::Action;
use crate::action::ActionOptions;
use crate::action::ActionView;
use crate::action::Borrow;
use crate::action::Borrowing;
use crate::action::BorrowingView;
use crate::card::Card;
use crate::card::lemma_cost_is_small;
use crate::card::lemma_production_is_material;
use crate::chance::shuffle;
use crate::game::VisibleGame;
use crate::power::Power;
use crate::power::ProducedResources;
use crate::power::Production;
use crate::resolver::BORROW_PRICE;
use crate::resolver::Source;
use crate::resolver::Usable;
use crate::resolver::UsableResources;
use crate::resolver::add_choices;
use crate::resolver::all_options;
use crate::resolver::first_of;
use crate::resolver::resolve;
use crate::resolver::usable_of_cards;
use crate::resolver::usable_views;
use crate::resources::Basket;
use crate::resources::Cost;
use crate::resources::Resource;
use crate::wonder::WonderBoard;
use crate::wonder::WonderSide;
use crate::wonder::WonderType;

verus! {

/// The coins that a player starts the game with.
pub const STARTING_COINS: i32 = 3;

/// The coins that a player gets for discarding a card.
pub const DISCARD_COINS: i32 = 3;

/// The most structures that a player's board holds.
pub const MAX_STRUCTURES: usize = 1_000_000_000;

/// A player with everything that is the player's: the wonder, the structures and wonder stages
/// that the player has built, the coins, and the cards in hand.
#[derive(Debug)]
pub struct Player {
    pub wonder: WonderBoard,
    /// The structures that the player has built, in the order in which they were built.
    pub built_structures: Vec<Card>,
    /// The wonder stages that the player has built. No action builds one yet.
    pub built_wonder_stages: Vec<Option<Card>>,
    pub coins: i32,
    pub hand: Vec<Card>,
}

/// What is public knowledge of a player, since it lies on the table: the wonder, the structures
/// and the coins, but not the hand.
#[derive(Debug)]
pub struct PublicPlayer {
    pub wonder: WonderBoard,
    pub built_structures: Vec<Card>,
    pub coins: i32,
}

/// A list with the same cards in the same order.
pub fn copy_cards(cards: &Vec<Card>) -> (copy: Vec<Card>)
    ensures
        copy@ == cards@,
{
    let mut copy: Vec<Card> = Vec::new();
    let mut i: usize = 0;
    while i < cards.len()
        invariant
            i <= cards.len(),
            copy@ == cards@.take(i as int),
        decreases cards.len() - i,
    {
        copy.push(cards[i]);
        assert(cards@.take(i + 1) =~= cards@.take(i as int).push(cards@[i as int]));
        i = i + 1;
    }
    assert(cards@.take(cards.len() as int) =~= cards@);
    copy
}

impl PublicPlayer {
    /// What is seen of the player can be seen in the given turn of a game: the player has
    /// at most one structure for each turn so far, and coins within what those turns can have
    /// brought.
    pub open spec fn sound(&self, turn: u32) -> bool {
        &&& 0 <= self.coins <= crate::game::coin_cap(turn as int)
        &&& self.built_structures@.len() <= turn
    }

    /// Creates a [`PublicPlayer`] from a [`Player`], with copies of the values, so that the player can
    /// change afterwards.
    pub fn new(player: &Player) -> (public_player: PublicPlayer)
        ensures
            public_player.wonder == player.wonder,
            public_player.built_structures@ == player.built_structures@,
            public_player.coins == player.coins,
    {
        PublicPlayer {
            wonder: player.wonder,
            built_structures: copy_cards(&player.built_structures),
            coins: player.coins,
        }
    }
}

/// What is left of `owed` once everything that the given structures produce without a choice is
/// taken off: one unit for a single producer, two for a double producer.
pub open spec fn less_fixed_production(cards: Seq<Card>, owed: Basket) -> Basket
    decreases cards.len(),
{
    if cards.len() == 0 {
        owed
    } else {
        let rest = less_fixed_production(cards.drop_last(), owed);
        match cards.last().spec_power().production() {
            Some(Production::Single(resource)) => rest.minus(resource),
            Some(Production::Double(resource)) => rest.minus(resource).minus(resource),
            _ => rest,
        }
    }
}

impl Player {
    /// The player's board is one that a game can hold: the coins are not negative, and the
    /// structures can be counted.
    pub open spec fn wf(&self) -> bool {
        &&& self.coins >= 0
        &&& self.built_structures@.len() <= MAX_STRUCTURES
    }

    /// Creates a player at the start of a game: with the given wonder, the starting coins, no
    /// structures and no cards in hand.
    pub fn new(wonder_type: WonderType, wonder_side: WonderSide) -> (player: Player)
        ensures
            player.wf(),
            player.wonder == (WonderBoard { wonder_type, wonder_side }),
            player.built_structures@ == Seq::<Card>::empty(),
            player.built_wonder_stages@ == Seq::<Option<Card>>::empty(),
            player.coins == STARTING_COINS,
            player.hand@ == Seq::<Card>::empty(),
    {
        Player {
            wonder: WonderBoard { wonder_type, wonder_side },
            built_structures: Vec::new(),
            built_wonder_stages: Vec::new(),
            coins: STARTING_COINS,
            hand: Vec::new(),
        }
    }

    /// Creates a new player from what is public of a player, with the given hand. This is for
    /// playing algorithms that play a game through in advance.
    pub fn new_from_public(public_player: &PublicPlayer, hand: Vec<Card>) -> (player: Player)
        ensures
            player.wonder == public_player.wonder,
            player.built_structures@ == public_player.built_structures@,
            player.built_wonder_stages@ == Seq::<Option<Card>>::empty(),
            player.coins == public_player.coins,
            player.hand == hand,
    {
        Player {
            wonder: public_player.wonder,
            built_structures: copy_cards(&public_player.built_structures),
            built_wonder_stages: Vec::new(),
            coins: public_player.coins,
            hand,
        }
    }

    /// Returns the player's wonder.
    pub fn wonder(&self) -> (wonder: &WonderBoard)
        ensures
            *wonder == self.wonder,
    {
        &self.wonder
    }

    /// Returns the structures that the player has built.
    pub fn built_structures(&self) -> (cards: &Vec<Card>)
        ensures
            *cards == self.built_structures,
    {
        &self.built_structures
    }

    /// Returns the player's coins.
    pub fn coins(&self) -> (coins: i32)
        ensures
            coins == self.coins,
    {
        self.coins
    }

    /// Returns the cards in the player's hand.
    pub fn hand(&self) -> (cards: &Vec<Card>)
        ensures
            *cards == self.hand,
    {
        &self.hand
    }

    /// Replaces this player's hand with the given cards, and returns the hand that the player had
    /// before.
    pub fn swap_hand(&mut self, new_hand: Vec<Card>) -> (old_hand: Vec<Card>)
        ensures
            old_hand == old(self).hand,
            *final(self) == (Player { hand: new_hand, ..*old(self) }),
    {
        let mut hand = new_hand;
        std::mem::swap(&mut self.hand, &mut hand);
        hand
    }

    /// Adds the given coins to this player's total.
    pub fn add_coins(&mut self, coins: i32)
        requires
            i32::MIN <= old(self).coins + coins <= i32::MAX,
        ensures
            *final(self) == (Player { coins: (old(self).coins + coins) as i32, ..*old(self) }),
    {
        self.coins = self.coins + coins;
    }

    /// What the player still owes of `cost` once the wonder's starting resource, the coins, and
    /// everything that the built structures produce without a choice are taken off.
    pub open spec fn residual(&self, cost: Basket) -> Basket {
        less_fixed_production(
            self.built_structures@,
            cost.minus(self.wonder.starting_resource()).charge(-self.coins),
        )
    }

    /// Reduces `cost` by the player's coins, by the wonder's starting resource, and by what the built
    /// structures produce without a choice. Structures that give a choice of resources are not used.
    pub fn reduce_by_own_resources(&self, cost: &mut Cost)
        requires
            self.wf(),
            old(cost)@.within(0, i32::MAX as int),
        ensures
            final(cost)@ == self.residual(old(cost)@),
    {
        let ghost start = cost@.minus(self.wonder.starting_resource()).charge(-self.coins);
        proof {
            assert(cost@.amount(self.wonder.starting_resource()) >= 0);
            assert(cost@.amount(Resource::Coins) >= 0);
        }
        let starting = self.wonder.starting_resource();
        cost.sub_assign(&starting);
        cost.coins = cost.coins - self.coins;
        assert(cost@ == start);
        proof {
            assert forall|resource: Resource| resource != Resource::Coins implies #[trigger] start.amount(
                resource,
            ) >= -1 by {
                assert(old(cost)@.amount(resource) >= 0);
            }
        }
        let mut i: usize = 0;
        while i < self.built_structures.len()
            invariant
                i <= self.built_structures.len(),
                self.built_structures.len() <= MAX_STRUCTURES,
                cost@ == less_fixed_production(self.built_structures@.take(i as int), start),
                forall|resource: Resource|
                    resource != Resource::Coins ==> #[trigger] cost@.amount(resource) >= -1 - 2 * i,
            decreases self.built_structures.len() - i,
        {
            let card = self.built_structures[i];
            let ghost before = cost@;
            proof {
                assert(self.built_structures@.take(i + 1).drop_last() =~= self.built_structures@.take(
                    i as int,
                ));
                lemma_production_is_material(card);
            }
            match card.power() {
                Power::Producer(produced) | Power::PurchasableProducer(produced) => {
                    match produced {
                        ProducedResources::Single(resource) => {
                            assert(before.amount(resource) >= -1 - 2 * i);
                            cost.sub_assign(&resource);
                        },
                        ProducedResources::Double(resource) => {
                            assert(before.amount(resource) >= -1 - 2 * i);
                            cost.sub_assign(&resource);
                            cost.sub_assign(&resource);
                        },
                        ProducedResources::Choice(_) => {},
                    }
                },
                _ => {},
            }
            proof {
                assert forall|resource: Resource| resource != Resource::Coins implies #[trigger] cost@.amount(
                    resource,
                ) >= -1 - 2 * (i + 1) by {
                    assert(before.amount(resource) >= -1 - 2 * i);
                }
            }
            i = i + 1;
        }
        assert(self.built_structures@.take(self.built_structures.len() as int) =~= self.built_structures@);
    }

    /// The usable resources of the player's own for a cost of which `owed` is left: the structures
    /// that give a choice of resources.
    pub open spec fn own_usable(&self, owed: Basket) -> Seq<Usable> {
        usable_of_cards(self.built_structures@, owed, Source::Own)
    }

    /// Every action that builds `card`, for a player whose neighbours have built the structures
    /// `left` and `right`. Where the player's coins and what the player produces without a
    /// choice cover the cost, this is one action, which borrows nothing. Otherwise there is one
    /// action for each combination of own choices and borrowed units that pays the cost: see
    /// [`all_options`].
    pub open spec fn options(&self, card: Card, left: Seq<Card>, right: Seq<Card>) -> Seq<ActionView> {
        let owed = self.residual(card.cost()@);
        if owed.satisfied() {
            seq![ActionView::Build(card, BorrowingView::none())]
        } else {
            all_options(card, self.own_usable(owed) + neighbour_usable(owed, left, right), owed)
        }
    }

    /// What [`Player::options_for_card`] may return where a single option is asked for: as
    /// [`Player::options`], but with the player's own usable resources in some order, those of the
    /// neighbours in some order behind them, and the first action only.
    pub open spec fn is_single_option(
        &self,
        options: Seq<ActionView>,
        card: Card,
        left: Seq<Card>,
        right: Seq<Card>,
    ) -> bool {
        let owed = self.residual(card.cost()@);
        if owed.satisfied() {
            options == seq![ActionView::Build(card, BorrowingView::none())]
        } else {
            exists|own: Seq<Usable>, others: Seq<Usable>|
                {
                    &&& own.to_multiset() == self.own_usable(owed).to_multiset()
                    &&& others.to_multiset() == neighbour_usable(owed, left, right).to_multiset()
                    &&& options == first_of(#[trigger] all_options(card, own + others, owed))
                }
        }
    }

    /// Given a card and a [`VisibleGame`], returns the actions by which the player can build the
    /// card. Where the player can afford the card without borrowing, this is a single action,
    /// whichever of their own structures the player pays with. Where the player has to
    /// borrow, there is one action for each way of borrowing, so that the player can choose how
    /// many coins go to which neighbour.
    ///
    /// If the player cannot build the card, no action is returned.
    ///
    /// If `single_option` is `true`, at most one action is returned, picked at random from
    /// those that there are: the search goes through the usable resources in a random order and
    /// stops at the first way that works.
    ///
    /// Whether the card is in the player's hand plays no part.
    pub fn options_for_card(&self, card: &Card, visible_game: &VisibleGame, single_option: bool) -> (options:
        ActionOptions)
        requires
            self.wf(),
            visible_game.wf(),
        ensures
            !single_option ==> options@ == self.options(
                *card,
                visible_game.spec_left_neighbour().built_structures@,
                visible_game.spec_right_neighbour().built_structures@,
            ),
            single_option ==> self.is_single_option(
                options@,
                *card,
                visible_game.spec_left_neighbour().built_structures@,
                visible_game.spec_right_neighbour().built_structures@,
            ),
            self.residual(card.cost()@).satisfied() ==> options@ == seq![
                ActionView::Build(*card, BorrowingView::none()),
            ],
            single_option ==> options@.len() <= 1,
            options@.len() > 0 <==> self.options(
                *card,
                visible_game.spec_left_neighbour().built_structures@,
                visible_game.spec_right_neighbour().built_structures@,
            ).len() > 0,
            forall|i: int|
                0 <= i < options@.len() ==> is_offered(
                    #[trigger] options@[i],
                    self.options(
                        *card,
                        visible_game.spec_left_neighbour().built_structures@,
                        visible_game.spec_right_neighbour().built_structures@,
                    ),
                    *card,
                ),
            forall|i: int|
                0 <= i < options@.len() ==> self.sound_option(
                    #[trigger] options@[i],
                    *card,
                    visible_game.spec_left_neighbour().built_structures@,
                    visible_game.spec_right_neighbour().built_structures@,
                ),
    {
        let options = self.find_options(card, visible_game, single_option);
        proof {
            let left = visible_game.spec_left_neighbour().built_structures@;
            let right = visible_game.spec_right_neighbour().built_structures@;
            let all = self.options(*card, left, right);
            if single_option {
                self.lemma_single_option_found(options@, *card, left, right);
            }
            assert forall|i: int| 0 <= i < options@.len() implies is_offered(#[trigger] options@[i], all, *card)
                && self.sound_option(options@[i], *card, left, right) by {
                if single_option {
                    self.lemma_single_option_is_offered(options@, *card, left, right);
                } else {
                    self.lemma_options_sound(*card, left, right, i);
                    assert(builds_with(all[i], *card, all[i]->Build_1));
                }
                self.lemma_offered_is_sound(options@[i], *card, left, right);
            }
        }
        options
    }

    /// Finds the options for a card: see [`Player::options_for_card`].
    fn find_options(&self, card: &Card, visible_game: &VisibleGame, single_option: bool) -> (options: ActionOptions)
        requires
            self.wf(),
            visible_game.wf(),
        ensures
            !single_option ==> options@ == self.options(
                *card,
                visible_game.spec_left_neighbour().built_structures@,
                visible_game.spec_right_neighbour().built_structures@,
            ),
            single_option ==> self.is_single_option(
                options@,
                *card,
                visible_game.spec_left_neighbour().built_structures@,
                visible_game.spec_right_neighbour().built_structures@,
            ),
            self.residual(card.cost()@).satisfied() ==> options@ == seq![
                ActionView::Build(*card, BorrowingView::none()),
            ],
    {
        let ghost left = visible_game.spec_left_neighbour().built_structures@;
        let ghost right = visible_game.spec_right_neighbour().built_structures@;
        let mut cost = card.cost();
        proof {
            lemma_cost_is_small(*card);
            assert forall|resource: Resource| 0 <= #[trigger] cost@.amount(resource) <= i32::MAX by {
                assert(0 <= card.spec_cost()@.amount(resource) <= 3);
            }
        }
        self.reduce_by_own_resources(&mut cost);
        if cost.satisfied() {
            let actions: Vec<Action> = vec![Action::Build(*card, Borrowing::no_borrowing())];
            let options = ActionOptions { actions };
            assert(options@ =~= seq![ActionView::Build(*card, BorrowingView::none())]);
            return options;
        }
        let mut choices: Vec<UsableResources> = Vec::new();
        add_choices(&self.built_structures, &cost, Source::Own, &mut choices);
        let mut others: Vec<UsableResources> = Vec::new();
        add_choices(&visible_game.left_neighbour().built_structures, &cost, Source::LeftNeighbour, &mut others);
        add_choices(
            &visible_game.right_neighbour().built_structures,
            &cost,
            Source::RightNeighbour,
            &mut others,
        );
        proof {
            assert(usable_views(choices@) =~= self.own_usable(cost@));
            assert(usable_views(others@) =~= neighbour_usable(cost@, left, right));
        }
        let ghost own_sorted = choices@;
        let ghost others_sorted = others@;
        if single_option {
            shuffle(&mut choices);
            shuffle(&mut others);
            proof {
                lemma_views_of_reordered(own_sorted, choices@);
                lemma_views_of_reordered(others_sorted, others@);
            }
        }
        let ghost own = usable_views(choices@);
        let ghost rest = usable_views(others@);
        choices.append(&mut others);
        assert(usable_views(choices@) =~= own + rest);
        let actions = resolve(*card, &choices, &cost, single_option);
        ActionOptions { actions }
    }
}

/// The usable resources that the two neighbours sell for a cost of which `owed` is left, those of
/// the left neighbour first.
pub open spec fn neighbour_usable(owed: Basket, left: Seq<Card>, right: Seq<Card>) -> Seq<Usable> {
    usable_of_cards(left, owed, Source::LeftNeighbour) + usable_of_cards(right, owed, Source::RightNeighbour)
}

/// Usable resources that are put into another order have their views put into another order.
proof fn lemma_views_of_reordered(before: Seq<UsableResources>, after: Seq<UsableResources>)
    requires
        before.to_multiset() == after.to_multiset(),
    ensures
        usable_views(before).to_multiset() == usable_views(after).to_multiset(),
    decreases before.len(),
{
    broadcast use vstd::seq_lib::group_to_multiset_ensures;

    if before.len() == 0 {
        assert(before.to_multiset().len() == before.len());
        assert(after.to_multiset().len() == after.len());
        assert(usable_views(before) =~= usable_views(after));
    } else {
        let item = before.last();
        assert(before.contains(item));
        assert(after.to_multiset().count(item) > 0);
        assert(after.contains(item));
        let place = choose|place: int| 0 <= place < after.len() && after[place] == item;
        let fewer_before = before.drop_last();
        let fewer_after = after.remove(place);
        assert(fewer_before =~= before.remove(before.len() - 1));
        assert(fewer_before.to_multiset() =~= fewer_after.to_multiset());
        lemma_views_of_reordered(fewer_before, fewer_after);
        assert(usable_views(before) =~= usable_views(fewer_before).push(item@));
        assert(usable_views(after) =~= usable_views(fewer_after).insert(place, item@));
    }
}

/// True if the option builds `card` with the borrows of `borrowing`, in whatever order.
pub open spec fn builds_with(option: ActionView, card: Card, borrowing: BorrowingView) -> bool {
    option matches ActionView::Build(built, offered) && built == card && offered.same_borrows(borrowing)
}

/// True if one of the options builds `card` with the borrows of `borrowing`, in whatever order.
pub open spec fn offers(options: Seq<ActionView>, card: Card, borrowing: BorrowingView) -> bool {
    exists|i: int| 0 <= i < options.len() && builds_with(#[trigger] options[i], card, borrowing)
}

/// True if the option builds `card` with borrows that one of the options `all` has too, in
/// whatever order.
pub open spec fn is_offered(option: ActionView, all: Seq<ActionView>, card: Card) -> bool {
    option matches ActionView::Build(built, borrowing) && built == card && offers(all, card, borrowing)
}

/// Every borrow names a structure that is among `structures`.
pub open spec fn borrows_present(borrows: Seq<Borrow>, structures: Seq<Card>) -> bool {
    forall|i: int| 0 <= i < borrows.len() ==> structures.contains((#[trigger] borrows[i]).card)
}

/// The hand once the first `card` in it is taken out: the last card of the hand takes its place.
pub open spec fn hand_without(hand: Seq<Card>, card: Card) -> Seq<Card> {
    let place = hand.index_of_first(card)->0;
    hand.update(place, hand.last()).drop_last()
}

/// Returns the place of the first `card` among `cards`, if there is one.
pub fn position(cards: &Vec<Card>, card: &Card) -> (place: Option<usize>)
    ensures
        match place {
            Some(place) => {
                &&& place < cards@.len()
                &&& cards@[place as int] == *card
                &&& cards@.contains(*card)
                &&& cards@.index_of_first(*card) == Some(place as int)
            },
            None => !cards@.contains(*card),
        },
{
    let mut i: usize = 0;
    while i < cards.len()
        invariant
            i <= cards.len(),
            forall|k: int| 0 <= k < i ==> cards@[k] != *card,
        decreases cards.len() - i,
    {
        if cards[i] == *card {
            proof {
                cards@.index_of_first_ensures(*card);
                assert(cards@.contains(*card));
            }
            return Some(i);
        }
        i = i + 1;
    }
    None
}

/// Returns true if every borrow names a structure that is among `structures`.
fn check_borrows_present(borrows: &Vec<Borrow>, structures: &Vec<Card>) -> (yes: bool)
    ensures
        yes == borrows_present(borrows@, structures@),
{
    let mut i: usize = 0;
    while i < borrows.len()
        invariant
            i <= borrows.len(),
            forall|k: int| 0 <= k < i ==> structures@.contains((#[trigger] borrows@[k]).card),
        decreases borrows.len() - i,
    {
        let card = borrows[i].card;
        if position(structures, &card).is_none() {
            return false;
        }
        i = i + 1;
    }
    true
}

impl Player {
    /// True if the player may build `card` with `borrowing`: the card is in the player's hand, every
    /// borrow names a structure that the neighbour in question has built, and the borrowing is
    /// that of one of the player's options for the card, in whatever order it lists the borrows.
    pub open spec fn can_build(
        &self,
        card: Card,
        borrowing: BorrowingView,
        left: Seq<Card>,
        right: Seq<Card>,
    ) -> bool {
        &&& self.hand@.contains(card)
        &&& borrows_present(borrowing.left, left)
        &&& borrows_present(borrowing.right, right)
        &&& offers(self.options(card, left, right), card, borrowing)
    }

    /// True if the action is legal for the player, whose neighbours have built the structures
    /// `left` and `right`. A card can be discarded if it is in the player's hand. No wonder stage
    /// can be built.
    pub open spec fn can_play_spec(&self, action: ActionView, left: Seq<Card>, right: Seq<Card>) -> bool {
        match action {
            ActionView::Build(card, borrowing) => self.can_build(card, borrowing, left, right),
            ActionView::Wonder(_, _) => false,
            ActionView::Discard(card) => self.hand@.contains(card),
        }
    }

    /// Returns `true` if the action is legal for the player: see [`Player::can_play_spec`].
    pub fn can_play(&self, action: &Action, visible_game: &VisibleGame) -> (yes: bool)
        requires
            self.wf(),
            visible_game.wf(),
        ensures
            yes == self.can_play_spec(
                action@,
                visible_game.spec_left_neighbour().built_structures@,
                visible_game.spec_right_neighbour().built_structures@,
            ),
    {
        match action {
            Action::Build(card, borrowing) => self.can_play_card(card, borrowing, visible_game),
            Action::Wonder(_, _) => false,
            Action::Discard(card) => position(&self.hand, card).is_some(),
        }
    }

    /// Returns `true` if the player may build the card with the given borrowing: see
    /// [`Player::can_build`].
    pub fn can_play_card(&self, card: &Card, borrowing: &Borrowing, visible_game: &VisibleGame) -> (yes: bool)
        requires
            self.wf(),
            visible_game.wf(),
        ensures
            yes == self.can_build(
                *card,
                borrowing@,
                visible_game.spec_left_neighbour().built_structures@,
                visible_game.spec_right_neighbour().built_structures@,
            ),
    {
        // Can't play if the player doesn't have the card in hand.
        if position(&self.hand, card).is_none() {
            return false;
        }
        // Can't borrow from a structure that is not there.
        if !check_borrows_present(&borrowing.left, &visible_game.left_neighbour().built_structures) {
            return false;
        }
        if !check_borrows_present(&borrowing.right, &visible_game.right_neighbour().built_structures) {
            return false;
        }
        // The borrowing has to be one of those that pay for the card.
        let options = self.options_for_card(card, visible_game, false);
        let ghost left = visible_game.spec_left_neighbour().built_structures@;
        let ghost right = visible_game.spec_right_neighbour().built_structures@;
        let mut i: usize = 0;
        while i < options.actions.len()
            invariant
                i <= options.actions.len(),
                left == visible_game.spec_left_neighbour().built_structures@,
                right == visible_game.spec_right_neighbour().built_structures@,
                self.hand@.contains(*card),
                borrows_present(borrowing@.left, left),
                borrows_present(borrowing@.right, right),
                options@ == self.options(*card, left, right),
                forall|k: int| 0 <= k < i ==> !builds_with(#[trigger] options@[k], *card, borrowing@),
            decreases options.actions.len() - i,
        {
            assert(options@[i as int] == options.actions@[i as int]@);
            if let Action::Build(built, offered) = &options.actions[i] {
                if *built == *card && offered.same_borrows(borrowing) {
                    proof {
                        assert(self.options(*card, left, right)[i as int] == options@[i as int]);
                    }
                    return true;
                }
            }
            i = i + 1;
        }
        false
    }
}

impl Player {
    /// The numbers that the action changes stay within what the machine can hold: the coins of the
    /// player who discards, the coins of the neighbours who are paid, and the number of structures
    /// of the player who builds.
    pub open spec fn fits(&self, action: ActionView, left_coins: int, right_coins: int) -> bool {
        match action {
            ActionView::Build(_, borrowing) => {
                &&& self.built_structures@.len() < MAX_STRUCTURES
                &&& left_coins + BORROW_PRICE * borrowing.left.len() <= i32::MAX
                &&& right_coins + BORROW_PRICE * borrowing.right.len() <= i32::MAX
            },
            ActionView::Wonder(_, _) => true,
            ActionView::Discard(_) => self.coins + DISCARD_COINS <= i32::MAX,
        }
    }

    /// True if `self` is what `before` becomes by the legal action `action`. To build a card moves
    /// it from the hand to the built structures and takes the coins that the card costs, and
    /// the price of each borrowed unit, off the player's coins. To discard a card takes it out of
    /// the hand and adds the coins that a discarded card brings.
    pub open spec fn is_after(&self, before: Player, action: ActionView) -> bool {
        &&& self.wonder == before.wonder
        &&& self.built_wonder_stages == before.built_wonder_stages
        &&& match action {
            ActionView::Build(card, borrowing) => {
                &&& self.hand@ == hand_without(before.hand@, card)
                &&& self.built_structures@ == before.built_structures@.push(card)
                &&& self.coins == before.coins - card.cost().coins - BORROW_PRICE * borrowing.count()
            },
            ActionView::Wonder(_, _) => {
                &&& self.hand@ == before.hand@
                &&& self.built_structures@ == before.built_structures@
                &&& self.coins == before.coins
            },
            ActionView::Discard(card) => {
                &&& self.hand@ == hand_without(before.hand@, card)
                &&& self.built_structures@ == before.built_structures@
                &&& self.coins == before.coins + DISCARD_COINS
            },
        }
    }

    /// The coins that the action pays to the left neighbour.
    pub open spec fn paid_left(action: ActionView) -> int {
        match action {
            ActionView::Build(_, borrowing) => BORROW_PRICE * borrowing.left.len(),
            _ => 0,
        }
    }

    /// The coins that the action pays to the right neighbour.
    pub open spec fn paid_right(action: ActionView) -> int {
        match action {
            ActionView::Build(_, borrowing) => BORROW_PRICE * borrowing.right.len(),
            _ => 0,
        }
    }

    /// The discard pile after the legal action `action`.
    pub open spec fn pile_after(pile: Seq<Card>, action: ActionView) -> Seq<Card> {
        match action {
            ActionView::Discard(card) => pile.push(card),
            _ => pile,
        }
    }

    /// Performs the given [`Action`] on the current player, for example moving a card from the
    /// player's hand into the player's built structures. Returns `true` if the action is legal,
    /// `false` otherwise, in which case nothing changes.
    ///
    /// `left_player` and `right_player` are the neighbours, who get the price of what is borrowed
    /// from them.
    pub fn do_action(
        &mut self,
        action: &Action,
        visible_game: &VisibleGame,
        left_player: &mut Player,
        right_player: &mut Player,
        discard_pile: &mut Vec<Card>,
    ) -> (done: bool)
        requires
            old(self).wf(),
            visible_game.wf(),
            old(self).can_play_spec(
                action@,
                visible_game.spec_left_neighbour().built_structures@,
                visible_game.spec_right_neighbour().built_structures@,
            ) ==> old(self).fits(action@, old(left_player).coins as int, old(right_player).coins as int),
        ensures
            done == old(self).can_play_spec(
                action@,
                visible_game.spec_left_neighbour().built_structures@,
                visible_game.spec_right_neighbour().built_structures@,
            ),
            done ==> final(self).is_after(*old(self), action@),
            done ==> *final(left_player) == (Player {
                coins: (old(left_player).coins + Player::paid_left(action@)) as i32,
                ..*old(left_player)
            }),
            done ==> *final(right_player) == (Player {
                coins: (old(right_player).coins + Player::paid_right(action@)) as i32,
                ..*old(right_player)
            }),
            done ==> final(discard_pile)@ == Player::pile_after(old(discard_pile)@, action@),
            !done ==> *final(self) == *old(self),
            !done ==> *final(left_player) == *old(left_player),
            !done ==> *final(right_player) == *old(right_player),
            !done ==> *final(discard_pile) == *old(discard_pile),
            final(self).wf(),
    {
        if self.can_play(action, visible_game) {
            match action {
                Action::Build(card, borrowing) => {
                    let ghost left = visible_game.spec_left_neighbour().built_structures@;
                    let ghost right = visible_game.spec_right_neighbour().built_structures@;
                    proof {
                        self.lemma_legal_build_is_sound(*card, borrowing@, left, right);
                        lemma_cost_is_small(*card);
                        assert(card.spec_cost()@.amount(Resource::Coins) >= 0);
                    }
                    let place = position(&self.hand, card);
                    let index: usize = place.unwrap();
                    let card_from_hand = self.hand.swap_remove(index);
                    self.built_structures.push(card_from_hand);
                    let lent_left: i32 = borrowing.left.len() as i32 * BORROW_PRICE;
                    let lent_right: i32 = borrowing.right.len() as i32 * BORROW_PRICE;
                    self.coins = self.coins - card_from_hand.cost().coins;
                    self.coins = self.coins - (lent_left + lent_right);
                    left_player.add_coins(lent_left);
                    right_player.add_coins(lent_right);
                },
                Action::Wonder(_, _) => {},
                Action::Discard(card) => {
                    let place = position(&self.hand, card);
                    let index: usize = place.unwrap();
                    let card_from_hand = self.hand.swap_remove(index);
                    discard_pile.push(card_from_hand);
                    self.coins = self.coins + DISCARD_COINS;
                },
            }
            true
        } else {
            false
        }
    }
}

} // verus!
