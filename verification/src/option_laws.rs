//! What holds of the ways to pay for a card: that every option of a player is sound and legal, that
//! nothing out of reach has an option, and that it makes no difference in which order the usable
//! resources are gone through.

use vstd::prelude::*;

use crate::action::ActionView;
use crate::action::Borrow;
use crate::action::BorrowingView;
use crate::card::Card;
use crate::card::lemma_cost_is_small;
use crate::card::lemma_production_is_material;
use crate::player::Player;
use crate::player::builds_with;
use crate::player::is_offered;
use crate::player::less_fixed_production;
use crate::player::neighbour_usable;
use crate::player::offers;
use crate::power::Production;
use crate::regrouping::lemma_options_in_any_order;
use crate::resolver::BORROW_PRICE;
use crate::resolver::Source;
use crate::resolver::Tally;
use crate::resolver::Usable;
use crate::resolver::all_options;
use crate::resolver::first_of;
use crate::resolver::needed;
use crate::resolver::picks_in_range;
use crate::resolver::usable_of_card;
use crate::resolver::usable_of_cards;
use crate::resolver::use_units;
use crate::resources::Basket;
use crate::resources::Resource;
use crate::tally_laws::all_material;
use crate::tally_laws::borrowed_from;
use crate::tally_laws::lemma_option_origin;
use crate::tally_laws::lemma_use_units_at_least;
use crate::tally_laws::lemma_use_units_sound;
use crate::tally_laws::on_offer;
use crate::tally_laws::own_first;
use crate::tally_laws::tally_sound;
use crate::tally_laws::units_of;

verus! {

/// The borrow names a structure among `structures` whose resources can be bought, and a resource
/// that it produces.
pub open spec fn sold_by(borrow: Borrow, structures: Seq<Card>) -> bool {
    &&& structures.contains(borrow.card)
    &&& borrow.card.spec_power().purchasable() matches Some(production)
    &&& production.yields(borrow.resource)
}

/// The usable resource comes from one of `cards`, as `source` has them: it offers at least one
/// resource, every resource that it offers is owed and produced by its card, none is coins, and
/// for a neighbour the card is one whose resources can be bought.
pub open spec fn offered_by(entry: Usable, cards: Seq<Card>, owed: Basket, source: Source) -> bool {
    &&& entry.source == source
    &&& cards.contains(entry.card)
    &&& entry.resources.len() > 0
    &&& !entry.resources.contains(Resource::Coins)
    &&& forall|i: int| 0 <= i < entry.resources.len() ==> owed.has(#[trigger] entry.resources[i])
    &&& source != Source::Own ==> forall|i: int|
        0 <= i < entry.resources.len() ==> sold_by(
            Borrow { card: entry.card, resource: #[trigger] entry.resources[i] },
            cards,
        )
}

/// The resources that are kept as needed are among those that were offered, and all are owed.
proof fn lemma_needed(resources: Seq<Resource>, cost: Basket)
    ensures
        forall|i: int|
            0 <= i < needed(resources, cost).len() ==> cost.has(#[trigger] needed(resources, cost)[i])
                && resources.contains(needed(resources, cost)[i]),
    decreases resources.len(),
{
    if resources.len() > 0 {
        let fewer = resources.drop_last();
        lemma_needed(fewer, cost);
        assert forall|i: int| 0 <= i < needed(resources, cost).len() implies cost.has(
            #[trigger] needed(resources, cost)[i],
        ) && resources.contains(needed(resources, cost)[i]) by {
            if i < needed(fewer, cost).len() {
                let kept = needed(fewer, cost)[i];
                assert(fewer.contains(kept));
                let place = choose|place: int| 0 <= place < fewer.len() && fewer[place] == kept;
                assert(resources[place] == kept);
            } else {
                assert(resources[resources.len() - 1] == resources.last());
            }
        }
    }
}

/// Every usable resource that a card adds comes from that card.
proof fn lemma_usable_of_card(card: Card, owed: Basket, source: Source, k: int)
    requires
        0 <= k < usable_of_card(card, owed, source).len(),
    ensures
        offered_by(usable_of_card(card, owed, source)[k], seq![card], owed, source),
{
    let entry = usable_of_card(card, owed, source)[k];
    lemma_production_is_material(card);
    assert(seq![card][0] == card);
    let offered = if source == Source::Own {
        card.spec_power().production()
    } else {
        card.spec_power().purchasable()
    };
    match offered {
        Some(Production::Choice(resources)) => {
            lemma_needed(resources, owed);
            assert(card.spec_power().production() == Some(Production::Choice(resources)));
            assert forall|i: int| 0 <= i < entry.resources.len() implies resources.contains(
                #[trigger] entry.resources[i],
            ) by {}
            if entry.resources.contains(Resource::Coins) {
                let i = choose|i: int| 0 <= i < entry.resources.len() && entry.resources[i] == Resource::Coins;
                assert(resources.contains(entry.resources[i]));
            }
        },
        Some(Production::Single(resource)) => {
            assert(entry.resources =~= seq![resource]);
            assert(card.spec_power().production() == Some(Production::Single(resource)));
            if entry.resources.contains(Resource::Coins) {
                let i = choose|i: int| 0 <= i < entry.resources.len() && entry.resources[i] == Resource::Coins;
            }
        },
        Some(Production::Double(resource)) => {
            assert(entry.resources =~= seq![resource]);
            assert(card.spec_power().production() == Some(Production::Double(resource)));
            if entry.resources.contains(Resource::Coins) {
                let i = choose|i: int| 0 <= i < entry.resources.len() && entry.resources[i] == Resource::Coins;
            }
        },
        None => {},
    }
}

/// Every usable resource that a list of cards adds comes from one of the cards.
pub proof fn lemma_usable_of_cards(cards: Seq<Card>, owed: Basket, source: Source, k: int)
    requires
        0 <= k < usable_of_cards(cards, owed, source).len(),
    ensures
        offered_by(usable_of_cards(cards, owed, source)[k], cards, owed, source),
    decreases cards.len(),
{
    if cards.len() > 0 {
        let fewer = cards.drop_last();
        let before = usable_of_cards(fewer, owed, source);
        let entry = usable_of_cards(cards, owed, source)[k];
        if k < before.len() {
            lemma_usable_of_cards(fewer, owed, source, k);
            assert(fewer.contains(entry.card));
            let place = choose|place: int| 0 <= place < fewer.len() && fewer[place] == entry.card;
            assert(cards[place] == entry.card);
        } else {
            lemma_usable_of_card(cards.last(), owed, source, k - before.len());
            assert(cards[cards.len() - 1] == entry.card);
        }
    }
}

/// What the structures produce without a choice is never coins, so it leaves the coins owed as
/// they are.
proof fn lemma_fixed_production_keeps_coins(cards: Seq<Card>, owed: Basket)
    ensures
        less_fixed_production(cards, owed).coins == owed.coins,
    decreases cards.len(),
{
    if cards.len() > 0 {
        lemma_fixed_production_keeps_coins(cards.drop_last(), owed);
        lemma_production_is_material(cards.last());
    }
}

impl Player {
    /// The usable resources that [`Player::options`] goes through.
    pub open spec fn usable(&self, owed: Basket, left: Seq<Card>, right: Seq<Card>) -> Seq<Usable> {
        self.own_usable(owed) + neighbour_usable(owed, left, right)
    }

    /// The coins that the player owes of `card` before anything is borrowed are the card's coins
    /// less the player's own, unless the wonder starts with coins, which none does.
    pub proof fn lemma_residual_coins(&self, card: Card)
        ensures
            self.residual(card.cost()@).coins == card.cost().coins - self.coins,
    {
        let start = card.cost()@.minus(self.wonder.starting_resource()).charge(-self.coins);
        lemma_fixed_production_keeps_coins(self.built_structures@, start);
    }

    /// The usable resources are the player's own first, then those that the left neighbour sells,
    /// then those that the right neighbour sells.
    pub proof fn lemma_usable(&self, owed: Basket, left: Seq<Card>, right: Seq<Card>)
        ensures
            all_material(self.usable(owed, left, right)),
            own_first(self.usable(owed, left, right)),
            forall|k: int|
                0 <= k < self.usable(owed, left, right).len() ==> {
                    let entry = #[trigger] self.usable(owed, left, right)[k];
                    ||| offered_by(entry, self.built_structures@, owed, Source::Own)
                    ||| offered_by(entry, left, owed, Source::LeftNeighbour)
                    ||| offered_by(entry, right, owed, Source::RightNeighbour)
                },
    {
        let own = self.own_usable(owed);
        let from_left = usable_of_cards(left, owed, Source::LeftNeighbour);
        let from_right = usable_of_cards(right, owed, Source::RightNeighbour);
        let all = self.usable(owed, left, right);
        assert(all =~= own + from_left + from_right);
        assert forall|k: int| 0 <= k < all.len() implies {
            let entry = #[trigger] all[k];
            ||| offered_by(entry, self.built_structures@, owed, Source::Own)
            ||| offered_by(entry, left, owed, Source::LeftNeighbour)
            ||| offered_by(entry, right, owed, Source::RightNeighbour)
        } by {
            if k < own.len() {
                lemma_usable_of_cards(self.built_structures@, owed, Source::Own, k);
            } else if k < own.len() + from_left.len() {
                lemma_usable_of_cards(left, owed, Source::LeftNeighbour, k - own.len());
            } else {
                lemma_usable_of_cards(right, owed, Source::RightNeighbour, k - own.len() - from_left.len());
            }
        }
        assert forall|j: int, k: int|
            0 <= j < k < all.len() && (#[trigger] all[k]).source == Source::Own implies (#[trigger] all[j]).source
            == Source::Own by {
            if k < own.len() {
                lemma_usable_of_cards(self.built_structures@, owed, Source::Own, j);
            } else if k < own.len() + from_left.len() {
                lemma_usable_of_cards(left, owed, Source::LeftNeighbour, k - own.len());
            } else {
                lemma_usable_of_cards(right, owed, Source::RightNeighbour, k - own.len() - from_left.len());
            }
        }
        assert forall|k: int| 0 <= k < all.len() implies !(#[trigger] all[k]).resources.contains(
            Resource::Coins,
        ) by {
            if k < own.len() {
                lemma_usable_of_cards(self.built_structures@, owed, Source::Own, k);
            } else if k < own.len() + from_left.len() {
                lemma_usable_of_cards(left, owed, Source::LeftNeighbour, k - own.len());
            } else {
                lemma_usable_of_cards(right, owed, Source::RightNeighbour, k - own.len() - from_left.len());
            }
        }
    }

    /// What holds of every borrowing among the player's options for `card`: the player has the
    /// coins for the card and for the borrowed units, every borrowed unit is one that the
    /// neighbour in question sells, and of no resource is more borrowed than the player owes.
    pub open spec fn sound_borrowing(
        &self,
        card: Card,
        borrowing: BorrowingView,
        left: Seq<Card>,
        right: Seq<Card>,
    ) -> bool {
        let owed = self.residual(card.cost()@);
        &&& card.cost().coins + BORROW_PRICE * borrowing.count() <= self.coins
        &&& forall|i: int| 0 <= i < borrowing.left.len() ==> sold_by(#[trigger] borrowing.left[i], left)
        &&& forall|i: int| 0 <= i < borrowing.right.len() ==> sold_by(#[trigger] borrowing.right[i], right)
        &&& forall|i: int| 0 <= i < borrowing.left.len() ==> owed.has((#[trigger] borrowing.left[i]).resource)
        &&& forall|i: int|
            0 <= i < borrowing.right.len() ==> owed.has((#[trigger] borrowing.right[i]).resource)
        &&& forall|resource: Resource|
            units_of(borrowing.left, resource) + units_of(borrowing.right, resource) > 0 ==> units_of(
                borrowing.left,
                resource,
            ) + units_of(borrowing.right, resource) <= #[trigger] owed.amount(resource)
    }

    /// Every action among the player's options builds the card, and its borrowing is sound: see
    /// [`Player::sound_borrowing`].
    pub proof fn lemma_options_sound(&self, card: Card, left: Seq<Card>, right: Seq<Card>, i: int)
        requires
            0 <= i < self.options(card, left, right).len(),
        ensures
            self.options(card, left, right)[i] matches ActionView::Build(built, borrowing) && built == card
                && self.sound_borrowing(card, borrowing, left, right),
    {
        let owed = self.residual(card.cost()@);
        self.lemma_residual_coins(card);
        if owed.satisfied() {
            assert(owed.amount(Resource::Coins) <= 0);
            assert forall|resource: Resource|
                units_of(Seq::<Borrow>::empty(), resource) + units_of(Seq::<Borrow>::empty(), resource)
                    > 0 implies false by {}
        } else {
            let entries = self.usable(owed, left, right);
            self.lemma_usable(owed, left, right);
            lemma_option_origin(card, entries, owed, i);
            let picks = choose|picks: Seq<int>|
                {
                    &&& picks_in_range(entries, picks)
                    &&& #[trigger] use_units(entries, picks, Tally::start(owed)) matches Some(tally)
                    &&& tally.owed.satisfied()
                    &&& all_options(card, entries, owed)[i] == ActionView::Build(card, tally.borrowing())
                };
            lemma_use_units_sound(entries, picks, owed);
            let tally = use_units(entries, picks, Tally::start(owed))->0;
            assert(tally_sound(entries, owed, tally));
            assert(tally.owed.amount(Resource::Coins) <= 0);
            assert(BORROW_PRICE * (tally.left.len() + tally.right.len()) == BORROW_PRICE * tally.borrowing().count());
            assert forall|j: int| 0 <= j < tally.left.len() implies sold_by(#[trigger] tally.left[j], left)
                && owed.has(tally.left[j].resource) by {
                let borrow = tally.left[j];
                assert(borrowed_from(borrow, entries, Source::LeftNeighbour));
                let k = choose|k: int|
                    0 <= k < entries.len() && (#[trigger] entries[k]).source == Source::LeftNeighbour
                        && entries[k].card == borrow.card && entries[k].resources.contains(borrow.resource);
                let entry = entries[k];
                assert(offered_by(entry, left, owed, Source::LeftNeighbour));
                let place = choose|place: int|
                    0 <= place < entry.resources.len() && entry.resources[place] == borrow.resource;
                assert(sold_by(Borrow { card: entry.card, resource: entry.resources[place] }, left));
                assert(owed.has(entry.resources[place]));
            }
            assert forall|j: int| 0 <= j < tally.right.len() implies sold_by(#[trigger] tally.right[j], right)
                && owed.has(tally.right[j].resource) by {
                let borrow = tally.right[j];
                assert(borrowed_from(borrow, entries, Source::RightNeighbour));
                let k = choose|k: int|
                    0 <= k < entries.len() && (#[trigger] entries[k]).source == Source::RightNeighbour
                        && entries[k].card == borrow.card && entries[k].resources.contains(borrow.resource);
                let entry = entries[k];
                assert(offered_by(entry, right, owed, Source::RightNeighbour));
                let place = choose|place: int|
                    0 <= place < entry.resources.len() && entry.resources[place] == borrow.resource;
                assert(sold_by(Borrow { card: entry.card, resource: entry.resources[place] }, right));
                assert(owed.has(entry.resources[place]));
            }
            assert forall|resource: Resource|
                units_of(tally.left, resource) + units_of(tally.right, resource) > 0 implies units_of(
                tally.left,
                resource,
            ) + units_of(tally.right, resource) <= #[trigger] owed.amount(resource) by {
                assert(tally.owed.amount(resource) >= 0);
                if resource == Resource::Coins {
                    lemma_no_coins_borrowed(tally.left, entries, Source::LeftNeighbour);
                    lemma_no_coins_borrowed(tally.right, entries, Source::RightNeighbour);
                }
            }
        }
    }
}

/// Borrows from usable resources that offer no coins hold no unit of coins.
proof fn lemma_no_coins_borrowed(borrows: Seq<Borrow>, entries: Seq<Usable>, source: Source)
    requires
        all_material(entries),
        forall|i: int| 0 <= i < borrows.len() ==> borrowed_from(#[trigger] borrows[i], entries, source),
    ensures
        units_of(borrows, Resource::Coins) == 0,
    decreases borrows.len(),
{
    if borrows.len() > 0 {
        let fewer = borrows.drop_last();
        assert forall|i: int| 0 <= i < fewer.len() implies borrowed_from(
            #[trigger] fewer[i],
            entries,
            source,
        ) by {
            assert(fewer[i] == borrows[i]);
        }
        lemma_no_coins_borrowed(fewer, entries, source);
        let borrow = borrows[borrows.len() - 1];
        assert(borrowed_from(borrow, entries, source));
        let k = choose|k: int|
            0 <= k < entries.len() && (#[trigger] entries[k]).source == source && entries[k].card
                == borrow.card && entries[k].resources.contains(borrow.resource);
        assert(!entries[k].resources.contains(Resource::Coins));
    }
}

/// The most units that one action can borrow: three of each kind of resource.
pub const MAX_BORROWS: usize = 24;

/// The borrows are as many as the units of the eight kinds of resources among them.
proof fn lemma_units_total(borrows: Seq<Borrow>)
    ensures
        borrows.len() == units_of(borrows, Resource::Wood) + units_of(borrows, Resource::Stone) + units_of(
            borrows,
            Resource::Ore,
        ) + units_of(borrows, Resource::Clay) + units_of(borrows, Resource::Glass) + units_of(
            borrows,
            Resource::Loom,
        ) + units_of(borrows, Resource::Papyrus) + units_of(borrows, Resource::Coins),
        forall|resource: Resource| units_of(borrows, resource) >= 0,
    decreases borrows.len(),
{
    if borrows.len() > 0 {
        lemma_units_total(borrows.drop_last());
    }
}

/// What the structures produce without a choice only ever lowers what is owed.
proof fn lemma_fixed_production_lowers(cards: Seq<Card>, owed: Basket)
    ensures
        forall|resource: Resource|
            #[trigger] less_fixed_production(cards, owed).amount(resource) <= owed.amount(resource),
    decreases cards.len(),
{
    if cards.len() > 0 {
        lemma_fixed_production_lowers(cards.drop_last(), owed);
        let rest = less_fixed_production(cards.drop_last(), owed);
        assert forall|resource: Resource|
            #[trigger] less_fixed_production(cards, owed).amount(resource) <= owed.amount(resource) by {
            assert(rest.amount(resource) <= owed.amount(resource));
        }
    }
}

impl Player {
    /// A player with coins that are not negative owes of no resource more than the card costs, which
    /// is three at most.
    pub proof fn lemma_residual_is_small(&self, card: Card)
        requires
            self.coins >= 0,
        ensures
            forall|resource: Resource| #[trigger] self.residual(card.cost()@).amount(resource) <= 3,
    {
        let cost = card.cost()@;
        let start = cost.minus(self.wonder.starting_resource()).charge(-self.coins);
        lemma_cost_is_small(card);
        lemma_fixed_production_lowers(self.built_structures@, start);
        assert forall|resource: Resource| #[trigger] self.residual(cost).amount(resource) <= 3 by {
            assert(less_fixed_production(self.built_structures@, start).amount(resource) <= start.amount(
                resource,
            ));
            assert(0 <= cost.amount(resource) <= 3);
            assert(0 <= cost.amount(Resource::Coins) <= 3);
        }
    }

    /// A sound borrowing borrows no more than three units of each kind of resource.
    pub proof fn lemma_sound_borrowing_is_short(
        &self,
        card: Card,
        borrowing: BorrowingView,
        left: Seq<Card>,
        right: Seq<Card>,
    )
        requires
            self.coins >= 0,
            self.sound_borrowing(card, borrowing, left, right),
        ensures
            borrowing.count() <= MAX_BORROWS,
    {
        let owed = self.residual(card.cost()@);
        self.lemma_residual_is_small(card);
        lemma_units_total(borrowing.left);
        lemma_units_total(borrowing.right);
        assert forall|resource: Resource|
            units_of(borrowing.left, resource) + units_of(borrowing.right, resource) <= 3 by {
            assert(owed.amount(resource) <= 3);
        }
    }
}

/// Taking a borrow out of a list takes one unit of its resource out of the count.
proof fn lemma_units_of_remove(borrows: Seq<Borrow>, place: int, resource: Resource)
    requires
        0 <= place < borrows.len(),
    ensures
        units_of(borrows, resource) == units_of(borrows.remove(place), resource) + if borrows[place].resource
            == resource {
            1int
        } else {
            0
        },
    decreases borrows.len(),
{
    if place == borrows.len() - 1 {
        assert(borrows.remove(place) =~= borrows.drop_last());
    } else {
        lemma_units_of_remove(borrows.drop_last(), place, resource);
        assert(borrows.remove(place).drop_last() =~= borrows.drop_last().remove(place));
        assert(borrows.remove(place).last() == borrows.last());
    }
}

/// The units of a resource among borrows do not depend on the order of the borrows.
proof fn lemma_units_of_any_order(a: Seq<Borrow>, b: Seq<Borrow>, resource: Resource)
    requires
        a.to_multiset() == b.to_multiset(),
    ensures
        units_of(a, resource) == units_of(b, resource),
    decreases a.len(),
{
    broadcast use vstd::seq_lib::group_to_multiset_ensures;

    assert(a.to_multiset().len() == a.len());
    assert(b.to_multiset().len() == b.len());
    if a.len() > 0 {
        let item = a.last();
        assert(a.contains(item));
        assert(b.to_multiset().count(item) > 0);
        assert(b.contains(item));
        let place = choose|place: int| 0 <= place < b.len() && b[place] == item;
        assert(a.drop_last() =~= a.remove(a.len() - 1));
        assert(a.drop_last().to_multiset() =~= b.remove(place).to_multiset());
        lemma_units_of_any_order(a.drop_last(), b.remove(place), resource);
        lemma_units_of_remove(b, place, resource);
    }
}

/// What holds of every borrow of a list holds of every borrow of the same list in another order.
proof fn lemma_same_members(a: Seq<Borrow>, b: Seq<Borrow>, i: int) -> (j: int)
    requires
        a.to_multiset() == b.to_multiset(),
        0 <= i < b.len(),
    ensures
        0 <= j < a.len(),
        a[j] == b[i],
{
    broadcast use vstd::seq_lib::group_to_multiset_ensures;

    assert(b.contains(b[i]));
    assert(a.to_multiset().count(b[i]) > 0);
    assert(a.contains(b[i]));
    choose|j: int| 0 <= j < a.len() && a[j] == b[i]
}

impl Player {
    /// A borrowing that is sound stays sound when its borrows are listed in another order.
    pub proof fn lemma_sound_in_any_order(
        &self,
        card: Card,
        a: BorrowingView,
        b: BorrowingView,
        left: Seq<Card>,
        right: Seq<Card>,
    )
        requires
            self.sound_borrowing(card, a, left, right),
            a.same_borrows(b),
        ensures
            self.sound_borrowing(card, b, left, right),
    {
        let owed = self.residual(card.cost()@);
        vstd::seq_lib::to_multiset_len(a.left);
        vstd::seq_lib::to_multiset_len(a.right);
        vstd::seq_lib::to_multiset_len(b.left);
        vstd::seq_lib::to_multiset_len(b.right);
        assert forall|i: int| 0 <= i < b.left.len() implies sold_by(#[trigger] b.left[i], left) && owed.has(
            b.left[i].resource,
        ) by {
            let j = lemma_same_members(a.left, b.left, i);
            assert(sold_by(a.left[j], left));
        }
        assert forall|i: int| 0 <= i < b.right.len() implies sold_by(#[trigger] b.right[i], right) && owed.has(
            b.right[i].resource,
        ) by {
            let j = lemma_same_members(a.right, b.right, i);
            assert(sold_by(a.right[j], right));
        }
        assert forall|resource: Resource|
            units_of(b.left, resource) + units_of(b.right, resource) > 0 implies units_of(b.left, resource)
            + units_of(b.right, resource) <= #[trigger] owed.amount(resource) by {
            lemma_units_of_any_order(a.left, b.left, resource);
            lemma_units_of_any_order(a.right, b.right, resource);
        }
    }

    /// A borrowing with which the player may build a card is sound: see
    /// [`Player::sound_borrowing`].
    pub proof fn lemma_legal_build_is_sound(
        &self,
        card: Card,
        borrowing: BorrowingView,
        left: Seq<Card>,
        right: Seq<Card>,
    )
        requires
            self.can_build(card, borrowing, left, right),
        ensures
            self.sound_borrowing(card, borrowing, left, right),
    {
        let options = self.options(card, left, right);
        let i = choose|i: int| 0 <= i < options.len() && builds_with(#[trigger] options[i], card, borrowing);
        self.lemma_options_sound(card, left, right, i);
        self.lemma_sound_in_any_order(card, options[i]->Build_1, borrowing, left, right);
    }
}

impl Player {
    /// True if the card is out of the player's reach: of some resource the player owes more units
    /// than the player's own cards with a choice and everything that the neighbours sell can
    /// give together, or the player has fewer coins than the card costs.
    pub open spec fn out_of_reach(&self, card: Card, left: Seq<Card>, right: Seq<Card>) -> bool {
        let owed = self.residual(card.cost()@);
        exists|resource: Resource|
            #[trigger] owed.amount(resource) > on_offer(self.usable(owed, left, right), resource) && owed.amount(
                resource,
            ) > 0
    }

    /// A card that is out of the player's reach cannot be built: the player has no option for
    /// it, and no borrowing makes it legal to build it.
    pub proof fn lemma_out_of_reach(&self, card: Card, left: Seq<Card>, right: Seq<Card>, borrowing: BorrowingView)
        requires
            self.out_of_reach(card, left, right),
        ensures
            self.options(card, left, right).len() == 0,
            !self.can_build(card, borrowing, left, right),
    {
        let owed = self.residual(card.cost()@);
        let entries = self.usable(owed, left, right);
        let options = self.options(card, left, right);
        let resource = choose|resource: Resource|
            #[trigger] owed.amount(resource) > on_offer(entries, resource) && owed.amount(resource) > 0;
        assert(!owed.satisfied());
        if options.len() > 0 {
            lemma_option_origin(card, entries, owed, 0);
            let picks = choose|picks: Seq<int>|
                {
                    &&& picks_in_range(entries, picks)
                    &&& #[trigger] use_units(entries, picks, Tally::start(owed)) matches Some(tally)
                    &&& tally.owed.satisfied()
                    &&& all_options(card, entries, owed)[0] == ActionView::Build(card, tally.borrowing())
                };
            lemma_use_units_at_least(entries, picks, owed, resource);
            let tally = use_units(entries, picks, Tally::start(owed))->0;
            assert(tally.owed.amount(resource) > 0);
        }
    }

    /// Every action among the player's options for a card in the player's hand is legal.
    pub proof fn lemma_option_is_legal(&self, card: Card, left: Seq<Card>, right: Seq<Card>, i: int)
        requires
            self.hand@.contains(card),
            0 <= i < self.options(card, left, right).len(),
        ensures
            self.can_play_spec(self.options(card, left, right)[i], left, right),
    {
        self.lemma_options_sound(card, left, right, i);
        let option = self.options(card, left, right)[i];
        let borrowing = option->Build_1;
        assert(builds_with(option, card, borrowing));
    }
}

/// Usable resources that are put into another order, the player's own first in both orders, are
/// the same usable resources, still without coins on offer and with the player's own first.
proof fn lemma_regrouped(own: Seq<Usable>, others: Seq<Usable>, new_own: Seq<Usable>, new_others: Seq<Usable>)
    requires
        new_own.to_multiset() == own.to_multiset(),
        new_others.to_multiset() == others.to_multiset(),
        all_material(own + others),
        forall|k: int| 0 <= k < own.len() ==> (#[trigger] own[k]).source == Source::Own,
        forall|k: int| 0 <= k < others.len() ==> (#[trigger] others[k]).source != Source::Own,
    ensures
        (new_own + new_others).to_multiset() == (own + others).to_multiset(),
        all_material(new_own + new_others),
        own_first(new_own + new_others),
        own_first(own + others),
{
    broadcast use vstd::seq_lib::group_to_multiset_ensures;

    let before = own + others;
    let after = new_own + new_others;
    vstd::seq_lib::lemma_multiset_commutative(own, others);
    vstd::seq_lib::lemma_multiset_commutative(new_own, new_others);
    assert(new_own.to_multiset().len() == new_own.len());
    assert(own.to_multiset().len() == own.len());
    assert forall|k: int| 0 <= k < after.len() implies !(#[trigger] after[k]).resources.contains(
        Resource::Coins,
    ) && (k < new_own.len() <==> after[k].source == Source::Own) by {
        let entry = after[k];
        if k < new_own.len() {
            assert(new_own.contains(entry));
            assert(own.to_multiset().count(entry) > 0);
            assert(own.contains(entry));
            let place = choose|place: int| 0 <= place < own.len() && own[place] == entry;
            assert(before[place] == entry);
        } else {
            assert(new_others[k - new_own.len()] == entry);
            assert(new_others.contains(entry));
            assert(others.to_multiset().count(entry) > 0);
            assert(others.contains(entry));
            let place = choose|place: int| 0 <= place < others.len() && others[place] == entry;
            assert(before[own.len() + place] == entry);
        }
    }
    assert forall|j: int, k: int|
        0 <= j < k < before.len() && (#[trigger] before[k]).source == Source::Own implies (#[trigger] before[j]).source
        == Source::Own by {
        if k >= own.len() {
            assert(others[k - own.len()] == before[k]);
        }
        assert(own[j] == before[j]);
    }
}

impl Player {
    /// Where a single option is asked for, the action that comes back, if any, is one of all the
    /// player's options for the card, but for the order in which it lists the borrows.
    pub proof fn lemma_single_option_is_offered(
        &self,
        options: Seq<ActionView>,
        card: Card,
        left: Seq<Card>,
        right: Seq<Card>,
    )
        requires
            self.is_single_option(options, card, left, right),
            options.len() > 0,
        ensures
            options.len() == 1,
            options[0] matches ActionView::Build(built, borrowing) && built == card && offers(
                self.options(card, left, right),
                card,
                borrowing,
            ),
    {
        let owed = self.residual(card.cost()@);
        let all = self.options(card, left, right);
        if owed.satisfied() {
            assert(builds_with(all[0], card, BorrowingView::none()));
        } else {
            let (new_own, new_others) = choose|own: Seq<Usable>, others: Seq<Usable>|
                {
                    &&& own.to_multiset() == self.own_usable(owed).to_multiset()
                    &&& others.to_multiset() == neighbour_usable(owed, left, right).to_multiset()
                    &&& options == first_of(#[trigger] all_options(card, own + others, owed))
                };
            self.lemma_usable_sources(owed, left, right);
            lemma_regrouped(self.own_usable(owed), neighbour_usable(owed, left, right), new_own, new_others);
            let place = lemma_options_in_any_order(
                card,
                self.usable(owed, left, right),
                new_own + new_others,
                owed,
                0,
            );
            let borrowing = options[0]->Build_1;
            assert(builds_with(all[place], card, borrowing));
        }
    }

    /// Where a single option is asked for, an action comes back exactly if the player has any
    /// option for the card.
    pub proof fn lemma_single_option_found(
        &self,
        options: Seq<ActionView>,
        card: Card,
        left: Seq<Card>,
        right: Seq<Card>,
    )
        requires
            self.is_single_option(options, card, left, right),
        ensures
            options.len() == 1 <==> self.options(card, left, right).len() > 0,
            options.len() <= 1,
    {
        let owed = self.residual(card.cost()@);
        if !owed.satisfied() {
            let (new_own, new_others) = choose|own: Seq<Usable>, others: Seq<Usable>|
                {
                    &&& own.to_multiset() == self.own_usable(owed).to_multiset()
                    &&& others.to_multiset() == neighbour_usable(owed, left, right).to_multiset()
                    &&& options == first_of(#[trigger] all_options(card, own + others, owed))
                };
            self.lemma_usable_sources(owed, left, right);
            lemma_regrouped(self.own_usable(owed), neighbour_usable(owed, left, right), new_own, new_others);
            if options.len() > 0 {
                self.lemma_single_option_is_offered(options, card, left, right);
            }
            if self.options(card, left, right).len() > 0 {
                let place = lemma_options_in_any_order(
                    card,
                    new_own + new_others,
                    self.usable(owed, left, right),
                    owed,
                    0,
                );
            }
        }
    }

    /// Where a single option is asked for a card in the player's hand, the action that comes back,
    /// if any, is legal.
    pub proof fn lemma_single_option_is_legal(
        &self,
        options: Seq<ActionView>,
        card: Card,
        left: Seq<Card>,
        right: Seq<Card>,
    )
        requires
            self.is_single_option(options, card, left, right),
            self.hand@.contains(card),
            options.len() > 0,
        ensures
            self.can_play_spec(options[0], left, right),
    {
        self.lemma_single_option_is_offered(options, card, left, right);
        let borrowing = options[0]->Build_1;
        let all = self.options(card, left, right);
        let place = choose|place: int| 0 <= place < all.len() && builds_with(#[trigger] all[place], card, borrowing);
        self.lemma_options_sound(card, left, right, place);
        self.lemma_sound_in_any_order(card, all[place]->Build_1, borrowing, left, right);
    }

    /// The player's own usable resources are the player's own, and those of the neighbours are
    /// not; none of them offers coins.
    pub proof fn lemma_usable_sources(&self, owed: Basket, left: Seq<Card>, right: Seq<Card>)
        ensures
            all_material(self.own_usable(owed) + neighbour_usable(owed, left, right)),
            forall|k: int|
                0 <= k < self.own_usable(owed).len() ==> (#[trigger] self.own_usable(owed)[k]).source
                    == Source::Own,
            forall|k: int|
                0 <= k < neighbour_usable(owed, left, right).len() ==> (#[trigger] neighbour_usable(
                    owed,
                    left,
                    right,
                )[k]).source != Source::Own,
    {
        self.lemma_usable(owed, left, right);
        let from_left = usable_of_cards(left, owed, Source::LeftNeighbour);
        assert forall|k: int| 0 <= k < self.own_usable(owed).len() implies (#[trigger] self.own_usable(
            owed,
        )[k]).source == Source::Own by {
            lemma_usable_of_cards(self.built_structures@, owed, Source::Own, k);
        }
        assert forall|k: int| 0 <= k < neighbour_usable(owed, left, right).len() implies (#[trigger] neighbour_usable(
            owed,
            left,
            right,
        )[k]).source != Source::Own by {
            if k < from_left.len() {
                lemma_usable_of_cards(left, owed, Source::LeftNeighbour, k);
            } else {
                lemma_usable_of_cards(right, owed, Source::RightNeighbour, k - from_left.len());
            }
        }
    }
}

impl Player {
    /// The price of building with borrowed units: whichever of the player's options for a card in
    /// the player's hand is played, it is legal, and it leaves the player with the coins from
    /// before less the coins that the card costs and the price of each borrowed unit, which is
    /// never less than no coins at all.
    pub proof fn lemma_price_of_borrowing(&self, after: Player, card: Card, left: Seq<Card>, right: Seq<Card>, i: int)
        requires
            self.hand@.contains(card),
            0 <= i < self.options(card, left, right).len(),
            after.is_after(*self, self.options(card, left, right)[i]),
        ensures
            self.can_play_spec(self.options(card, left, right)[i], left, right),
            self.options(card, left, right)[i] matches ActionView::Build(built, borrowing) && built == card
                && after.coins == self.coins - card.cost().coins - BORROW_PRICE * borrowing.count(),
            after.coins >= 0,
    {
        self.lemma_option_is_legal(card, left, right, i);
        self.lemma_options_sound(card, left, right, i);
    }
}

impl Player {
    /// True if the option builds `card` with a sound borrowing: see [`Player::sound_borrowing`].
    pub open spec fn sound_option(&self, option: ActionView, card: Card, left: Seq<Card>, right: Seq<Card>) -> bool {
        option matches ActionView::Build(built, borrowing) && built == card && self.sound_borrowing(
            card,
            borrowing,
            left,
            right,
        )
    }

    /// An option whose borrows one of the player's options has too, in whatever order, is sound.
    pub proof fn lemma_offered_is_sound(&self, option: ActionView, card: Card, left: Seq<Card>, right: Seq<Card>)
        requires
            is_offered(option, self.options(card, left, right), card),
        ensures
            self.sound_option(option, card, left, right),
    {
        let all = self.options(card, left, right);
        let borrowing = option->Build_1;
        let place = choose|place: int| 0 <= place < all.len() && builds_with(#[trigger] all[place], card, borrowing);
        self.lemma_options_sound(card, left, right, place);
        self.lemma_sound_in_any_order(card, all[place]->Build_1, borrowing, left, right);
    }
}

} // verus!
