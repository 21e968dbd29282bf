//! Finds every way in which a cost can be paid from a list of usable resources: the player's own
//! cards that give a choice of resources, and the units that the two neighbours sell.

use vstd::arithmetic::div_mod::lemma_fundamental_div_mod_converse;
use vstd::prelude::*;

use crate::action::Action;
use crate::action::ActionView;
use crate::action::Borrow;
use crate::action::Borrowing;
use crate::action::BorrowingView;
use crate::action::action_views;
use crate::card::Card;
use crate::power::Power;
use crate::power::ProducedResources;
use crate::power::Production;
use crate::resources::Basket;
use crate::resources::Cost;
use crate::resources::Resource;

verus! {

/// The coins that a player pays a neighbour for one borrowed unit.
pub const BORROW_PRICE: i32 = 2;

/// Whose card a usable resource is on.
#[derive(Debug, Copy, Clone, Eq, PartialEq, Structural)]
pub enum Source {
    Own,
    LeftNeighbour,
    RightNeighbour,
}

/// One unit that can go towards a cost: the card it is on, the resources it can be taken as, and
/// whose card it is. A unit of the player's own is always used, as one of its resources. A unit
/// of a neighbour is borrowed as one of its resources, or left alone.
#[derive(Debug, Clone)]
pub struct UsableResources {
    pub card: Card,
    pub resources: Vec<Resource>,
    pub source: Source,
}

/// The mathematical content of a [`UsableResources`].
#[verifier::ext_equal]
pub struct Usable {
    pub card: Card,
    pub resources: Seq<Resource>,
    pub source: Source,
}

impl View for UsableResources {
    type V = Usable;

    open spec fn view(&self) -> Usable {
        Usable { card: self.card, resources: self.resources@, source: self.source }
    }
}

impl Usable {
    /// The number of ways to deal with this unit: one for each resource, and for a unit of a
    /// neighbour one more, which leaves it alone.
    pub open spec fn ways(self) -> int {
        if self.source == Source::Own {
            self.resources.len() as int
        } else {
            self.resources.len() as int + 1
        }
    }
}

/// The views of a list of usable resources, in the order of the list.
pub open spec fn usable_views(entries: Seq<UsableResources>) -> Seq<Usable> {
    entries.map_values(|entry: UsableResources| entry@)
}

/// Those of `resources` of which `cost` still owes a unit, in their order.
pub open spec fn needed(resources: Seq<Resource>, cost: Basket) -> Seq<Resource>
    decreases resources.len(),
{
    if resources.len() == 0 {
        Seq::empty()
    } else if cost.has(resources.last()) {
        needed(resources.drop_last(), cost).push(resources.last())
    } else {
        needed(resources.drop_last(), cost)
    }
}

/// The usable resources that one built card adds for a cost of which `cost` is still owed. An
/// own card counts only where it gives a choice, since what it yields without a choice is taken
/// off the cost beforehand. A card of a neighbour counts only where its resources can
/// be bought, one entry for each unit. Resources that the cost does not need are left out, and
/// with them the cards that have no others.
pub open spec fn usable_of_card(card: Card, cost: Basket, source: Source) -> Seq<Usable> {
    let offered = if source == Source::Own {
        card.spec_power().production()
    } else {
        card.spec_power().purchasable()
    };
    match offered {
        None => Seq::empty(),
        Some(Production::Single(resource)) => if source != Source::Own && cost.has(resource) {
            seq![Usable { card, resources: seq![resource], source }]
        } else {
            Seq::empty()
        },
        Some(Production::Double(resource)) => if source != Source::Own && cost.has(resource) {
            seq![
                Usable { card, resources: seq![resource], source },
                Usable { card, resources: seq![resource], source },
            ]
        } else {
            Seq::empty()
        },
        Some(Production::Choice(resources)) => if needed(resources, cost).len() > 0 {
            seq![Usable { card, resources: needed(resources, cost), source }]
        } else {
            Seq::empty()
        },
    }
}

/// The usable resources that a list of built cards adds, card by card.
pub open spec fn usable_of_cards(cards: Seq<Card>, cost: Basket, source: Source) -> Seq<Usable>
    decreases cards.len(),
{
    if cards.len() == 0 {
        Seq::empty()
    } else {
        usable_of_cards(cards.drop_last(), cost, source) + usable_of_card(cards.last(), cost, source)
    }
}

/// Those of `resources` of which `cost` still owes a unit, in their order.
fn filter_needed(resources: &Vec<Resource>, cost: &Cost) -> (kept: Vec<Resource>)
    ensures
        kept@ == needed(resources@, cost@),
{
    let mut kept: Vec<Resource> = Vec::new();
    let mut i: usize = 0;
    while i < resources.len()
        invariant
            i <= resources.len(),
            kept@ == needed(resources@.take(i as int), cost@),
        decreases resources.len() - i,
    {
        assert(resources@.take(i + 1).drop_last() =~= resources@.take(i as int));
        if cost.has(&resources[i]) {
            kept.push(resources[i]);
        }
        i = i + 1;
    }
    assert(resources@.take(resources.len() as int) =~= resources@);
    kept
}

/// Adds to `choices` what the given cards, own ones or those of a neighbour, offer towards a cost
/// of which `cost` is still owed: see [`usable_of_card`].
pub fn add_choices(cards: &Vec<Card>, cost: &Cost, source: Source, choices: &mut Vec<UsableResources>)
    ensures
        usable_views(final(choices)@) == usable_views(old(choices)@) + usable_of_cards(
            cards@,
            cost@,
            source,
        ),
{
    let mut i: usize = 0;
    while i < cards.len()
        invariant
            i <= cards.len(),
            usable_views(choices@) == usable_views(old(choices)@) + usable_of_cards(
                cards@.take(i as int),
                cost@,
                source,
            ),
        decreases cards.len() - i,
    {
        let card = cards[i];
        let ghost before = choices@;
        assert(cards@.take(i + 1).drop_last() =~= cards@.take(i as int));
        let power = card.power();
        let produced: Option<ProducedResources> = match power {
            Power::PurchasableProducer(produced) => Some(produced),
            Power::Producer(produced) => if source == Source::Own {
                Some(produced)
            } else {
                None
            },
            _ => None,
        };
        match produced {
            Some(ProducedResources::Single(resource)) => {
                if source != Source::Own && cost.has(&resource) {
                    let unit: Vec<Resource> = vec![resource];
                    assert(unit@ =~= seq![resource]);
                    choices.push(UsableResources { card, resources: unit, source });
                    assert(usable_views(choices@) =~= usable_views(before).push(
                        Usable { card, resources: seq![resource], source },
                    ));
                }
            },
            Some(ProducedResources::Double(resource)) => {
                if source != Source::Own && cost.has(&resource) {
                    let first: Vec<Resource> = vec![resource];
                    let second: Vec<Resource> = vec![resource];
                    assert(first@ =~= seq![resource]);
                    assert(second@ =~= seq![resource]);
                    choices.push(UsableResources { card, resources: first, source });
                    choices.push(UsableResources { card, resources: second, source });
                    assert(usable_views(choices@) =~= usable_views(before).push(
                        Usable { card, resources: seq![resource], source },
                    ).push(Usable { card, resources: seq![resource], source }));
                }
            },
            Some(ProducedResources::Choice(resources)) => {
                let kept = filter_needed(&resources, cost);
                if !kept.is_empty() {
                    choices.push(UsableResources { card, resources: kept, source });
                    assert(usable_views(choices@) =~= usable_views(before).push(
                        Usable { card, resources: kept@, source },
                    ));
                }
            },
            None => {},
        }
        assert(usable_views(choices@) =~= usable_views(before) + usable_of_card(card, cost@, source));
        i = i + 1;
    }
    assert(cards@.take(cards.len() as int) =~= cards@);
}

/// What is still owed, and what has been borrowed from each neighbour, while the usable
/// resources are gone through one by one.
#[verifier::ext_equal]
pub struct Tally {
    pub owed: Basket,
    pub left: Seq<Borrow>,
    pub right: Seq<Borrow>,
}

impl Tally {
    /// The tally before any usable resource is looked at.
    pub open spec fn start(owed: Basket) -> Tally {
        Tally { owed, left: Seq::empty(), right: Seq::empty() }
    }

    /// What has been borrowed.
    pub open spec fn borrowing(self) -> BorrowingView {
        BorrowingView { left: self.left, right: self.right }
    }
}

/// Deals with one usable resource in the way that `pick` numbers. For a unit of the player's
/// own, `pick` numbers the resource that it is used as. For a unit of a neighbour, 0 leaves it
/// alone and `pick` above 0 borrows it as the resource before that place: this takes a
/// unit of the resource off what is owed and adds the price of borrowing to the coins owed. A
/// resource that is not owed any more, or a price that the player's coins do not cover, makes
/// the whole combination void.
pub open spec fn use_unit(entry: Usable, pick: int, tally: Tally) -> Option<Tally> {
    if entry.source == Source::Own {
        Some(Tally { owed: tally.owed.minus(entry.resources[pick]), ..tally })
    } else if pick == 0 {
        Some(tally)
    } else {
        let resource = entry.resources[pick - 1];
        let borrow = Borrow { card: entry.card, resource };
        if tally.owed.coins <= -BORROW_PRICE && tally.owed.has(resource) {
            let owed = tally.owed.minus(resource).charge(BORROW_PRICE as int);
            if entry.source == Source::LeftNeighbour {
                Some(Tally { owed, left: tally.left.push(borrow), right: tally.right })
            } else {
                Some(Tally { owed, left: tally.left, right: tally.right.push(borrow) })
            }
        } else {
            None
        }
    }
}

/// Deals with the usable resources in their order, each in the way that its pick numbers.
pub open spec fn use_units(entries: Seq<Usable>, picks: Seq<int>, tally: Tally) -> Option<Tally>
    decreases entries.len(),
{
    if entries.len() == 0 {
        Some(tally)
    } else {
        match use_units(entries.drop_last(), picks.drop_last(), tally) {
            Some(so_far) => use_unit(entries.last(), picks.last(), so_far),
            None => None,
        }
    }
}

/// The number of combinations: the product of the numbers of ways over all usable resources.
pub open spec fn combination_count(entries: Seq<Usable>) -> int
    decreases entries.len(),
{
    if entries.len() == 0 {
        1
    } else {
        entries.first().ways() * combination_count(entries.drop_first())
    }
}

/// The picks that make up the combination of the given number: its digits in the number system
/// whose places have the numbers of ways as their bases, the first usable resource at the lowest
/// place.
pub open spec fn picks_of(entries: Seq<Usable>, combination: int) -> Seq<int>
    decreases entries.len(),
{
    if entries.len() == 0 {
        Seq::empty()
    } else {
        seq![combination % entries.first().ways()] + picks_of(
            entries.drop_first(),
            combination / entries.first().ways(),
        )
    }
}

/// The action that one combination gives, if any: to build the card with what the combination
/// borrows, provided that the combination is not void and leaves nothing owed.
pub open spec fn outcome(card: Card, entries: Seq<Usable>, owed: Basket, combination: int) -> Seq<
    ActionView,
> {
    match use_units(entries, picks_of(entries, combination), Tally::start(owed)) {
        Some(tally) => if tally.owed.satisfied() {
            seq![ActionView::Build(card, tally.borrowing())]
        } else {
            Seq::empty()
        },
        None => Seq::empty(),
    }
}

/// The actions that the combinations below `upto` give, in the order of the combinations.
pub open spec fn outcomes(card: Card, entries: Seq<Usable>, owed: Basket, upto: int) -> Seq<ActionView>
    decreases upto,
{
    if upto <= 0 {
        Seq::empty()
    } else {
        outcomes(card, entries, owed, upto - 1) + outcome(card, entries, owed, upto - 1)
    }
}

/// Every action that builds `card` by paying `owed` out of `entries`: one for each combination
/// that is not void and leaves nothing owed. Two combinations that borrow the same units give the
/// same action twice.
pub open spec fn all_options(card: Card, entries: Seq<Usable>, owed: Basket) -> Seq<ActionView> {
    outcomes(card, entries, owed, combination_count(entries))
}

/// The first of the given actions alone, or nothing where there is none.
pub open spec fn first_of(actions: Seq<ActionView>) -> Seq<ActionView> {
    if actions.len() > 0 {
        seq![actions.first()]
    } else {
        Seq::empty()
    }
}

/// Every pick numbers one of the ways of its usable resource.
pub open spec fn picks_in_range(entries: Seq<Usable>, picks: Seq<int>) -> bool {
    &&& picks.len() == entries.len()
    &&& forall|k: int| 0 <= k < entries.len() ==> 0 <= #[trigger] picks[k] < entries[k].ways()
}

/// The number of the combination that the picks make up.
pub open spec fn combination_of(entries: Seq<Usable>, picks: Seq<int>) -> int
    decreases entries.len(),
{
    if entries.len() == 0 {
        0
    } else {
        picks.first() + entries.first().ways() * combination_of(entries.drop_first(), picks.drop_first())
    }
}

/// The picks of a combination's number are the picks that make it up.
pub proof fn lemma_picks_of_combination(entries: Seq<Usable>, picks: Seq<int>)
    requires
        picks_in_range(entries, picks),
    ensures
        picks_of(entries, combination_of(entries, picks)) == picks,
    decreases entries.len(),
{
    if entries.len() == 0 {
        assert(picks =~= Seq::empty());
    } else {
        let ways = entries.first().ways();
        let rest = combination_of(entries.drop_first(), picks.drop_first());
        let combination = combination_of(entries, picks);
        assert(picks_in_range(entries.drop_first(), picks.drop_first())) by {
            assert forall|k: int| 0 <= k < entries.drop_first().len() implies 0
                <= #[trigger] picks.drop_first()[k] < entries.drop_first()[k].ways() by {
                assert(picks[k + 1] == picks.drop_first()[k]);
            }
        }
        lemma_picks_of_combination(entries.drop_first(), picks.drop_first());
        assert(0 <= picks[0] < ways);
        assert(combination == rest * ways + picks.first()) by (nonlinear_arith)
            requires
                combination == picks.first() + ways * rest,
        ;
        lemma_fundamental_div_mod_converse(combination, ways, rest, picks.first());
        assert(picks_of(entries, combination) =~= picks);
    }
}

/// The number of a combination lies below the number of combinations.
pub proof fn lemma_combination_bound(entries: Seq<Usable>, picks: Seq<int>)
    requires
        picks_in_range(entries, picks),
    ensures
        0 <= combination_of(entries, picks) < combination_count(entries),
    decreases entries.len(),
{
    if entries.len() > 0 {
        let ways = entries.first().ways();
        let rest = combination_of(entries.drop_first(), picks.drop_first());
        let rest_count = combination_count(entries.drop_first());
        assert(picks_in_range(entries.drop_first(), picks.drop_first())) by {
            assert forall|k: int| 0 <= k < entries.drop_first().len() implies 0
                <= #[trigger] picks.drop_first()[k] < entries.drop_first()[k].ways() by {
                assert(picks[k + 1] == picks.drop_first()[k]);
            }
        }
        lemma_combination_bound(entries.drop_first(), picks.drop_first());
        assert(0 <= picks[0] < ways);
        assert(0 <= picks.first() + ways * rest < ways * rest_count) by (nonlinear_arith)
            requires
                0 <= picks.first() < ways,
                0 <= rest < rest_count,
        ;
    }
}

/// The picks of the next combination: every pick before place `place` goes from its highest value
/// back to 0, and the pick at `place` goes up by one.
pub open spec fn next_picks(picks: Seq<int>, place: int) -> Seq<int> {
    Seq::new(
        picks.len(),
        |k: int|
            if k < place {
                0
            } else if k == place {
                picks[k] + 1
            } else {
                picks[k]
            },
    )
}

/// Stepping the picks as [`next_picks`] does gives the combination with the next number.
proof fn lemma_next_combination(entries: Seq<Usable>, picks: Seq<int>, place: int)
    requires
        picks_in_range(entries, picks),
        0 <= place < entries.len(),
        forall|k: int| 0 <= k < place ==> #[trigger] picks[k] == entries[k].ways() - 1,
        picks[place] + 1 < entries[place].ways(),
    ensures
        picks_in_range(entries, next_picks(picks, place)),
        combination_of(entries, next_picks(picks, place)) == combination_of(entries, picks) + 1,
    decreases entries.len(),
{
    let next = next_picks(picks, place);
    let ways = entries.first().ways();
    assert(0 <= picks[0] < ways);
    if place == 0 {
        assert(next.drop_first() =~= picks.drop_first());
    } else {
        assert(picks_in_range(entries.drop_first(), picks.drop_first())) by {
            assert forall|k: int| 0 <= k < entries.drop_first().len() implies 0
                <= #[trigger] picks.drop_first()[k] < entries.drop_first()[k].ways() by {
                assert(picks[k + 1] == picks.drop_first()[k]);
            }
        }
        assert forall|k: int| 0 <= k < place - 1 implies #[trigger] picks.drop_first()[k]
            == entries.drop_first()[k].ways() - 1 by {
            assert(picks[k + 1] == picks.drop_first()[k]);
        }
        lemma_next_combination(entries.drop_first(), picks.drop_first(), place - 1);
        assert(next.drop_first() =~= next_picks(picks.drop_first(), place - 1));
        let rest = combination_of(entries.drop_first(), picks.drop_first());
        assert(picks[0] == ways - 1);
        assert(0 + ways * (rest + 1) == (ways - 1) + ways * rest + 1) by (nonlinear_arith);
    }
    assert forall|k: int| 0 <= k < entries.len() implies 0 <= #[trigger] next[k] < entries[k].ways() by {
        assert(0 <= picks[k] < entries[k].ways());
    }
}

/// Where every pick has its highest value, the combination is the last one.
proof fn lemma_last_combination(entries: Seq<Usable>, picks: Seq<int>)
    requires
        picks_in_range(entries, picks),
        forall|k: int| 0 <= k < entries.len() ==> #[trigger] picks[k] == entries[k].ways() - 1,
    ensures
        combination_of(entries, picks) + 1 == combination_count(entries),
    decreases entries.len(),
{
    if entries.len() > 0 {
        let ways = entries.first().ways();
        let rest = combination_of(entries.drop_first(), picks.drop_first());
        let rest_count = combination_count(entries.drop_first());
        assert(picks_in_range(entries.drop_first(), picks.drop_first())) by {
            assert forall|k: int| 0 <= k < entries.drop_first().len() implies 0
                <= #[trigger] picks.drop_first()[k] < entries.drop_first()[k].ways() by {
                assert(picks[k + 1] == picks.drop_first()[k]);
            }
        }
        assert forall|k: int| 0 <= k < entries.drop_first().len() implies #[trigger] picks.drop_first()[k]
            == entries.drop_first()[k].ways() - 1 by {
            assert(picks[k + 1] == picks.drop_first()[k]);
        }
        lemma_last_combination(entries.drop_first(), picks.drop_first());
        assert(picks[0] == ways - 1);
        assert((ways - 1) + ways * rest + 1 == ways * (rest + 1)) by (nonlinear_arith);
    }
}

/// A usable resource that can be dealt with in no way at all leaves no combination.
pub proof fn lemma_no_combination(entries: Seq<Usable>, place: int)
    requires
        0 <= place < entries.len(),
        entries[place].ways() == 0,
    ensures
        combination_count(entries) == 0,
    decreases entries.len(),
{
    if place > 0 {
        lemma_no_combination(entries.drop_first(), place - 1);
        assert(entries.first().ways() * 0 == 0) by (nonlinear_arith);
    } else {
        assert(0 * combination_count(entries.drop_first()) == 0) by (nonlinear_arith);
    }
}

/// The actions of the first combinations stand at the front of the actions of more combinations.
proof fn lemma_outcomes_grow(card: Card, entries: Seq<Usable>, owed: Basket, fewer: int, more: int)
    requires
        0 <= fewer <= more,
    ensures
        outcomes(card, entries, owed, fewer).len() <= outcomes(card, entries, owed, more).len(),
        outcomes(card, entries, owed, more).take(outcomes(card, entries, owed, fewer).len() as int)
            == outcomes(card, entries, owed, fewer),
    decreases more,
{
    if fewer < more {
        lemma_outcomes_grow(card, entries, owed, fewer, more - 1);
        let short = outcomes(card, entries, owed, fewer);
        let middle = outcomes(card, entries, owed, more - 1);
        let long = outcomes(card, entries, owed, more);
        assert(long =~= middle + outcome(card, entries, owed, more - 1));
        assert(long.take(short.len() as int) =~= middle.take(short.len() as int));
    } else {
        let all = outcomes(card, entries, owed, more);
        assert(all.take(all.len() as int) =~= all);
    }
}

/// What is still owed while one combination is tried, in integers wide enough for any number
/// of usable resources.
struct Owed {
    coins: i128,
    wood: i128,
    stone: i128,
    ore: i128,
    clay: i128,
    glass: i128,
    loom: i128,
    papyrus: i128,
}

impl View for Owed {
    type V = Basket;

    closed spec fn view(&self) -> Basket {
        Basket {
            coins: self.coins as int,
            wood: self.wood as int,
            stone: self.stone as int,
            ore: self.ore as int,
            clay: self.clay as int,
            glass: self.glass as int,
            loom: self.loom as int,
            papyrus: self.papyrus as int,
        }
    }
}

impl Owed {
    fn of(cost: &Cost) -> (owed: Owed)
        ensures
            owed@ == cost@,
    {
        Owed {
            coins: cost.coins as i128,
            wood: cost.wood as i128,
            stone: cost.stone as i128,
            ore: cost.ore as i128,
            clay: cost.clay as i128,
            glass: cost.glass as i128,
            loom: cost.loom as i128,
            papyrus: cost.papyrus as i128,
        }
    }

    fn amount(&self, resource: Resource) -> (n: i128)
        ensures
            n == self@.amount(resource),
    {
        match resource {
            Resource::Wood => self.wood,
            Resource::Stone => self.stone,
            Resource::Ore => self.ore,
            Resource::Clay => self.clay,
            Resource::Glass => self.glass,
            Resource::Loom => self.loom,
            Resource::Papyrus => self.papyrus,
            Resource::Coins => self.coins,
        }
    }

    fn satisfied(&self) -> (yes: bool)
        ensures
            yes == self@.satisfied(),
    {
        let yes = self.coins <= 0 && self.wood <= 0 && self.stone <= 0 && self.ore <= 0 && self.clay
            <= 0 && self.glass <= 0 && self.loom <= 0 && self.papyrus <= 0;
        proof {
            if yes {
                assert forall|resource: Resource| self@.amount(resource) <= 0 by {}
            } else {
                let witness = if self.coins > 0 {
                    Resource::Coins
                } else if self.wood > 0 {
                    Resource::Wood
                } else if self.stone > 0 {
                    Resource::Stone
                } else if self.ore > 0 {
                    Resource::Ore
                } else if self.clay > 0 {
                    Resource::Clay
                } else if self.glass > 0 {
                    Resource::Glass
                } else if self.loom > 0 {
                    Resource::Loom
                } else {
                    Resource::Papyrus
                };
                assert(self@.amount(witness) > 0);
            }
        }
        yes
    }

    fn take(&mut self, resource: Resource)
        requires
            old(self)@.amount(resource) > i128::MIN,
        ensures
            final(self)@ == old(self)@.minus(resource),
    {
        match resource {
            Resource::Wood => self.wood = self.wood - 1,
            Resource::Stone => self.stone = self.stone - 1,
            Resource::Ore => self.ore = self.ore - 1,
            Resource::Clay => self.clay = self.clay - 1,
            Resource::Glass => self.glass = self.glass - 1,
            Resource::Loom => self.loom = self.loom - 1,
            Resource::Papyrus => self.papyrus = self.papyrus - 1,
            Resource::Coins => self.coins = self.coins - 1,
        }
    }

    fn charge(&mut self, coins: i32)
        requires
            i128::MIN <= old(self)@.coins + coins <= i128::MAX,
        ensures
            final(self)@ == old(self)@.charge(coins as int),
    {
        self.coins = self.coins + coins as i128;
    }
}

/// The picks that a list of digits holds.
pub open spec fn digit_picks(digits: Seq<usize>) -> Seq<int> {
    digits.map_values(|digit: usize| digit as int)
}

/// One more usable resource is dealt with after those before it.
proof fn lemma_use_units_step(entries: Seq<Usable>, picks: Seq<int>, tally: Tally, upto: int)
    requires
        picks.len() == entries.len(),
        0 <= upto < entries.len(),
    ensures
        use_units(entries.take(upto + 1), picks.take(upto + 1), tally) == match use_units(
            entries.take(upto),
            picks.take(upto),
            tally,
        ) {
            Some(so_far) => use_unit(entries[upto], picks[upto], so_far),
            None => None,
        },
{
    assert(entries.take(upto + 1).drop_last() =~= entries.take(upto));
    assert(picks.take(upto + 1).drop_last() =~= picks.take(upto));
    assert(entries.take(upto + 1).last() == entries[upto]);
    assert(picks.take(upto + 1).last() == picks[upto]);
}

/// Taking a unit off keeps every count within bounds that are one wider below.
proof fn lemma_minus_within(owed: Basket, resource: Resource, low: int, high: int)
    requires
        owed.within(low, high),
    ensures
        owed.minus(resource).within(low - 1, high),
{
    assert forall|r: Resource| low - 1 <= #[trigger] owed.minus(resource).amount(r) <= high by {
        assert(low <= owed.amount(r) <= high);
    }
}

/// Paying for a borrowed unit out of coins that cover the price keeps every count within bounds.
proof fn lemma_charge_within(owed: Basket, low: int, high: int)
    requires
        owed.within(low, high),
        owed.coins <= -BORROW_PRICE,
        high >= 0,
    ensures
        owed.charge(BORROW_PRICE as int).within(low, high),
{
    assert forall|r: Resource| low <= #[trigger] owed.charge(BORROW_PRICE as int).amount(r) <= high by {
        assert(low <= owed.amount(r) <= high);
        assert(low <= owed.amount(Resource::Coins));
    }
}

/// Tries the combination that `digits` makes up: the action that it gives, if it is not void and
/// leaves nothing owed.
fn try_combination(card: Card, entries: &Vec<UsableResources>, cost: &Cost, digits: &Vec<usize>) -> (found:
    Option<Action>)
    requires
        picks_in_range(usable_views(entries@), digit_picks(digits@)),
    ensures
        match use_units(usable_views(entries@), digit_picks(digits@), Tally::start(cost@)) {
            Some(tally) => if tally.owed.satisfied() {
                found matches Some(action) && action@ == ActionView::Build(card, tally.borrowing())
            } else {
                found is None
            },
            None => found is None,
        },
{
    let ghost units = usable_views(entries@);
    let ghost picks = digit_picks(digits@);
    let ghost start = Tally::start(cost@);
    let mut owed = Owed::of(cost);
    let mut left: Vec<Borrow> = Vec::new();
    let mut right: Vec<Borrow> = Vec::new();
    let mut k: usize = 0;
    proof {
        assert forall|r: Resource| i32::MIN <= #[trigger] cost@.amount(r) <= i32::MAX by {}
    }
    while k < entries.len()
        invariant
            k <= entries.len(),
            units == usable_views(entries@),
            picks == digit_picks(digits@),
            entries.len() == units.len(),
            digits.len() == picks.len(),
            picks_in_range(units, picks),
            forall|j: int| 0 <= j < units.len() ==> #[trigger] units[j] == entries[j]@,
            forall|j: int| 0 <= j < picks.len() ==> #[trigger] picks[j] == digits[j],
            start == Tally::start(cost@),
            use_units(units.take(k as int), picks.take(k as int), start) == Some(
                Tally { owed: owed@, left: left@, right: right@ },
            ),
            owed@.within(i32::MIN - k, i32::MAX as int),
        decreases entries.len() - k,
    {
        let entry = &entries[k];
        let digit: usize = digits[k];
        let ghost so_far = Tally { owed: owed@, left: left@, right: right@ };
        proof {
            lemma_use_units_step(units, picks, start, k as int);
            assert(units[k as int] == entry@);
            assert(picks[k as int] == digit);
            assert(0 <= picks[k as int] < units[k as int].ways());
        }
        if entry.source == Source::Own {
            let resource = entry.resources[digit];
            proof {
                assert(so_far.owed.amount(resource) >= i32::MIN - k);
                lemma_minus_within(so_far.owed, resource, i32::MIN - k, i32::MAX as int);
            }
            owed.take(resource);
        } else if digit > 0 {
            let resource = entry.resources[digit - 1];
            if owed.coins <= -(BORROW_PRICE as i128) && owed.amount(resource) > 0 {
                proof {
                    assert(so_far.owed.amount(Resource::Coins) >= i32::MIN - k);
                    lemma_minus_within(so_far.owed, resource, i32::MIN - k, i32::MAX as int);
                    lemma_charge_within(so_far.owed.minus(resource), i32::MIN - k - 1, i32::MAX as int);
                }
                owed.take(resource);
                owed.charge(BORROW_PRICE);
                if entry.source == Source::LeftNeighbour {
                    left.push(Borrow::new(entry.card, resource));
                } else {
                    right.push(Borrow::new(entry.card, resource));
                }
            } else {
                proof {
                    lemma_void_stays_void(units, picks, start, k + 1);
                }
                return None;
            }
        } else {
            proof {
                lemma_widen_within(so_far.owed, i32::MIN - k, i32::MAX as int);
            }
        }
        k = k + 1;
    }
    proof {
        assert(units.take(entries.len() as int) =~= units);
        assert(picks.take(entries.len() as int) =~= picks);
    }
    if owed.satisfied() {
        let borrowing = Borrowing::new(left, right);
        Some(Action::Build(card, borrowing))
    } else {
        None
    }
}

/// Counts within bounds are within bounds that are one wider below.
proof fn lemma_widen_within(owed: Basket, low: int, high: int)
    requires
        owed.within(low, high),
    ensures
        owed.within(low - 1, high),
{
    assert forall|r: Resource| low - 1 <= #[trigger] owed.amount(r) <= high by {
        assert(low <= owed.amount(r) <= high);
    }
}

/// A combination that is void after some of its usable resources stays void to the end.
proof fn lemma_void_stays_void(entries: Seq<Usable>, picks: Seq<int>, tally: Tally, upto: int)
    requires
        picks.len() == entries.len(),
        0 <= upto <= entries.len(),
        use_units(entries.take(upto), picks.take(upto), tally) is None,
    ensures
        use_units(entries, picks, tally) is None,
    decreases entries.len() - upto,
{
    if upto < entries.len() {
        assert(entries.take(upto + 1).drop_last() =~= entries.take(upto));
        assert(picks.take(upto + 1).drop_last() =~= picks.take(upto));
        lemma_void_stays_void(entries, picks, tally, upto + 1);
    } else {
        assert(entries.take(upto) =~= entries);
        assert(picks.take(upto) =~= picks);
    }
}

/// True if the digit is the highest pick that the usable resource allows.
fn is_last_way(entry: &UsableResources, digit: usize) -> (yes: bool)
    requires
        0 <= digit < entry@.ways(),
    ensures
        yes == (digit + 1 == entry@.ways()),
{
    assert(entry@.resources.len() == entry.resources.len());
    if entry.source == Source::Own {
        digit + 1 == entry.resources.len()
    } else {
        digit == entry.resources.len()
    }
}

/// Returns the actions that build `card` by paying `cost` out of `entries`. Without
/// `single_option`, these are all of them, one for each combination that works, in the order of
/// the combinations: see [`all_options`]. With `single_option`, the search stops at the first
/// combination that works, and at most that one action is returned.
pub fn resolve(card: Card, entries: &Vec<UsableResources>, cost: &Cost, single_option: bool) -> (actions:
    Vec<Action>)
    ensures
        !single_option ==> action_views(actions@) == all_options(card, usable_views(entries@), cost@),
        single_option ==> action_views(actions@) == first_of(
            all_options(card, usable_views(entries@), cost@),
        ),
{
    let ghost units = usable_views(entries@);
    let ghost count = combination_count(units);
    let mut actions: Vec<Action> = Vec::new();
    let mut digits: Vec<usize> = Vec::new();
    let mut k: usize = 0;
    while k < entries.len()
        invariant
            k <= entries.len(),
            units == usable_views(entries@),
            digits.len() == k,
            actions.len() == 0,
            forall|j: int| 0 <= j < k ==> #[trigger] digits[j] == 0,
            forall|j: int| 0 <= j < k ==> (#[trigger] units[j]).ways() > 0,
        decreases entries.len() - k,
    {
        assert(units[k as int] == entries[k as int]@);
        if entries[k].source == Source::Own && entries[k].resources.len() == 0 {
            proof {
                lemma_no_combination(units, k as int);
                assert(action_views(actions@) =~= Seq::empty());
            }
            return actions;
        }
        digits.push(0);
        k = k + 1;
    }
    let ghost mut combination: int = 0;
    proof {
        lemma_combination_bound(units, digit_picks(digits@));
        lemma_zero_combination(units, digit_picks(digits@));
        assert(action_views(actions@) =~= Seq::empty());
    }
    loop
        invariant
            units == usable_views(entries@),
            count == combination_count(units),
            picks_in_range(units, digit_picks(digits@)),
            combination == combination_of(units, digit_picks(digits@)),
            0 <= combination < count,
            action_views(actions@) == outcomes(card, units, cost@, combination),
            single_option ==> actions.len() == 0,
        decreases count - combination,
    {
        let ghost picks = digit_picks(digits@);
        let ghost before = actions@;
        let found = try_combination(card, entries, cost, &digits);
        proof {
            lemma_picks_of_combination(units, picks);
        }
        match found {
            Some(action) => {
                actions.push(action);
                proof {
                    assert(action_views(actions@) =~= action_views(before).push(action@));
                    assert(action_views(actions@) =~= outcomes(card, units, cost@, combination + 1));
                }
                if single_option {
                    proof {
                        lemma_outcomes_grow(card, units, cost@, combination + 1, count);
                        let all = all_options(card, units, cost@);
                        assert(all.take(1)[0] == all[0]);
                        assert(action_views(actions@) =~= first_of(all));
                    }
                    return actions;
                }
            },
            None => {
                assert(action_views(actions@) =~= outcomes(card, units, cost@, combination + 1));
            },
        }
        let mut place: usize = 0;
        while place < entries.len() && is_last_way(&entries[place], digits[place])
            invariant
                place <= entries.len(),
                digits.len() == entries.len(),
                units == usable_views(entries@),
                picks.len() == digits.len(),
                picks_in_range(units, picks),
                forall|j: int| 0 <= j < place ==> #[trigger] picks[j] == units[j].ways() - 1,
                forall|j: int| 0 <= j < place ==> #[trigger] digits[j] == 0,
                forall|j: int| place <= j < digits.len() ==> #[trigger] digits[j] == picks[j],
            decreases entries.len() - place,
        {
            assert(0 <= picks[place as int] < units[place as int].ways());
            digits.set(place, 0);
            place = place + 1;
        }
        if place == entries.len() {
            proof {
                lemma_last_combination(units, picks);
                if single_option {
                    assert(all_options(card, units, cost@) =~= Seq::empty());
                }
            }
            return actions;
        }
        assert(0 <= picks[place as int] < units[place as int].ways());
        assert(units[place as int] == entries[place as int]@);
        assert(units[place as int].ways() <= entries[place as int].resources.len() + 1);
        let digit: usize = digits[place];
        digits.set(place, digit + 1);
        proof {
            lemma_next_combination(units, picks, place as int);
            assert(digit_picks(digits@) =~= next_picks(picks, place as int));
            lemma_combination_bound(units, digit_picks(digits@));
            combination = combination + 1;
        }
    }
}

/// The combination whose picks are all 0 has the number 0.
proof fn lemma_zero_combination(entries: Seq<Usable>, picks: Seq<int>)
    requires
        picks.len() == entries.len(),
        forall|k: int| 0 <= k < picks.len() ==> #[trigger] picks[k] == 0,
    ensures
        combination_of(entries, picks) == 0,
    decreases entries.len(),
{
    if entries.len() > 0 {
        assert forall|k: int| 0 <= k < picks.drop_first().len() implies #[trigger] picks.drop_first()[k]
            == 0 by {
            assert(picks[k + 1] == picks.drop_first()[k]);
        }
        lemma_zero_combination(entries.drop_first(), picks.drop_first());
        assert(picks[0] == 0);
        assert(entries.first().ways() * 0 == 0) by (nonlinear_arith);
    }
}

} // verus!
