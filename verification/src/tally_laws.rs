//! What holds of every combination of usable resources, however its picks are made: what it
//! borrows is on offer, what it takes is owed, and what it costs is paid.

use vstd::prelude::*;

use crate::action::ActionView;
use crate::action::Borrow;
use crate::card::Card;
use crate::resolver::BORROW_PRICE;
use crate::resolver::Source;
use crate::resolver::Tally;
use crate::resolver::Usable;
use crate::resolver::all_options;
use crate::resolver::combination_count;
use crate::resolver::lemma_no_combination;
use crate::resolver::outcome;
use crate::resolver::outcomes;
use crate::resolver::picks_in_range;
use crate::resolver::picks_of;
use crate::resolver::use_unit;
use crate::resolver::use_units;
use crate::resources::Basket;
use crate::resources::Resource;

verus! {

/// The number of units of `resource` among the given borrows.
pub open spec fn units_of(borrows: Seq<Borrow>, resource: Resource) -> int
    decreases borrows.len(),
{
    if borrows.len() == 0 {
        0
    } else if borrows.last().resource == resource {
        units_of(borrows.drop_last(), resource) + 1
    } else {
        units_of(borrows.drop_last(), resource)
    }
}

/// The borrow takes one of the usable resources of the given source, as a resource that it offers.
pub open spec fn borrowed_from(borrow: Borrow, entries: Seq<Usable>, source: Source) -> bool {
    exists|k: int|
        0 <= k < entries.len() && (#[trigger] entries[k]).source == source && entries[k].card
            == borrow.card && entries[k].resources.contains(borrow.resource)
}

/// No usable resource offers coins.
pub open spec fn all_material(entries: Seq<Usable>) -> bool {
    forall|k: int| 0 <= k < entries.len() ==> !(#[trigger] entries[k]).resources.contains(Resource::Coins)
}

/// The usable resources of the player's own come before those of the neighbours.
pub open spec fn own_first(entries: Seq<Usable>) -> bool {
    forall|j: int, k: int|
        0 <= j < k < entries.len() && (#[trigger] entries[k]).source == Source::Own ==> (
        #[trigger] entries[j]).source == Source::Own
}

/// What holds of a tally that was reached from `owed` by going through `entries`.
pub open spec fn tally_sound(entries: Seq<Usable>, owed: Basket, tally: Tally) -> bool {
    &&& tally.owed.coins == owed.coins + BORROW_PRICE * (tally.left.len() + tally.right.len())
    &&& forall|i: int|
        0 <= i < tally.left.len() ==> borrowed_from(#[trigger] tally.left[i], entries, Source::LeftNeighbour)
    &&& forall|i: int|
        0 <= i < tally.right.len() ==> borrowed_from(
            #[trigger] tally.right[i],
            entries,
            Source::RightNeighbour,
        )
    &&& forall|resource: Resource|
        resource != Resource::Coins ==> #[trigger] tally.owed.amount(resource) <= owed.amount(resource)
            - units_of(tally.left, resource) - units_of(tally.right, resource)
    &&& forall|resource: Resource|
        units_of(tally.left, resource) + units_of(tally.right, resource) > 0
            ==> #[trigger] tally.owed.amount(resource) >= 0
    &&& forall|resource: Resource|
        #![trigger units_of(tally.left, resource)]
        #![trigger units_of(tally.right, resource)]
        units_of(tally.left, resource) >= 0 && units_of(tally.right, resource) >= 0
    &&& (forall|k: int| 0 <= k < entries.len() ==> (#[trigger] entries[k]).source == Source::Own)
        ==> tally.left.len() == 0 && tally.right.len() == 0
}

/// A borrow from some of the usable resources is a borrow from all of them.
proof fn lemma_borrowed_from_more(borrow: Borrow, entries: Seq<Usable>, source: Source)
    requires
        entries.len() > 0,
        borrowed_from(borrow, entries.drop_last(), source),
    ensures
        borrowed_from(borrow, entries, source),
{
    let fewer = entries.drop_last();
    let k = choose|k: int|
        0 <= k < fewer.len() && (#[trigger] fewer[k]).source == source && fewer[k].card == borrow.card
            && fewer[k].resources.contains(borrow.resource);
    assert(entries[k] == fewer[k]);
}

/// However the usable resources are dealt with, as long as none of them offers coins and the
/// player's own come first: the coins owed go up by the price of each borrowed unit, every
/// borrowed unit is one that a neighbour offers, and of no resource is more borrowed than is
/// owed.
pub proof fn lemma_use_units_sound(entries: Seq<Usable>, picks: Seq<int>, owed: Basket)
    requires
        picks_in_range(entries, picks),
        all_material(entries),
        own_first(entries),
    ensures
        match use_units(entries, picks, Tally::start(owed)) {
            Some(tally) => tally_sound(entries, owed, tally),
            None => true,
        },
    decreases entries.len(),
{
    let start = Tally::start(owed);
    if entries.len() == 0 {
        assert(tally_sound(entries, owed, start));
    } else {
        let fewer = entries.drop_last();
        let fewer_picks = picks.drop_last();
        assert(picks_in_range(fewer, fewer_picks)) by {
            assert forall|k: int| 0 <= k < fewer.len() implies 0 <= #[trigger] fewer_picks[k]
                < fewer[k].ways() by {
                assert(0 <= picks[k] < entries[k].ways());
            }
        }
        assert(all_material(fewer)) by {
            assert forall|k: int| 0 <= k < fewer.len() implies !(#[trigger] fewer[k]).resources.contains(
                Resource::Coins,
            ) by {
                assert(fewer[k] == entries[k]);
            }
        }
        assert(own_first(fewer)) by {
            assert forall|j: int, k: int|
                0 <= j < k < fewer.len() && (#[trigger] fewer[k]).source == Source::Own implies (
            #[trigger] fewer[j]).source == Source::Own by {
                assert(fewer[k] == entries[k]);
                assert(fewer[j] == entries[j]);
            }
        }
        lemma_use_units_sound(fewer, fewer_picks, owed);
        match use_units(fewer, fewer_picks, start) {
            None => {},
            Some(before) => {
                let entry = entries.last();
                let pick = picks.last();
                assert(0 <= picks[entries.len() - 1] < entries[entries.len() - 1].ways());
                assert(!entry.resources.contains(Resource::Coins));
                match use_unit(entry, pick, before) {
                    None => {},
                    Some(after) => {
                        assert forall|i: int| 0 <= i < before.left.len() implies borrowed_from(
                            #[trigger] before.left[i],
                            entries,
                            Source::LeftNeighbour,
                        ) by {
                            lemma_borrowed_from_more(before.left[i], entries, Source::LeftNeighbour);
                        }
                        assert forall|i: int| 0 <= i < before.right.len() implies borrowed_from(
                            #[trigger] before.right[i],
                            entries,
                            Source::RightNeighbour,
                        ) by {
                            lemma_borrowed_from_more(before.right[i], entries, Source::RightNeighbour);
                        }
                        if entry.source == Source::Own {
                            let used = entry.resources[pick];
                            assert(entry.resources.contains(used));
                            assert(used != Resource::Coins);
                            assert forall|k: int| 0 <= k < fewer.len() implies (#[trigger] fewer[k]).source
                                == Source::Own by {
                                assert(entries[entries.len() - 1].source == Source::Own);
                                assert(fewer[k] == entries[k]);
                            }
                            assert(before.left.len() == 0 && before.right.len() == 0);
                            assert forall|resource: Resource|
                                resource != Resource::Coins implies #[trigger] after.owed.amount(resource)
                                <= owed.amount(resource) - units_of(after.left, resource) - units_of(
                                after.right,
                                resource,
                            ) by {
                                assert(before.owed.amount(resource) <= owed.amount(resource) - units_of(
                                    before.left,
                                    resource,
                                ) - units_of(before.right, resource));
                            }
                            assert(tally_sound(entries, owed, after));
                        } else if pick == 0 {
                            assert(entries[entries.len() - 1].source != Source::Own);
                            assert(tally_sound(entries, owed, after));
                        } else {
                            let used = entry.resources[pick - 1];
                            let borrow = Borrow { card: entry.card, resource: used };
                            assert(entry.resources.contains(used));
                            assert(used != Resource::Coins);
                            assert(entries[entries.len() - 1].source != Source::Own);
                            assert(borrowed_from(borrow, entries, entry.source)) by {
                                assert(entries[entries.len() - 1].card == borrow.card);
                            }
                            if entry.source == Source::LeftNeighbour {
                                assert(after.left.drop_last() =~= before.left);
                                assert(after.left.last() == borrow);
                                assert(after.right == before.right);
                            } else {
                                assert(after.right.drop_last() =~= before.right);
                                assert(after.right.last() == borrow);
                                assert(after.left == before.left);
                            }
                            assert forall|resource: Resource|
                                resource != Resource::Coins implies #[trigger] after.owed.amount(resource)
                                <= owed.amount(resource) - units_of(after.left, resource) - units_of(
                                after.right,
                                resource,
                            ) by {
                                assert(before.owed.amount(resource) <= owed.amount(resource) - units_of(
                                    before.left,
                                    resource,
                                ) - units_of(before.right, resource));
                            }
                            assert forall|resource: Resource|
                                units_of(after.left, resource) + units_of(after.right, resource)
                                    > 0 implies #[trigger] after.owed.amount(resource) >= 0 by {
                                assert(units_of(before.left, resource) >= 0);
                                assert(units_of(before.right, resource) >= 0);
                                if resource != used {
                                    assert(units_of(before.left, resource) + units_of(
                                        before.right,
                                        resource,
                                    ) > 0);
                                    assert(before.owed.amount(resource) >= 0);
                                    if resource == Resource::Coins {
                                        assert(before.owed.amount(Resource::Coins) <= -BORROW_PRICE);
                                    }
                                }
                            }
                            assert forall|resource: Resource|
                                #![trigger units_of(after.left, resource)]
                                #![trigger units_of(after.right, resource)]
                                units_of(after.left, resource) >= 0 && units_of(after.right, resource)
                                    >= 0 by {
                                assert(units_of(before.left, resource) >= 0);
                                assert(units_of(before.right, resource) >= 0);
                            }
                            assert(tally_sound(entries, owed, after));
                        }
                    },
                }
            },
        }
    }
}

/// Where there is a combination at all, every usable resource can be dealt with in some way.
proof fn lemma_every_ways_positive(entries: Seq<Usable>)
    requires
        combination_count(entries) > 0,
    ensures
        forall|k: int| 0 <= k < entries.len() ==> (#[trigger] entries[k]).ways() > 0,
{
    assert forall|k: int| 0 <= k < entries.len() implies (#[trigger] entries[k]).ways() > 0 by {
        if entries[k].ways() == 0 {
            lemma_no_combination(entries, k);
        }
    }
}

/// The picks of a combination number one of the ways of each usable resource.
proof fn lemma_picks_of_in_range(entries: Seq<Usable>, combination: int)
    requires
        forall|k: int| 0 <= k < entries.len() ==> (#[trigger] entries[k]).ways() > 0,
    ensures
        picks_in_range(entries, picks_of(entries, combination)),
    decreases entries.len(),
{
    if entries.len() > 0 {
        let ways = entries.first().ways();
        assert(entries[0].ways() > 0);
        let rest = entries.drop_first();
        assert forall|k: int| 0 <= k < rest.len() implies (#[trigger] rest[k]).ways() > 0 by {
            assert(rest[k] == entries[k + 1]);
        }
        lemma_picks_of_in_range(rest, combination / ways);
        let picks = picks_of(entries, combination);
        assert forall|k: int| 0 <= k < entries.len() implies 0 <= #[trigger] picks[k] < entries[k].ways() by {
            if k == 0 {
                vstd::arithmetic::div_mod::lemma_mod_bound(combination, ways);
            } else {
                assert(picks[k] == picks_of(rest, combination / ways)[k - 1]);
                assert(rest[k - 1] == entries[k]);
            }
        }
    }
}

/// Every action among the outcomes is the outcome of one combination.
pub proof fn lemma_outcomes_origin(card: Card, entries: Seq<Usable>, owed: Basket, upto: int, i: int)
    requires
        0 <= i < outcomes(card, entries, owed, upto).len(),
    ensures
        exists|combination: int|
            0 <= combination < upto && #[trigger] outcome(card, entries, owed, combination) == seq![
                outcomes(card, entries, owed, upto)[i],
            ],
    decreases upto,
{
    if upto > 0 {
        let before = outcomes(card, entries, owed, upto - 1);
        if i < before.len() {
            lemma_outcomes_origin(card, entries, owed, upto - 1, i);
            let combination = choose|combination: int|
                0 <= combination < upto - 1 && #[trigger] outcome(card, entries, owed, combination)
                    == seq![before[i]];
            assert(outcome(card, entries, owed, combination) == seq![outcomes(card, entries, owed, upto)[i]]);
        } else {
            assert(outcome(card, entries, owed, upto - 1) =~= seq![outcomes(card, entries, owed, upto)[i]]);
        }
    }
}

/// Every action among the options builds the card with what some combination borrows, and that
/// combination leaves nothing owed.
pub proof fn lemma_option_origin(card: Card, entries: Seq<Usable>, owed: Basket, i: int)
    requires
        0 <= i < all_options(card, entries, owed).len(),
    ensures
        exists|picks: Seq<int>|
            {
                &&& picks_in_range(entries, picks)
                &&& #[trigger] use_units(entries, picks, Tally::start(owed)) matches Some(tally)
                &&& tally.owed.satisfied()
                &&& all_options(card, entries, owed)[i] == ActionView::Build(card, tally.borrowing())
            },
{
    let count = combination_count(entries);
    lemma_outcomes_origin(card, entries, owed, count, i);
    let combination = choose|combination: int|
        0 <= combination < count && #[trigger] outcome(card, entries, owed, combination) == seq![
            all_options(card, entries, owed)[i],
        ];
    lemma_every_ways_positive(entries);
    lemma_picks_of_in_range(entries, combination);
    let picks = picks_of(entries, combination);
    let found = outcome(card, entries, owed, combination);
    assert(found.len() == 1);
    assert(found[0] == all_options(card, entries, owed)[i]);
    assert(use_units(entries, picks, Tally::start(owed)) is Some);
}

/// The number of usable resources that offer `resource`.
pub open spec fn on_offer(entries: Seq<Usable>, resource: Resource) -> int
    decreases entries.len(),
{
    if entries.len() == 0 {
        0
    } else if entries.last().resources.contains(resource) {
        on_offer(entries.drop_last(), resource) + 1
    } else {
        on_offer(entries.drop_last(), resource)
    }
}

/// However the usable resources are dealt with, of each resource at least as much stays owed as
/// was owed beyond the usable resources that offer it. The coins owed never go down at all.
pub proof fn lemma_use_units_at_least(entries: Seq<Usable>, picks: Seq<int>, owed: Basket, resource: Resource)
    requires
        picks_in_range(entries, picks),
    ensures
        on_offer(entries, resource) >= 0,
        match use_units(entries, picks, Tally::start(owed)) {
            Some(tally) => tally.owed.amount(resource) >= owed.amount(resource) - on_offer(entries, resource),
            None => true,
        },
    decreases entries.len(),
{
    if entries.len() > 0 {
        let fewer = entries.drop_last();
        let fewer_picks = picks.drop_last();
        assert(picks_in_range(fewer, fewer_picks)) by {
            assert forall|k: int| 0 <= k < fewer.len() implies 0 <= #[trigger] fewer_picks[k]
                < fewer[k].ways() by {
                assert(0 <= picks[k] < entries[k].ways());
            }
        }
        lemma_use_units_at_least(fewer, fewer_picks, owed, resource);
        match use_units(fewer, fewer_picks, Tally::start(owed)) {
            None => {},
            Some(before) => {
                let entry = entries.last();
                let pick = picks.last();
                assert(0 <= picks[entries.len() - 1] < entries[entries.len() - 1].ways());
                match use_unit(entry, pick, before) {
                    None => {},
                    Some(after) => {
                        if entry.source == Source::Own {
                            assert(entry.resources.contains(entry.resources[pick]));
                        } else if pick > 0 {
                            assert(entry.resources.contains(entry.resources[pick - 1]));
                        }
                    },
                }
            },
        }
    }
}

} // verus!
