//! Why the order of the usable resources does not matter for what can be built: a combination that
//! works for the usable resources in one order has a counterpart, with the same borrows, for the
//! same usable resources in any other order.

use vstd::multiset::Multiset;
use vstd::prelude::*;

use crate::action::ActionView;
use crate::action::Borrow;
use crate::card::Card;
use crate::resolver::BORROW_PRICE;
use crate::resolver::Source;
use crate::resolver::Tally;
use crate::resolver::Usable;
use crate::resolver::all_options;
use crate::resolver::combination_count;
use crate::resolver::combination_of;
use crate::resolver::lemma_combination_bound;
use crate::resolver::lemma_picks_of_combination;
use crate::resolver::outcome;
use crate::resolver::outcomes;
use crate::resolver::picks_in_range;
use crate::resolver::use_unit;
use crate::resolver::use_units;
use crate::resources::Basket;
use crate::resources::Resource;
use crate::tally_laws::all_material;
use crate::tally_laws::lemma_option_origin;
use crate::tally_laws::own_first;

verus! {

/// What a combination comes to, whatever the order in which the usable resources are gone through:
/// the units that are taken of each resource, those among them that are borrowed, and the borrows
/// from each neighbour.
#[verifier::ext_equal]
pub struct Summary {
    pub taken: Basket,
    pub borrowed: Basket,
    pub left: Multiset<Borrow>,
    pub right: Multiset<Borrow>,
}

/// The basket with one unit more of `resource`.
pub open spec fn one_more(basket: Basket, resource: Resource) -> Basket {
    basket.with(resource, basket.amount(resource) + 1)
}

impl Summary {
    /// The summary of the combination that has gone through nothing yet.
    pub open spec fn none() -> Summary {
        Summary {
            taken: Basket::empty(),
            borrowed: Basket::empty(),
            left: Multiset::empty(),
            right: Multiset::empty(),
        }
    }

    /// The number of borrowed units.
    pub open spec fn count(self) -> int {
        (self.left.len() + self.right.len()) as int
    }

    /// The summary with one more usable resource dealt with in the way that `pick` numbers.
    pub open spec fn and(self, entry: Usable, pick: int) -> Summary {
        if entry.source == Source::Own {
            Summary { taken: one_more(self.taken, entry.resources[pick]), ..self }
        } else if pick == 0 {
            self
        } else {
            let resource = entry.resources[pick - 1];
            let borrow = Borrow { card: entry.card, resource };
            let taken = one_more(self.taken, resource);
            let borrowed = one_more(self.borrowed, resource);
            if entry.source == Source::LeftNeighbour {
                Summary { taken, borrowed, left: self.left.insert(borrow), right: self.right }
            } else {
                Summary { taken, borrowed, left: self.left, right: self.right.insert(borrow) }
            }
        }
    }

    /// True if a combination with this summary is not void for a player who owes `owed`: the
    /// coins cover the price of all borrowed units, and of no resource that is borrowed is more
    /// taken than is owed.
    pub open spec fn accepted(self, owed: Basket) -> bool {
        &&& self.count() > 0 ==> owed.coins + BORROW_PRICE * self.count() <= 0
        &&& forall|resource: Resource|
            #[trigger] self.borrowed.amount(resource) > 0 ==> owed.amount(resource) - self.taken.amount(
                resource,
            ) >= 0
    }

    /// What is owed after a combination with this summary.
    pub open spec fn left_owed(self, owed: Basket) -> Basket {
        owed.less(self.taken).charge(BORROW_PRICE * self.count())
    }
}

/// The summary of the combination that the picks make up.
pub open spec fn summary(entries: Seq<Usable>, picks: Seq<int>) -> Summary
    decreases entries.len(),
{
    if entries.len() == 0 {
        Summary::none()
    } else {
        summary(entries.drop_last(), picks.drop_last()).and(entries.last(), picks.last())
    }
}

/// True if some combination of the usable resources has the given summary.
pub open spec fn can_reach(entries: Seq<Usable>, wanted: Summary) -> bool {
    exists|picks: Seq<int>| #[trigger] picks_in_range(entries, picks) && summary(entries, picks) == wanted
}

/// It makes no difference which of two usable resources is dealt with first.
proof fn lemma_and_commutes(start: Summary, first: Usable, first_pick: int, second: Usable, second_pick: int)
    ensures
        start.and(first, first_pick).and(second, second_pick) == start.and(second, second_pick).and(
            first,
            first_pick,
        ),
{
    let one = start.and(first, first_pick).and(second, second_pick);
    let other = start.and(second, second_pick).and(first, first_pick);
    assert(one.left =~= other.left);
    assert(one.right =~= other.right);
    assert(one.taken == other.taken);
    assert(one.borrowed == other.borrowed);
}

/// The picks without the last one are in range for the usable resources without the last one.
proof fn lemma_fewer_in_range(entries: Seq<Usable>, picks: Seq<int>)
    requires
        picks_in_range(entries, picks),
        entries.len() > 0,
    ensures
        picks_in_range(entries.drop_last(), picks.drop_last()),
        0 <= picks.last() < entries.last().ways(),
{
    assert forall|k: int| 0 <= k < entries.drop_last().len() implies 0 <= #[trigger] picks.drop_last()[k]
        < entries.drop_last()[k].ways() by {
        assert(0 <= picks[k] < entries[k].ways());
    }
    assert(0 <= picks[entries.len() - 1] < entries[entries.len() - 1].ways());
}

/// A usable resource that is put in at any place adds to the summary what it adds at the end.
proof fn lemma_summary_insert(entries: Seq<Usable>, picks: Seq<int>, place: int, entry: Usable, pick: int)
    requires
        picks.len() == entries.len(),
        0 <= place <= entries.len(),
    ensures
        summary(entries.insert(place, entry), picks.insert(place, pick)) == summary(entries, picks).and(
            entry,
            pick,
        ),
    decreases entries.len(),
{
    let more = entries.insert(place, entry);
    let more_picks = picks.insert(place, pick);
    if place == entries.len() {
        assert(more.drop_last() =~= entries);
        assert(more_picks.drop_last() =~= picks);
        assert(more.last() == entry);
        assert(more_picks.last() == pick);
    } else {
        let fewer = entries.drop_last();
        let fewer_picks = picks.drop_last();
        lemma_summary_insert(fewer, fewer_picks, place, entry, pick);
        assert(more.drop_last() =~= fewer.insert(place, entry));
        assert(more_picks.drop_last() =~= fewer_picks.insert(place, pick));
        assert(more.last() == entries.last());
        assert(more_picks.last() == picks.last());
        lemma_and_commutes(summary(fewer, fewer_picks), entry, pick, entries.last(), picks.last());
    }
}

/// A summary that can be reached with the usable resources in one order can be reached with them
/// in any other order.
pub proof fn lemma_reach_in_any_order(entries: Seq<Usable>, others: Seq<Usable>, wanted: Summary)
    requires
        entries.to_multiset() == others.to_multiset(),
        can_reach(others, wanted),
    ensures
        can_reach(entries, wanted),
    decreases others.len(),
{
    broadcast use vstd::seq_lib::group_to_multiset_ensures;

    assert(entries.to_multiset().len() == entries.len());
    assert(others.to_multiset().len() == others.len());
    let other_picks = choose|picks: Seq<int>|
        #[trigger] picks_in_range(others, picks) && summary(others, picks) == wanted;
    if others.len() == 0 {
        assert(entries =~= others);
    } else {
        let entry = others.last();
        let pick = other_picks.last();
        lemma_fewer_in_range(others, other_picks);
        let fewer_others = others.drop_last();
        let before = summary(fewer_others, other_picks.drop_last());
        assert(can_reach(fewer_others, before));
        assert(others.contains(entry));
        assert(entries.to_multiset().count(entry) > 0);
        assert(entries.contains(entry));
        let place = choose|place: int| 0 <= place < entries.len() && entries[place] == entry;
        let fewer = entries.remove(place);
        assert(fewer_others =~= others.remove(others.len() - 1));
        assert(fewer.to_multiset() =~= fewer_others.to_multiset());
        lemma_reach_in_any_order(fewer, fewer_others, before);
        let fewer_picks = choose|picks: Seq<int>|
            #[trigger] picks_in_range(fewer, picks) && summary(fewer, picks) == before;
        let picks = fewer_picks.insert(place, pick);
        assert(fewer.insert(place, entry) =~= entries);
        lemma_summary_insert(fewer, fewer_picks, place, entry, pick);
        assert(picks_in_range(entries, picks)) by {
            assert forall|k: int| 0 <= k < entries.len() implies 0 <= #[trigger] picks[k] < entries[k].ways() by {
                if k < place {
                    assert(picks[k] == fewer_picks[k]);
                    assert(entries[k] == fewer[k]);
                } else if k > place {
                    assert(picks[k] == fewer_picks[k - 1]);
                    assert(entries[k] == fewer[k - 1]);
                }
            }
        }
        assert(summary(entries, picks) == wanted);
    }
}

/// The borrows of a list as a multiset have as many members as the list is long.
proof fn lemma_borrows_len(borrows: Seq<Borrow>)
    ensures
        borrows.to_multiset().len() == borrows.len(),
{
    vstd::seq_lib::to_multiset_len(borrows);
}

/// What the tally of a combination has to do with its summary.
pub open spec fn tally_matches(tally: Tally, owed: Basket, total: Summary) -> bool {
    &&& tally.owed == total.left_owed(owed)
    &&& tally.left.to_multiset() == total.left
    &&& tally.right.to_multiset() == total.right
}

/// What holds of the summary of any combination of usable resources of which none offers coins:
/// no coins are taken, and of no resource more units are borrowed than are taken.
pub open spec fn summary_sound(total: Summary) -> bool {
    &&& total.taken.coins == 0
    &&& total.borrowed.coins == 0
    &&& forall|resource: Resource| 0 <= #[trigger] total.borrowed.amount(resource) <= total.taken.amount(resource)
    &&& total.count() == 0 <==> total.borrowed == Basket::empty()
}

/// Every usable resource is one of the player's own.
pub open spec fn all_own(entries: Seq<Usable>) -> bool {
    forall|k: int| 0 <= k < entries.len() ==> (#[trigger] entries[k]).source == Source::Own
}

/// One more usable resource keeps a summary sound.
proof fn lemma_sound_step(before: Summary, entry: Usable, pick: int)
    requires
        summary_sound(before),
        0 <= pick < entry.ways(),
        !entry.resources.contains(Resource::Coins),
    ensures
        summary_sound(before.and(entry, pick)),
        entry.source == Source::Own ==> before.and(entry, pick).count() == before.count(),
{
    broadcast use vstd::multiset::group_multiset_axioms;

    let total = before.and(entry, pick);
    if entry.source == Source::Own {
        let used = entry.resources[pick];
        assert(entry.resources.contains(used));
        assert forall|resource: Resource|
            0 <= #[trigger] total.borrowed.amount(resource) <= total.taken.amount(resource) by {
            assert(0 <= before.borrowed.amount(resource) <= before.taken.amount(resource));
        }
    } else if pick > 0 {
        let used = entry.resources[pick - 1];
        assert(entry.resources.contains(used));
        assert forall|resource: Resource|
            0 <= #[trigger] total.borrowed.amount(resource) <= total.taken.amount(resource) by {
            assert(0 <= before.borrowed.amount(resource) <= before.taken.amount(resource));
        }
        assert(total.borrowed.amount(used) > 0);
        assert(Basket::empty().amount(used) == 0);
        assert(total.count() == before.count() + 1);
    }
}

/// The summary of a combination is sound, and borrows nothing where every usable resource is the
/// player's own.
pub proof fn lemma_summary_sound(entries: Seq<Usable>, picks: Seq<int>)
    requires
        picks_in_range(entries, picks),
        all_material(entries),
    ensures
        summary_sound(summary(entries, picks)),
        all_own(entries) ==> summary(entries, picks).count() == 0,
    decreases entries.len(),
{
    broadcast use vstd::multiset::group_multiset_axioms;

    if entries.len() > 0 {
        let fewer = entries.drop_last();
        lemma_fewer_in_range(entries, picks);
        assert(all_material(fewer)) by {
            assert forall|k: int| 0 <= k < fewer.len() implies !(#[trigger] fewer[k]).resources.contains(
                Resource::Coins,
            ) by {
                assert(fewer[k] == entries[k]);
            }
        }
        lemma_summary_sound(fewer, picks.drop_last());
        assert(entries[entries.len() - 1] == entries.last());
        lemma_sound_step(summary(fewer, picks.drop_last()), entries.last(), picks.last());
        if all_own(entries) {
            assert(all_own(fewer)) by {
                assert forall|k: int| 0 <= k < fewer.len() implies (#[trigger] fewer[k]).source == Source::Own by {
                    assert(fewer[k] == entries[k]);
                }
            }
        }
    }
}

/// What one more usable resource does to a tally that matches its summary: the combination
/// stays alive exactly if the summary stays accepted, and then the tally matches the summary again.
proof fn lemma_decides_step(before: Summary, so_far: Option<Tally>, entry: Usable, pick: int, owed: Basket)
    requires
        summary_sound(before),
        0 <= pick < entry.ways(),
        !entry.resources.contains(Resource::Coins),
        entry.source == Source::Own ==> before.count() == 0,
        so_far is Some <==> before.accepted(owed),
        so_far matches Some(tally) ==> tally_matches(tally, owed, before),
    ensures
        ({
            let after = match so_far {
                Some(tally) => use_unit(entry, pick, tally),
                None => None,
            };
            let total = before.and(entry, pick);
            &&& after is Some <==> total.accepted(owed)
            &&& after matches Some(tally) ==> tally_matches(tally, owed, total)
        }),
{
    broadcast use vstd::multiset::group_multiset_axioms;
    broadcast use vstd::seq_lib::group_to_multiset_ensures;

    let total = before.and(entry, pick);
    lemma_sound_step(before, entry, pick);
    if entry.source == Source::Own {
        let used = entry.resources[pick];
        assert(entry.resources.contains(used));
        assert(before.borrowed == Basket::empty());
        assert(before.accepted(owed));
        assert(total.accepted(owed));
        let tally = so_far->0;
        let after = use_unit(entry, pick, tally)->0;
        assert(after.owed == total.left_owed(owed));
    } else if pick > 0 {
        let used = entry.resources[pick - 1];
        assert(entry.resources.contains(used));
        assert(total.count() == before.count() + 1);
        assert(BORROW_PRICE * (before.count() + 1) == BORROW_PRICE * before.count() + BORROW_PRICE);
        assert(total.borrowed.amount(used) > 0);
        if total.accepted(owed) {
            assert(before.accepted(owed)) by {
                assert forall|resource: Resource| #[trigger]
                    before.borrowed.amount(resource) > 0 implies owed.amount(resource) - before.taken.amount(
                    resource,
                ) >= 0 by {
                    assert(total.borrowed.amount(resource) > 0);
                    assert(owed.amount(resource) - total.taken.amount(resource) >= 0);
                }
            }
            let tally = so_far->0;
            assert(owed.amount(used) - total.taken.amount(used) >= 0);
            assert(tally.owed.amount(used) == owed.amount(used) - before.taken.amount(used));
            assert(tally.owed.has(used));
            assert(tally.owed.coins <= -BORROW_PRICE);
        }
        match so_far {
            Some(tally) => {
                match use_unit(entry, pick, tally) {
                    Some(after) => {
                        assert(tally.owed.amount(used) == owed.amount(used) - before.taken.amount(used));
                        assert(after.owed == total.left_owed(owed));
                        assert(after.left.to_multiset() =~= total.left);
                        assert(after.right.to_multiset() =~= total.right);
                        assert(total.accepted(owed)) by {
                            assert forall|resource: Resource| #[trigger]
                                total.borrowed.amount(resource) > 0 implies owed.amount(resource)
                                - total.taken.amount(resource) >= 0 by {
                                if resource != used {
                                    assert(before.borrowed.amount(resource) > 0);
                                    assert(owed.amount(resource) - before.taken.amount(resource) >= 0);
                                }
                            }
                        }
                    },
                    None => {},
                }
            },
            None => {},
        }
    }
}

/// A combination is void exactly if its summary is not accepted, and where it is not void, its
/// tally is what its summary says.
pub proof fn lemma_summary_decides(entries: Seq<Usable>, picks: Seq<int>, owed: Basket)
    requires
        picks_in_range(entries, picks),
        all_material(entries),
        own_first(entries),
    ensures
        use_units(entries, picks, Tally::start(owed)) is Some <==> summary(entries, picks).accepted(owed),
        use_units(entries, picks, Tally::start(owed)) matches Some(tally) ==> tally_matches(
            tally,
            owed,
            summary(entries, picks),
        ),
    decreases entries.len(),
{
    let start = Tally::start(owed);
    if entries.len() == 0 {
        lemma_borrows_len(Seq::empty());
        vstd::multiset::lemma_multiset_empty_len(Seq::<Borrow>::empty().to_multiset());
        assert(start.owed == Summary::none().left_owed(owed));
        assert(start.left.to_multiset() =~= Summary::none().left);
        assert(start.right.to_multiset() =~= Summary::none().right);
    } else {
        let fewer = entries.drop_last();
        let fewer_picks = picks.drop_last();
        lemma_fewer_in_range(entries, picks);
        assert(all_material(fewer)) by {
            assert forall|k: int| 0 <= k < fewer.len() implies !(#[trigger] fewer[k]).resources.contains(
                Resource::Coins,
            ) by {
                assert(fewer[k] == entries[k]);
            }
        }
        assert(own_first(fewer)) by {
            assert forall|j: int, k: int|
                0 <= j < k < fewer.len() && (#[trigger] fewer[k]).source == Source::Own implies (
            #[trigger] fewer[j]).source == Source::Own by {
                assert(fewer[k] == entries[k]);
                assert(fewer[j] == entries[j]);
            }
        }
        lemma_summary_decides(fewer, fewer_picks, owed);
        lemma_summary_sound(fewer, fewer_picks);
        let entry = entries.last();
        assert(entries[entries.len() - 1] == entry);
        if entry.source == Source::Own {
            assert(all_own(fewer)) by {
                assert forall|k: int| 0 <= k < fewer.len() implies (#[trigger] fewer[k]).source == Source::Own by {
                    assert(fewer[k] == entries[k]);
                }
            }
        }
        lemma_decides_step(
            summary(fewer, fewer_picks),
            use_units(fewer, fewer_picks, start),
            entry,
            picks.last(),
            owed,
        );
    }
}

/// An action that one combination gives is among the actions of all combinations.
proof fn lemma_outcome_is_listed(card: Card, entries: Seq<Usable>, owed: Basket, combination: int, upto: int) -> (place:
    int)
    requires
        0 <= combination < upto,
        outcome(card, entries, owed, combination).len() > 0,
    ensures
        0 <= place < outcomes(card, entries, owed, upto).len(),
        outcomes(card, entries, owed, upto)[place] == outcome(card, entries, owed, combination)[0],
    decreases upto,
{
    if combination == upto - 1 {
        outcomes(card, entries, owed, upto - 1).len() as int
    } else {
        lemma_outcome_is_listed(card, entries, owed, combination, upto - 1)
    }
}

/// True if the option builds `card` with borrows that, as multisets, are the given ones.
pub open spec fn builds_from(option: ActionView, card: Card, left: Multiset<Borrow>, right: Multiset<Borrow>) -> bool {
    option matches ActionView::Build(built, borrowing) && built == card && borrowing.left.to_multiset() == left
        && borrowing.right.to_multiset() == right
}

/// The options for the usable resources in one order are, but for the order of their borrows, among
/// the options for the same usable resources in any other order.
pub proof fn lemma_options_in_any_order(
    card: Card,
    entries: Seq<Usable>,
    others: Seq<Usable>,
    owed: Basket,
    i: int,
) -> (place: int)
    requires
        entries.to_multiset() == others.to_multiset(),
        all_material(entries),
        own_first(entries),
        all_material(others),
        own_first(others),
        0 <= i < all_options(card, others, owed).len(),
    ensures
        0 <= place < all_options(card, entries, owed).len(),
        all_options(card, others, owed)[i] matches ActionView::Build(built, borrowing) && built == card
            && builds_from(
            all_options(card, entries, owed)[place],
            card,
            borrowing.left.to_multiset(),
            borrowing.right.to_multiset(),
        ),
{
    lemma_option_origin(card, others, owed, i);
    let other_picks = choose|picks: Seq<int>|
        {
            &&& picks_in_range(others, picks)
            &&& #[trigger] use_units(others, picks, Tally::start(owed)) matches Some(tally)
            &&& tally.owed.satisfied()
            &&& all_options(card, others, owed)[i] == ActionView::Build(card, tally.borrowing())
        };
    let other_tally = use_units(others, other_picks, Tally::start(owed))->0;
    lemma_summary_decides(others, other_picks, owed);
    let total = summary(others, other_picks);
    assert(can_reach(others, total));
    lemma_reach_in_any_order(entries, others, total);
    let picks = choose|picks: Seq<int>| #[trigger] picks_in_range(entries, picks) && summary(entries, picks) == total;
    lemma_summary_decides(entries, picks, owed);
    let tally = use_units(entries, picks, Tally::start(owed))->0;
    assert(tally.owed == other_tally.owed);
    let combination = combination_of(entries, picks);
    lemma_combination_bound(entries, picks);
    lemma_picks_of_combination(entries, picks);
    assert(outcome(card, entries, owed, combination) =~= seq![ActionView::Build(card, tally.borrowing())]);
    lemma_outcome_is_listed(card, entries, owed, combination, combination_count(entries))
}

} // verus!
