//! The strength of a board: what the built structures are worth when the game ends.

use vstd::prelude::*;

use crate::card::Card;
use crate::card::Colour;
use crate::player::Player;
use crate::power::Ability;
use crate::power::Power;
use crate::power::ScienceItem;

verus! {

/// The points for each complete set of the three science symbols.
pub const SCIENCE_SET_POINTS: i32 = 7;

/// The number of times that `item` stands among `items`.
pub open spec fn shown(items: Seq<ScienceItem>, item: ScienceItem) -> int
    decreases items.len(),
{
    if items.len() == 0 {
        0
    } else if items.last() == item {
        shown(items.drop_last(), item) + 1
    } else {
        shown(items.drop_last(), item)
    }
}

/// The number of times that the science cards among `cards` show `item`. A card counts once for
/// each symbol that it lists.
pub open spec fn symbol_count(cards: Seq<Card>, item: ScienceItem) -> int
    decreases cards.len(),
{
    if cards.len() == 0 {
        0
    } else {
        symbol_count(cards.drop_last(), item) + match cards.last().spec_power() {
            Ability::Science(items) => shown(items, item),
            _ => 0,
        }
    }
}

/// The least of three numbers.
pub open spec fn least(a: int, b: int, c: int) -> int {
    if a <= b && a <= c {
        a
    } else if b <= c {
        b
    } else {
        c
    }
}

/// The score for science symbols: seven points for each complete set of the three symbols, and for
/// each symbol the square of the number of times that it is shown.
pub open spec fn science_score(compass: int, cog: int, tablet: int) -> int {
    SCIENCE_SET_POINTS * least(compass, cog, tablet) + compass * compass + cog * cog + tablet * tablet
}

/// The score of the science symbols that `cards` show.
pub open spec fn green_strength(cards: Seq<Card>) -> int {
    science_score(
        symbol_count(cards, ScienceItem::Compass),
        symbol_count(cards, ScienceItem::Cog),
        symbol_count(cards, ScienceItem::Tablet),
    )
}

/// The victory points that `cards` are worth, each by itself.
pub open spec fn immediate_points(cards: Seq<Card>) -> int
    decreases cards.len(),
{
    if cards.len() == 0 {
        0
    } else {
        immediate_points(cards.drop_last()) + cards.last().spec_immediate_strength()
    }
}

/// The strength of the cards of one colour: the science score for green cards, the sum of the
/// victory points for the cards of any other colour.
pub open spec fn colour_strength(cards: Seq<Card>) -> int {
    if cards.len() == 0 {
        0
    } else if cards.first().colour() == Colour::Green {
        green_strength(cards)
    } else {
        immediate_points(cards)
    }
}

/// Those of `cards` that have the given colour, in their order.
pub open spec fn cards_of_colour(cards: Seq<Card>, colour: Colour) -> Seq<Card>
    decreases cards.len(),
{
    if cards.len() == 0 {
        Seq::empty()
    } else if cards.last().colour() == colour {
        cards_of_colour(cards.drop_last(), colour).push(cards.last())
    } else {
        cards_of_colour(cards.drop_last(), colour)
    }
}

/// The strength of a board with the given structures: the sum, over the colours, of the strength
/// of the structures of that colour.
pub open spec fn strength_of(cards: Seq<Card>) -> int {
    colour_strength(cards_of_colour(cards, Colour::Brown)) + colour_strength(
        cards_of_colour(cards, Colour::Grey),
    ) + colour_strength(cards_of_colour(cards, Colour::Blue)) + colour_strength(
        cards_of_colour(cards, Colour::Yellow),
    ) + colour_strength(cards_of_colour(cards, Colour::Red)) + colour_strength(
        cards_of_colour(cards, Colour::Green),
    ) + colour_strength(cards_of_colour(cards, Colour::Purple))
}

/// Counts are never negative.
pub proof fn lemma_counts_not_negative(cards: Seq<Card>)
    ensures
        forall|item: ScienceItem| symbol_count(cards, item) >= 0,
        immediate_points(cards) >= 0,
        green_strength(cards) >= 0,
        colour_strength(cards) >= 0,
    decreases cards.len(),
{
    if cards.len() > 0 {
        lemma_counts_not_negative(cards.drop_last());
        assert forall|item: ScienceItem| symbol_count(cards, item) >= 0 by {
            match cards.last().spec_power() {
                Ability::Science(items) => lemma_shown_not_negative(items, item),
                _ => {},
            }
        }
    }
    let compass = symbol_count(cards, ScienceItem::Compass);
    let cog = symbol_count(cards, ScienceItem::Cog);
    let tablet = symbol_count(cards, ScienceItem::Tablet);
    assert(compass * compass >= 0 && cog * cog >= 0 && tablet * tablet >= 0) by (nonlinear_arith)
        requires
            compass >= 0,
            cog >= 0,
            tablet >= 0,
    ;
    assert(SCIENCE_SET_POINTS * least(compass, cog, tablet) >= 0);
}

/// A symbol is shown a number of times that is not negative.
proof fn lemma_shown_not_negative(items: Seq<ScienceItem>, item: ScienceItem)
    ensures
        0 <= shown(items, item) <= items.len(),
    decreases items.len(),
{
    if items.len() > 0 {
        lemma_shown_not_negative(items.drop_last(), item);
    }
}

/// Counts the times that `item` stands among `items`.
fn count_shown(items: &Vec<ScienceItem>, item: ScienceItem) -> (count: usize)
    ensures
        count == shown(items@, item),
{
    let mut count: usize = 0;
    let mut i: usize = 0;
    while i < items.len()
        invariant
            i <= items.len(),
            count == shown(items@.take(i as int), item),
            count <= i,
        decreases items.len() - i,
    {
        assert(items@.take(i + 1).drop_last() =~= items@.take(i as int));
        if items[i] == item {
            count = count + 1;
        }
        i = i + 1;
    }
    assert(items@.take(items.len() as int) =~= items@);
    count
}

/// Counts the times that the science cards among `cards` show `item`.
fn count_symbol(cards: &[Card], item: ScienceItem) -> (count: u128)
    ensures
        count == symbol_count(cards@, item),
{
    let mut count: u128 = 0;
    let mut i: usize = 0;
    while i < cards.len()
        invariant
            i <= cards.len(),
            count == symbol_count(cards@.take(i as int), item),
            count <= i * usize::MAX,
        decreases cards.len() - i,
    {
        assert(cards@.take(i + 1).drop_last() =~= cards@.take(i as int));
        assert((i + 1) * usize::MAX == i * usize::MAX + usize::MAX) by (nonlinear_arith);
        assert(i * usize::MAX <= usize::MAX * usize::MAX) by (nonlinear_arith)
            requires
                i <= usize::MAX,
        ;
        if let Power::Science(items) = cards[i].power() {
            let more: usize = count_shown(&items, item);
            count = count + more as u128;
        }
        i = i + 1;
    }
    assert(cards@.take(cards.len() as int) =~= cards@);
    count
}

impl Player {
    /// Returns the score of the science symbols that the given cards show: see [`green_strength`].
    /// The score has to fit the result.
    pub fn evaluate_green(colour_cards: &[Card]) -> (strength: i32)
        requires
            green_strength(colour_cards@) <= i32::MAX,
        ensures
            strength == green_strength(colour_cards@),
    {
        let compass: u128 = count_symbol(colour_cards, ScienceItem::Compass);
        let cog: u128 = count_symbol(colour_cards, ScienceItem::Cog);
        let tablet: u128 = count_symbol(colour_cards, ScienceItem::Tablet);
        proof {
            assert(compass * compass >= 0 && cog * cog >= 0 && tablet * tablet >= 0 && compass
                <= compass * compass && cog <= cog * cog && tablet <= tablet * tablet)
                by (nonlinear_arith);
            assert(SCIENCE_SET_POINTS * least(compass as int, cog as int, tablet as int) >= 0);
        }
        let compass: i32 = compass as i32;
        let cog: i32 = cog as i32;
        let tablet: i32 = tablet as i32;
        let sets: i32 = if compass <= cog && compass <= tablet {
            compass
        } else if cog <= tablet {
            cog
        } else {
            tablet
        };
        SCIENCE_SET_POINTS * sets + compass * compass + cog * cog + tablet * tablet
    }

    /// Returns the strength of cards that all have the colour of the first of them: see
    /// [`colour_strength`]. There has to be at least one card, and the strength has to fit the
    /// result.
    pub fn evaluate_colour(cards_of_given_colour: &[Card]) -> (strength: i32)
        requires
            cards_of_given_colour@.len() > 0,
            colour_strength(cards_of_given_colour@) <= i32::MAX,
        ensures
            strength == colour_strength(cards_of_given_colour@),
    {
        let colour = cards_of_given_colour[0].colour();
        match colour {
            Colour::Green => Self::evaluate_green(cards_of_given_colour),
            _ => {
                let cards = cards_of_given_colour;
                let mut total: i32 = 0;
                let mut i: usize = 0;
                while i < cards.len()
                    invariant
                        i <= cards.len(),
                        total == immediate_points(cards@.take(i as int)),
                        immediate_points(cards@) <= i32::MAX,
                    decreases cards.len() - i,
                {
                    proof {
                        assert(cards@.take(i + 1).drop_last() =~= cards@.take(i as int));
                        lemma_points_grow(cards@, i + 1);
                        lemma_counts_not_negative(cards@.take(i as int));
                    }
                    let points: u32 = cards[i].immediate_strength();
                    total = total + points as i32;
                    i = i + 1;
                }
                assert(cards@.take(cards.len() as int) =~= cards@);
                total
            },
        }
    }

    /// Returns the strength of a board with the given structures: see [`strength_of`]. The
    /// strength has to fit the result.
    pub fn strength_internal(cards: &[Card]) -> (strength: i32)
        requires
            strength_of(cards@) <= i32::MAX,
        ensures
            strength == strength_of(cards@),
    {
        proof {
            lemma_counts_not_negative(cards_of_colour(cards@, Colour::Brown));
            lemma_counts_not_negative(cards_of_colour(cards@, Colour::Grey));
            lemma_counts_not_negative(cards_of_colour(cards@, Colour::Blue));
            lemma_counts_not_negative(cards_of_colour(cards@, Colour::Yellow));
            lemma_counts_not_negative(cards_of_colour(cards@, Colour::Red));
            lemma_counts_not_negative(cards_of_colour(cards@, Colour::Green));
            lemma_counts_not_negative(cards_of_colour(cards@, Colour::Purple));
        }
        let brown: i32 = Self::strength_of_colour(cards, Colour::Brown);
        let grey: i32 = Self::strength_of_colour(cards, Colour::Grey);
        let blue: i32 = Self::strength_of_colour(cards, Colour::Blue);
        let yellow: i32 = Self::strength_of_colour(cards, Colour::Yellow);
        let red: i32 = Self::strength_of_colour(cards, Colour::Red);
        let green: i32 = Self::strength_of_colour(cards, Colour::Green);
        let purple: i32 = Self::strength_of_colour(cards, Colour::Purple);
        brown + grey + blue + yellow + red + green + purple
    }

    /// Returns the strength of those of `cards` that have the given colour.
    fn strength_of_colour(cards: &[Card], colour: Colour) -> (strength: i32)
        requires
            colour_strength(cards_of_colour(cards@, colour)) <= i32::MAX,
        ensures
            strength == colour_strength(cards_of_colour(cards@, colour)),
    {
        let mut group: Vec<Card> = Vec::new();
        let mut i: usize = 0;
        while i < cards.len()
            invariant
                i <= cards.len(),
                group@ == cards_of_colour(cards@.take(i as int), colour),
            decreases cards.len() - i,
        {
            assert(cards@.take(i + 1).drop_last() =~= cards@.take(i as int));
            if cards[i].colour() == colour {
                group.push(cards[i]);
            }
            i = i + 1;
        }
        assert(cards@.take(cards.len() as int) =~= cards@);
        if group.is_empty() {
            0
        } else {
            Self::evaluate_colour(group.as_slice())
        }
    }

    /// Returns this player's strength: a number that is the higher, the better the player is doing.
    /// See [`strength_of`]. The strength has to fit the result.
    pub fn strength(&self) -> (strength: i32)
        requires
            strength_of(self.built_structures@) <= i32::MAX,
        ensures
            strength == strength_of(self.built_structures@),
    {
        Self::strength_internal(self.built_structures.as_slice())
    }
}

/// The victory points of the first cards are at most those of all the cards.
proof fn lemma_points_grow(cards: Seq<Card>, upto: int)
    requires
        0 <= upto <= cards.len(),
    ensures
        0 <= immediate_points(cards.take(upto)) <= immediate_points(cards),
    decreases cards.len() - upto,
{
    lemma_counts_not_negative(cards.take(upto));
    if upto < cards.len() {
        lemma_points_grow(cards, upto + 1);
        assert(cards.take(upto + 1).drop_last() =~= cards.take(upto));
    } else {
        assert(cards.take(upto) =~= cards);
    }
}

/// The strength of a board with few structures fits the machine's numbers with room to spare.
pub proof fn lemma_strength_is_small(cards: Seq<Card>)
    requires
        cards.len() <= 18,
    ensures
        0 <= strength_of(cards) <= i32::MAX,
{
    lemma_colour_strength_is_small(cards, Colour::Brown);
    lemma_colour_strength_is_small(cards, Colour::Grey);
    lemma_colour_strength_is_small(cards, Colour::Blue);
    lemma_colour_strength_is_small(cards, Colour::Yellow);
    lemma_colour_strength_is_small(cards, Colour::Red);
    lemma_colour_strength_is_small(cards, Colour::Green);
    lemma_colour_strength_is_small(cards, Colour::Purple);
}

/// The cards of one colour are no more than all the cards.
proof fn lemma_cards_of_colour_len(cards: Seq<Card>, colour: Colour)
    ensures
        cards_of_colour(cards, colour).len() <= cards.len(),
    decreases cards.len(),
{
    if cards.len() > 0 {
        lemma_cards_of_colour_len(cards.drop_last(), colour);
    }
}

/// No card shows a symbol more than three times or is worth more than eight points by itself.
proof fn lemma_card_is_small(card: Card)
    ensures
        0 <= card.spec_immediate_strength() <= 8,
        card.spec_power() matches Ability::Science(items) ==> items.len() <= 3,
{
}

/// The points and the symbol counts of cards are bounded by their number.
proof fn lemma_counts_are_small(cards: Seq<Card>)
    ensures
        0 <= immediate_points(cards) <= 8 * cards.len(),
        forall|item: ScienceItem| 0 <= (#[trigger] symbol_count(cards, item)) <= 3 * cards.len(),
    decreases cards.len(),
{
    if cards.len() > 0 {
        lemma_counts_are_small(cards.drop_last());
        lemma_card_is_small(cards.last());
        assert forall|item: ScienceItem| 0 <= (#[trigger] symbol_count(cards, item)) <= 3 * cards.len() by {
            assert(0 <= symbol_count(cards.drop_last(), item) <= 3 * cards.drop_last().len());
            match cards.last().spec_power() {
                Ability::Science(items) => {
                    lemma_shown_not_negative(items, item);
                },
                _ => {},
            }
        }
    }
}

/// The strength of the cards of one colour among few cards is small.
proof fn lemma_colour_strength_is_small(cards: Seq<Card>, colour: Colour)
    requires
        cards.len() <= 18,
    ensures
        0 <= colour_strength(cards_of_colour(cards, colour)) <= 10000,
{
    let group = cards_of_colour(cards, colour);
    lemma_cards_of_colour_len(cards, colour);
    lemma_counts_are_small(group);
    lemma_counts_not_negative(group);
    let compass = symbol_count(group, ScienceItem::Compass);
    let cog = symbol_count(group, ScienceItem::Cog);
    let tablet = symbol_count(group, ScienceItem::Tablet);
    assert(0 <= compass <= 54 && 0 <= cog <= 54 && 0 <= tablet <= 54);
    assert(compass * compass <= 2916 && cog * cog <= 2916 && tablet * tablet <= 2916) by (nonlinear_arith)
        requires
            0 <= compass <= 54,
            0 <= cog <= 54,
            0 <= tablet <= 54,
    ;
}

} // verus!
