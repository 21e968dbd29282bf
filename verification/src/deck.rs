//! The decks: which cards are dealt in which age, for how many players.

use vstd::prelude::*;

use crate::card::Age;
use crate::card::CATALOGUE_SIZE;
use crate::card::Card;
use crate::card::Colour;
use crate::chance::shuffle;

verus! {

/// The number of cards that each player is dealt at the start of an age.
pub const HAND_SIZE: usize = 7;

/// The number of entries of `players_needed` that are at most `player_count`.
pub open spec fn count_at_most(players_needed: Seq<u32>, player_count: u32) -> int
    decreases players_needed.len(),
{
    if players_needed.len() == 0 {
        0
    } else if players_needed.last() <= player_count {
        count_at_most(players_needed.drop_last(), player_count) + 1
    } else {
        count_at_most(players_needed.drop_last(), player_count)
    }
}

/// The number of times that `card` stands among `cards`.
pub open spec fn occurrences(cards: Seq<Card>, card: Card) -> int
    decreases cards.len(),
{
    if cards.len() == 0 {
        0
    } else if cards.last() == card {
        occurrences(cards.drop_last(), card) + 1
    } else {
        occurrences(cards.drop_last(), card)
    }
}

/// `count` times the same card.
pub open spec fn copies_of(card: Card, count: int) -> Seq<Card> {
    Seq::new(
        if count > 0 {
            count as nat
        } else {
            0
        },
        |i: int| card,
    )
}

impl Card {
    /// The number of copies of the card in a game of `player_count` players.
    pub open spec fn copies(&self, player_count: u32) -> int {
        count_at_most(self.spec_players_needed(), player_count)
    }

    /// True if the card is a guild.
    pub open spec fn is_guild(&self) -> bool {
        self.colour() == Colour::Purple
    }
}

/// What one card of the catalogue brings to the cards of an age for `player_count` players, apart
/// from the cards `missing`: nothing if the card is of another age, or is a guild where
/// `guilds` is not set, or is not a guild where it is set; otherwise its copies less those that are
/// missing.
pub open spec fn stock_of_card(card: Card, age: Age, player_count: u32, missing: Seq<Card>, guilds: bool) -> Seq<
    Card,
> {
    if card.age() == age && card.is_guild() == guilds {
        copies_of(card, card.copies(player_count) - occurrences(missing, card))
    } else {
        Seq::empty()
    }
}

/// What the first `upto` cards of the catalogue bring: see [`stock_of_card`].
pub open spec fn stock_upto(upto: int, age: Age, player_count: u32, missing: Seq<Card>, guilds: bool) -> Seq<
    Card,
>
    decreases upto,
{
    if upto <= 0 {
        Seq::empty()
    } else {
        stock_upto(upto - 1, age, player_count, missing, guilds) + stock_of_card(
            Card::catalogue()[upto - 1],
            age,
            player_count,
            missing,
            guilds,
        )
    }
}

/// The cards of an age for `player_count` players that are not guilds, apart from the cards
/// `missing`, in the order of the catalogue.
pub open spec fn plain_stock(age: Age, player_count: u32, missing: Seq<Card>) -> Seq<Card> {
    stock_upto(Card::catalogue().len() as int, age, player_count, missing, false)
}

/// The guilds of an age, apart from the cards `missing`, in the order of the catalogue.
pub open spec fn guild_stock(age: Age, player_count: u32, missing: Seq<Card>) -> Seq<Card> {
    stock_upto(Card::catalogue().len() as int, age, player_count, missing, true)
}

/// The number of guilds, among the first `upto` cards of the catalogue, that stand among `missing`.
pub open spec fn missing_guilds_upto(upto: int, missing: Seq<Card>) -> int
    decreases upto,
{
    if upto <= 0 {
        0
    } else if Card::catalogue()[upto - 1].is_guild() && missing.contains(Card::catalogue()[upto - 1]) {
        missing_guilds_upto(upto - 1, missing) + 1
    } else {
        missing_guilds_upto(upto - 1, missing)
    }
}

/// The number of different guilds that stand among `missing`.
pub open spec fn missing_guilds(missing: Seq<Card>) -> int {
    missing_guilds_upto(Card::catalogue().len() as int, missing)
}

/// The number of guilds that go into the deck of the third age: two more than there are players,
/// less the different guilds that are missing.
pub open spec fn guild_count(player_count: u32, missing: Seq<Card>) -> int {
    player_count + 2 - missing_guilds(missing)
}

/// Of none of the first `upto` cards of the catalogue that belong to the age are more copies
/// missing than there are.
pub open spec fn enough_copies(age: Age, player_count: u32, missing: Seq<Card>, upto: int) -> bool {
    forall|index: usize|
        index < upto && index < CATALOGUE_SIZE && (#[trigger] Card::spec_nth(index)).age() == age ==> occurrences(
            missing,
            Card::spec_nth(index),
        ) <= Card::spec_nth(index).copies(player_count)
}

/// A deck can be made: of no card of the age are more copies missing than there are, and for the
/// third age there are as many guilds left as go into the deck.
pub open spec fn deck_exists(age: Age, player_count: u32, missing: Seq<Card>) -> bool {
    &&& player_count + 2 <= u32::MAX
    &&& enough_copies(age, player_count, missing, CATALOGUE_SIZE as int)
    &&& age == Age::Third ==> 0 <= guild_count(player_count, missing) <= guild_stock(
        age,
        player_count,
        missing,
    ).len()
}

/// The deck that is put together from the cards that are not guilds and, in the third age, from
/// the last `guild_count` of the guilds as they lie after shuffling, the last one first.
pub open spec fn assembled(plain: Seq<Card>, guilds: Seq<Card>, age: Age, guild_count: int) -> Seq<Card> {
    if age == Age::Third {
        plain + guilds.subrange(guilds.len() - guild_count, guilds.len() as int).reverse()
    } else {
        plain
    }
}

/// Counts the entries of `players_needed` that are at most `player_count`.
fn count_copies(players_needed: &Vec<u32>, player_count: u32) -> (count: usize)
    ensures
        count == count_at_most(players_needed@, player_count),
        count <= players_needed@.len(),
{
    let mut count: usize = 0;
    let mut i: usize = 0;
    while i < players_needed.len()
        invariant
            i <= players_needed.len(),
            count == count_at_most(players_needed@.take(i as int), player_count),
            count <= i,
        decreases players_needed.len() - i,
    {
        assert(players_needed@.take(i + 1).drop_last() =~= players_needed@.take(i as int));
        if players_needed[i] <= player_count {
            count = count + 1;
        }
        i = i + 1;
    }
    assert(players_needed@.take(players_needed.len() as int) =~= players_needed@);
    count
}

/// Counts the times that `card` stands among `cards`.
fn count_occurrences(cards: &Vec<Card>, card: Card) -> (count: usize)
    ensures
        count == occurrences(cards@, card),
{
    let mut count: usize = 0;
    let mut i: usize = 0;
    while i < cards.len()
        invariant
            i <= cards.len(),
            count == occurrences(cards@.take(i as int), card),
            count <= i,
        decreases cards.len() - i,
    {
        assert(cards@.take(i + 1).drop_last() =~= cards@.take(i as int));
        if cards[i] == card {
            count = count + 1;
        }
        i = i + 1;
    }
    assert(cards@.take(cards.len() as int) =~= cards@);
    count
}

/// Returns the cards of an age for `player_count` players, apart from the cards `missing`, in
/// the order of the catalogue: those that are not guilds, and the guilds.
pub fn deck_stock(age: &Age, player_count: u32, missing: &Vec<Card>) -> (stock: (Vec<Card>, Vec<Card>))
    requires
        enough_copies(*age, player_count, missing@, CATALOGUE_SIZE as int),
    ensures
        stock.0@ == plain_stock(*age, player_count, missing@),
        stock.1@ == guild_stock(*age, player_count, missing@),
{
    let mut deck: Vec<Card> = Vec::new();
    let mut guilds: Vec<Card> = Vec::new();
    let catalogue = Card::all();
    let mut i: usize = 0;
    while i < catalogue.len()
        invariant
            i <= catalogue.len(),
            catalogue@ == Card::catalogue(),
            deck@ == stock_upto(i as int, *age, player_count, missing@, false),
            guilds@ == stock_upto(i as int, *age, player_count, missing@, true),
            enough_copies(*age, player_count, missing@, CATALOGUE_SIZE as int),
        decreases catalogue.len() - i,
    {
        let card = catalogue[i];
        let ghost deck_before = deck@;
        let ghost guilds_before = guilds@;
        if card.age() == *age {
            let num_cards: usize = count_copies(&card.players_needed(), player_count);
            let gone: usize = count_occurrences(missing, card);
            assert(card == Card::spec_nth(i));
            assert(occurrences(missing@, card) <= card.copies(player_count));
            let wanted: usize = num_cards - gone;
            let mut made: usize = 0;
            while made < wanted
                invariant
                    made <= wanted,
                    wanted == card.copies(player_count) - occurrences(missing@, card),
                    card.is_guild() ==> guilds@ == guilds_before + copies_of(card, made as int) && deck@
                        == deck_before,
                    !card.is_guild() ==> deck@ == deck_before + copies_of(card, made as int) && guilds@
                        == guilds_before,
                decreases wanted - made,
            {
                if card.colour() == Colour::Purple {
                    guilds.push(card);
                    assert(guilds@ =~= guilds_before + copies_of(card, made + 1));
                } else {
                    deck.push(card);
                    assert(deck@ =~= deck_before + copies_of(card, made + 1));
                }
                made = made + 1;
            }
            proof {
                if card.is_guild() {
                    assert(deck@ =~= deck_before + stock_of_card(card, *age, player_count, missing@, false));
                } else {
                    assert(guilds@ =~= guilds_before + stock_of_card(card, *age, player_count, missing@, true));
                }
            }
        } else {
            proof {
                assert(deck@ =~= deck_before + stock_of_card(card, *age, player_count, missing@, false));
                assert(guilds@ =~= guilds_before + stock_of_card(card, *age, player_count, missing@, true));
            }
        }
        i = i + 1;
    }
    (deck, guilds)
}

/// Counts the different guilds that stand among `missing`.
pub fn count_missing_guilds(missing: &Vec<Card>) -> (count: usize)
    ensures
        count == missing_guilds(missing@),
        count <= Card::catalogue().len(),
{
    let catalogue = Card::all();
    let mut count: usize = 0;
    let mut i: usize = 0;
    while i < catalogue.len()
        invariant
            i <= catalogue.len(),
            catalogue@ == Card::catalogue(),
            count == missing_guilds_upto(i as int, missing@),
            count <= i,
        decreases catalogue.len() - i,
    {
        let card = catalogue[i];
        if card.colour() == Colour::Purple && count_occurrences(missing, card) > 0 {
            proof {
                lemma_occurrences_contains(missing@, card);
            }
            count = count + 1;
        } else {
            proof {
                lemma_occurrences_contains(missing@, card);
            }
        }
        i = i + 1;
    }
    count
}

/// A card stands among the cards exactly if it stands there at least once.
pub proof fn lemma_occurrences_contains(cards: Seq<Card>, card: Card)
    ensures
        occurrences(cards, card) >= 0,
        occurrences(cards, card) > 0 <==> cards.contains(card),
    decreases cards.len(),
{
    if cards.len() > 0 {
        let fewer = cards.drop_last();
        lemma_occurrences_contains(fewer, card);
        if cards.last() == card {
            assert(cards[cards.len() - 1] == card);
        } else if fewer.contains(card) {
            let place = choose|place: int| 0 <= place < fewer.len() && fewer[place] == card;
            assert(cards[place] == card);
        } else if cards.contains(card) {
            let place = choose|place: int| 0 <= place < cards.len() && cards[place] == card;
            assert(fewer[place] == card);
        }
    }
}

/// Puts a deck together: the cards that are not guilds and, in the third age, `guild_count` guilds
/// taken off the end of `guilds`.
pub fn assemble_deck(plain: Vec<Card>, guilds: Vec<Card>, age: &Age, guild_count: usize) -> (deck: Vec<Card>)
    requires
        *age == Age::Third ==> guild_count <= guilds@.len(),
    ensures
        deck@ == assembled(plain@, guilds@, *age, guild_count as int),
{
    let mut deck = plain;
    let mut guilds = guilds;
    let ghost all_guilds = guilds@;
    if *age == Age::Third {
        let mut taken: usize = 0;
        while taken < guild_count
            invariant
                taken <= guild_count <= all_guilds.len(),
                guilds@ == all_guilds.take(all_guilds.len() - taken),
                deck@ == plain@ + all_guilds.subrange(all_guilds.len() - taken, all_guilds.len() as int).reverse(),
            decreases guild_count - taken,
        {
            let ghost before = deck@;
            let guild = guilds.pop().unwrap();
            deck.push(guild);
            proof {
                let end = all_guilds.len() as int;
                assert(guilds@ =~= all_guilds.take(end - taken - 1));
                assert(guild == all_guilds[end - taken - 1]);
                assert(all_guilds.subrange(end - taken - 1, end).reverse() =~= all_guilds.subrange(
                    end - taken,
                    end,
                ).reverse().push(guild));
            }
            taken = taken + 1;
        }
    }
    deck
}

/// Creates a new, shuffled deck for the given age and number of players.
pub fn new_deck(age: &Age, player_count: u32) -> (deck: Vec<Card>)
    requires
        deck_exists(*age, player_count, Seq::empty()),
    ensures
        is_deck(deck@, *age, player_count, Seq::empty()),
{
    let missing: Vec<Card> = Vec::new();
    new_deck_without(age, player_count, &missing)
}

/// What holds of every deck that [`new_deck_without`] can return: it holds the cards of the age
/// that are not guilds and, in the third age, as many of the guilds of the age as go into the deck,
/// in some order.
pub open spec fn is_deck(deck: Seq<Card>, age: Age, player_count: u32, missing: Seq<Card>) -> bool {
    exists|guilds: Seq<Card>|
        {
            &&& guilds.to_multiset() == guild_stock(age, player_count, missing).to_multiset()
            &&& deck.to_multiset() == (#[trigger] assembled(
                plain_stock(age, player_count, missing),
                guilds,
                age,
                guild_count(player_count, missing),
            )).to_multiset()
        }
}

/// Creates a new, shuffled deck for the given age, without the cards in `missing`: each card
/// stands there once for each of its copies that is to be left out. This is for playing
/// algorithms that deal random cards to the other players, whose hands they do not know, while they
/// know of some cards that they cannot be in those hands, since they are in the algorithm's own
/// hand or on the table.
pub fn new_deck_without(age: &Age, player_count: u32, missing: &Vec<Card>) -> (deck: Vec<Card>)
    requires
        deck_exists(*age, player_count, missing@),
    ensures
        is_deck(deck@, *age, player_count, missing@),
{
    // All cards of the age that are in the game for the number of players, the guilds apart.
    let (plain, mut guilds) = deck_stock(age, player_count, missing);
    let missing_guild_count: usize = count_missing_guilds(missing);
    let mut wanted: usize = 0;
    if *age == Age::Third {
        wanted = (player_count + 2) as usize - missing_guild_count;
    }
    // Shuffle the guilds separately and add some of them to the deck.
    shuffle(&mut guilds);
    proof {
        vstd::seq_lib::to_multiset_len(guilds@);
        vstd::seq_lib::to_multiset_len(guild_stock(*age, player_count, missing@));
    }
    let ghost shuffled = guilds@;
    let mut deck = assemble_deck(plain, guilds, age, wanted);
    // Shuffle the complete deck and return it.
    shuffle(&mut deck);
    assert(assembled(plain_stock(*age, player_count, missing@), shuffled, *age, wanted as int)
        == assembled(
        plain_stock(*age, player_count, missing@),
        shuffled,
        *age,
        guild_count(player_count, missing@),
    ));
    deck
}

/// The number of cards that the first `upto` cards of the catalogue bring when no card is missing.
pub open spec fn stock_size_upto(upto: int, age: Age, player_count: u32, guilds: bool) -> int
    decreases upto,
{
    if upto <= 0 {
        0
    } else {
        let card = Card::catalogue()[upto - 1];
        stock_size_upto(upto - 1, age, player_count, guilds) + if card.age() == age && card.is_guild()
            == guilds {
            card.copies(player_count)
        } else {
            0
        }
    }
}

/// A number of cards that depends on the number of players: `base` cards in any game, and more
/// cards from four, five, six and seven players on.
pub open spec fn by_players(player_count: u32, base: int, four: int, five: int, six: int, seven: int) -> int {
    base + if player_count >= 4 { four } else { 0 } + if player_count >= 5 { five } else { 0 }
        + if player_count >= 6 { six } else { 0 } + if player_count >= 7 { seven } else { 0 }
}

/// The catalogue lists the cards of the first age, then those of the second, then those of the
/// third, and among these the guilds last.
pub open spec fn catalogue_part(index: usize) -> (Age, bool) {
    if index < 27 {
        (Age::First, false)
    } else if index < 50 {
        (Age::Second, false)
    } else if index < 68 {
        (Age::Third, false)
    } else {
        (Age::Third, true)
    }
}

/// Each card stands in that part of the catalogue where its age and its colour put it.
proof fn lemma_catalogue_parts(index: usize)
    requires
        index < CATALOGUE_SIZE,
    ensures
        catalogue_part(index) == (Card::spec_nth(index).age(), Card::spec_nth(index).is_guild()),
{
}

/// The parts of the catalogue with cards of another age, or of the other kind, add nothing to the
/// cards of an age.
proof fn lemma_stock_size_skips(from: int, to: int, age: Age, player_count: u32, guilds: bool)
    requires
        0 <= from <= to <= CATALOGUE_SIZE,
        forall|index: usize| from <= index < to ==> #[trigger] catalogue_part(index) != (age, guilds),
    ensures
        stock_size_upto(to, age, player_count, guilds) == stock_size_upto(from, age, player_count, guilds),
    decreases to - from,
{
    if from < to {
        lemma_stock_size_skips(from, to - 1, age, player_count, guilds);
        let index = (to - 1) as usize;
        lemma_catalogue_parts(index);
        assert(catalogue_part(index) != (age, guilds));
    }
}

/// The cards of the first age that stand before place 7 of the catalogue.
#[verifier::rlimit(40)]
proof fn lemma_first_age_upto_7(player_count: u32)
    requires
        3 <= player_count <= 7,
    ensures
        stock_size_upto(7, Age::First, player_count, false) == by_players(player_count, 5, 3, 2, 1, 0),
{
    reveal_with_fuel(stock_size_upto, 8);
    reveal_with_fuel(count_at_most, 4);
}

/// The cards of the first age that stand before place 14 of the catalogue.
#[verifier::rlimit(40)]
proof fn lemma_first_age_upto_14(player_count: u32)
    requires
        3 <= player_count <= 7,
    ensures
        stock_size_upto(14, Age::First, player_count, false) == by_players(player_count, 9, 4, 3, 5, 1),
{
    lemma_first_age_upto_7(player_count);
    reveal_with_fuel(stock_size_upto, 8);
    reveal_with_fuel(count_at_most, 4);
}

/// The cards of the first age that stand before place 21 of the catalogue.
#[verifier::rlimit(40)]
proof fn lemma_first_age_upto_21(player_count: u32)
    requires
        3 <= player_count <= 7,
    ensures
        stock_size_upto(21, Age::First, player_count, false) == by_players(player_count, 15, 5, 5, 7, 5),
{
    lemma_first_age_upto_14(player_count);
    reveal_with_fuel(stock_size_upto, 8);
    reveal_with_fuel(count_at_most, 4);
}

/// The cards of the first age that stand before place 27 of the catalogue.
#[verifier::rlimit(40)]
proof fn lemma_first_age_upto_27(player_count: u32)
    requires
        3 <= player_count <= 7,
    ensures
        stock_size_upto(27, Age::First, player_count, false) == by_players(player_count, 21, 7, 7, 7, 7),
{
    lemma_first_age_upto_21(player_count);
    reveal_with_fuel(stock_size_upto, 7);
    reveal_with_fuel(count_at_most, 4);
}

/// The cards of the second age that stand before place 34 of the catalogue.
#[verifier::rlimit(40)]
proof fn lemma_second_age_upto_34(player_count: u32)
    requires
        3 <= player_count <= 7,
    ensures
        stock_size_upto(34, Age::Second, player_count, false) == by_players(player_count, 7, 4, 3, 0, 0),
{
    lemma_stock_size_skips(0, 27, Age::Second, player_count, false);
    reveal_with_fuel(stock_size_upto, 8);
    reveal_with_fuel(count_at_most, 4);
}

/// The cards of the second age that stand before place 41 of the catalogue.
#[verifier::rlimit(40)]
proof fn lemma_second_age_upto_41(player_count: u32)
    requires
        3 <= player_count <= 7,
    ensures
        stock_size_upto(41, Age::Second, player_count, false) == by_players(player_count, 14, 4, 5, 4, 3),
{
    lemma_second_age_upto_34(player_count);
    reveal_with_fuel(stock_size_upto, 8);
    reveal_with_fuel(count_at_most, 4);
}

/// The cards of the second age that stand before place 50 of the catalogue.
#[verifier::rlimit(40)]
proof fn lemma_second_age_upto_50(player_count: u32)
    requires
        3 <= player_count <= 7,
    ensures
        stock_size_upto(50, Age::Second, player_count, false) == by_players(player_count, 21, 7, 7, 7, 7),
{
    lemma_second_age_upto_41(player_count);
    reveal_with_fuel(stock_size_upto, 10);
    reveal_with_fuel(count_at_most, 4);
}

/// The cards of the third age that are not guilds that stand before place 57 of the catalogue.
#[verifier::rlimit(40)]
proof fn lemma_third_age_upto_57(player_count: u32)
    requires
        3 <= player_count <= 7,
    ensures
        stock_size_upto(57, Age::Third, player_count, false) == by_players(player_count, 7, 2, 2, 3, 1),
{
    lemma_stock_size_skips(0, 50, Age::Third, player_count, false);
    reveal_with_fuel(stock_size_upto, 8);
    reveal_with_fuel(count_at_most, 4);
}

/// The cards of the third age that are not guilds that stand before place 64 of the catalogue.
#[verifier::rlimit(40)]
proof fn lemma_third_age_upto_64(player_count: u32)
    requires
        3 <= player_count <= 7,
    ensures
        stock_size_upto(64, Age::Third, player_count, false) == by_players(player_count, 13, 4, 4, 5, 4),
{
    lemma_third_age_upto_57(player_count);
    reveal_with_fuel(stock_size_upto, 8);
    reveal_with_fuel(count_at_most, 4);
}

/// The cards of the third age that are not guilds that stand before place 68 of the catalogue.
#[verifier::rlimit(40)]
proof fn lemma_third_age_upto_68(player_count: u32)
    requires
        3 <= player_count <= 7,
    ensures
        stock_size_upto(68, Age::Third, player_count, false) == by_players(player_count, 16, 6, 6, 6, 6),
{
    lemma_third_age_upto_64(player_count);
    reveal_with_fuel(stock_size_upto, 5);
    reveal_with_fuel(count_at_most, 4);
}

/// The guilds that stand before place 78 of the catalogue.
#[verifier::rlimit(40)]
proof fn lemma_guilds_upto_78(player_count: u32)
    requires
        3 <= player_count <= 7,
    ensures
        stock_size_upto(78, Age::Third, player_count, true) == by_players(player_count, 10, 0, 0, 0, 0),
{
    lemma_stock_size_skips(0, 68, Age::Third, player_count, true);
    reveal_with_fuel(stock_size_upto, 11);
    reveal_with_fuel(count_at_most, 4);
}

/// The cards of the first age are seven for each player.
proof fn lemma_first_age_size(player_count: u32)
    requires
        3 <= player_count <= 7,
    ensures
        stock_size_upto(CATALOGUE_SIZE as int, Age::First, player_count, false) == HAND_SIZE * player_count,
{
    lemma_first_age_upto_27(player_count);
    lemma_stock_size_skips(27, CATALOGUE_SIZE as int, Age::First, player_count, false);
}

/// The cards of the second age are seven for each player.
proof fn lemma_second_age_size(player_count: u32)
    requires
        3 <= player_count <= 7,
    ensures
        stock_size_upto(CATALOGUE_SIZE as int, Age::Second, player_count, false) == HAND_SIZE * player_count,
{
    lemma_second_age_upto_50(player_count);
    lemma_stock_size_skips(50, CATALOGUE_SIZE as int, Age::Second, player_count, false);
}

/// The cards of the third age that are not guilds are seven for each player, less the guilds that
/// go into the deck.
proof fn lemma_third_age_size(player_count: u32)
    requires
        3 <= player_count <= 7,
    ensures
        stock_size_upto(CATALOGUE_SIZE as int, Age::Third, player_count, false) == HAND_SIZE * player_count
            - (player_count + 2),
{
    lemma_third_age_upto_68(player_count);
    lemma_stock_size_skips(68, CATALOGUE_SIZE as int, Age::Third, player_count, false);
}

/// There are ten guilds, whatever the number of players.
proof fn lemma_guilds_size(player_count: u32)
    requires
        3 <= player_count <= 7,
    ensures
        stock_size_upto(CATALOGUE_SIZE as int, Age::Third, player_count, true) == 10,
{
    lemma_guilds_upto_78(player_count);
}

/// Without missing cards, the stock has the size that [`stock_size_upto`] counts.
proof fn lemma_stock_size(upto: int, age: Age, player_count: u32, guilds: bool)
    requires
        0 <= upto <= CATALOGUE_SIZE,
    ensures
        stock_upto(upto, age, player_count, Seq::empty(), guilds).len() == stock_size_upto(
            upto,
            age,
            player_count,
            guilds,
        ),
    decreases upto,
{
    if upto > 0 {
        lemma_stock_size(upto - 1, age, player_count, guilds);
        let card = Card::catalogue()[upto - 1];
        lemma_count_at_most(card.spec_players_needed(), player_count);
    }
}

/// A count of entries is not negative.
proof fn lemma_count_at_most(players_needed: Seq<u32>, player_count: u32)
    ensures
        0 <= count_at_most(players_needed, player_count) <= players_needed.len(),
    decreases players_needed.len(),
{
    if players_needed.len() > 0 {
        lemma_count_at_most(players_needed.drop_last(), player_count);
    }
}

/// Where no card is missing, no guild is missing.
proof fn lemma_no_missing_guilds(upto: int)
    ensures
        missing_guilds_upto(upto, Seq::empty()) == 0,
    decreases upto,
{
    if upto > 0 {
        lemma_no_missing_guilds(upto - 1);
    }
}

/// For three to seven players a deck can be made of each age when no card is missing.
pub proof fn lemma_deck_exists(age: Age, player_count: u32)
    requires
        3 <= player_count <= 7,
    ensures
        deck_exists(age, player_count, Seq::empty()),
{
    assert forall|index: usize|
        index < CATALOGUE_SIZE && (#[trigger] Card::spec_nth(index)).age() == age implies occurrences(
        Seq::empty(),
        Card::spec_nth(index),
    ) <= Card::spec_nth(index).copies(player_count) by {
        lemma_count_at_most(Card::spec_nth(index).spec_players_needed(), player_count);
    }
    lemma_no_missing_guilds(CATALOGUE_SIZE as int);
    lemma_stock_size(CATALOGUE_SIZE as int, age, player_count, true);
    if age == Age::Third {
        lemma_guilds_size(player_count);
    }
}

/// Every deck that is made for three to seven players when no card is missing holds seven cards for
/// each player.
pub proof fn lemma_deck_size(deck: Seq<Card>, age: Age, player_count: u32)
    requires
        3 <= player_count <= 7,
        is_deck(deck, age, player_count, Seq::empty()),
    ensures
        deck.len() == HAND_SIZE * player_count,
{
    let missing = Seq::<Card>::empty();
    let guilds = choose|guilds: Seq<Card>|
        {
            &&& guilds.to_multiset() == guild_stock(age, player_count, missing).to_multiset()
            &&& deck.to_multiset() == (#[trigger] assembled(
                plain_stock(age, player_count, missing),
                guilds,
                age,
                guild_count(player_count, missing),
            )).to_multiset()
        };
    let made = assembled(plain_stock(age, player_count, missing), guilds, age, guild_count(player_count, missing));
    vstd::seq_lib::to_multiset_len(deck);
    vstd::seq_lib::to_multiset_len(made);
    vstd::seq_lib::to_multiset_len(guilds);
    vstd::seq_lib::to_multiset_len(guild_stock(age, player_count, missing));
    lemma_no_missing_guilds(CATALOGUE_SIZE as int);
    lemma_stock_size(CATALOGUE_SIZE as int, age, player_count, true);
    lemma_stock_size(CATALOGUE_SIZE as int, age, player_count, false);
    match age {
        Age::First => lemma_first_age_size(player_count),
        Age::Second => lemma_second_age_size(player_count),
        Age::Third => {
            lemma_third_age_size(player_count);
            lemma_guilds_size(player_count);
        },
    }
}

/// Returns true if a deck can be made for the given age and number of players without the cards
/// in `missing`: see [`deck_exists`].
pub fn deck_can_be_made(age: &Age, player_count: u32, missing: &Vec<Card>) -> (yes: bool)
    ensures
        yes == deck_exists(*age, player_count, missing@),
{
    if player_count > u32::MAX - 2 {
        return false;
    }
    let mut index: usize = 0;
    while index < CATALOGUE_SIZE
        invariant
            index <= CATALOGUE_SIZE,
            enough_copies(*age, player_count, missing@, index as int),
        decreases CATALOGUE_SIZE - index,
    {
        let card = Card::nth(index);
        if card.age() == *age {
            let num_cards: usize = count_copies(&card.players_needed(), player_count);
            let gone: usize = count_occurrences(missing, card);
            if gone > num_cards {
                assert(!enough_copies(*age, player_count, missing@, CATALOGUE_SIZE as int)) by {
                    assert(occurrences(missing@, Card::spec_nth(index)) > Card::spec_nth(index).copies(
                        player_count,
                    ));
                }
                return false;
            }
        }
        index = index + 1;
    }
    if *age == Age::Third {
        let missing_guild_count: usize = count_missing_guilds(missing);
        if missing_guild_count > (player_count + 2) as usize {
            return false;
        }
        let (_, guilds) = deck_stock(age, player_count, missing);
        (player_count + 2) as usize - missing_guild_count <= guilds.len()
    } else {
        true
    }
}

/// The number of cards in a deck for the given age and number of players without the cards in
/// `missing`: the cards of the age that are not guilds and, in the third age, the guilds that go
/// into the deck.
pub open spec fn deck_size(age: Age, player_count: u32, missing: Seq<Card>) -> int {
    plain_stock(age, player_count, missing).len() + if age == Age::Third {
        guild_count(player_count, missing)
    } else {
        0
    }
}

/// Every deck that can be made holds as many cards as [`deck_size`] says.
pub proof fn lemma_deck_len(deck: Seq<Card>, age: Age, player_count: u32, missing: Seq<Card>)
    requires
        deck_exists(age, player_count, missing),
        is_deck(deck, age, player_count, missing),
    ensures
        deck.len() == deck_size(age, player_count, missing),
{
    let guilds = choose|guilds: Seq<Card>|
        {
            &&& guilds.to_multiset() == guild_stock(age, player_count, missing).to_multiset()
            &&& deck.to_multiset() == (#[trigger] assembled(
                plain_stock(age, player_count, missing),
                guilds,
                age,
                guild_count(player_count, missing),
            )).to_multiset()
        };
    let made = assembled(plain_stock(age, player_count, missing), guilds, age, guild_count(player_count, missing));
    vstd::seq_lib::to_multiset_len(deck);
    vstd::seq_lib::to_multiset_len(made);
    vstd::seq_lib::to_multiset_len(guilds);
    vstd::seq_lib::to_multiset_len(guild_stock(age, player_count, missing));
}

} // verus!
