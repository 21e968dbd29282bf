use seven_wonders::card::Card;
use seven_wonders::player::Player;
use seven_wonders::wonder::WonderSide;
use seven_wonders::wonder::WonderType;

#[test]
fn one_of_each_symbol_scores_ten() {
    // Lodge shows a compass, Workshop a cog, Library a tablet.
    assert_eq!(10, Player::evaluate_green(&[Card::Lodge, Card::Workshop, Card::Library]));
}

#[test]
fn two_of_one_symbol_score_four() {
    assert_eq!(4, Player::evaluate_green(&[Card::Lodge, Card::Apothecary]));
}

#[test]
fn no_symbols_score_nothing() {
    assert_eq!(0, Player::evaluate_green(&[]));
    assert_eq!(0, Player::strength_internal(&[]));
}

#[test]
fn sets_of_symbols_score_seven_each() {
    let cards = [
        Card::Lodge,
        Card::Apothecary,
        Card::Workshop,
        Card::Laboratory,
        Card::Library,
        Card::School,
        Card::Scriptorium,
    ];
    // Two compasses, two cogs and three tablets: two sets, and 4 + 4 + 9.
    assert_eq!(7 * 2 + 4 + 4 + 9, Player::evaluate_green(&cards));
}

#[test]
fn cards_of_other_colours_score_their_points() {
    assert_eq!(3 + 3 + 2, Player::evaluate_colour(&[Card::Pawnshop, Card::Baths, Card::Altar]));
    // Red, yellow and brown cards are worth nothing by themselves.
    assert_eq!(0, Player::evaluate_colour(&[Card::Stockade, Card::Barracks]));
    assert_eq!(0, Player::evaluate_colour(&[Card::Tavern]));
}

#[test]
fn symbols_on_a_guild_do_not_score() {
    // The Scientists Guild lists all three symbols, but it is purple.
    assert_eq!(0, Player::strength_internal(&[Card::ScientistsGuild]));
    assert_eq!(1, Player::strength_internal(&[Card::ScientistsGuild, Card::Lodge]));
}

#[test]
fn strength_adds_up_the_colours() {
    let mut player = Player::new(WonderType::PyramidsOfGiza, WonderSide::A);
    player.built_structures =
        vec![Card::Palace, Card::Lodge, Card::Workshop, Card::Library, Card::Stockade, Card::Pantheon];
    assert_eq!(8 + 7 + 10, player.strength());
    assert_eq!(8, Card::Palace.immediate_strength());
    assert_eq!(0, Card::Lodge.immediate_strength());
}
