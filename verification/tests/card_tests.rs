use seven_wonders::card::Age;
use seven_wonders::card::Card;
use seven_wonders::card::new_deck;
use seven_wonders::card::new_deck_without;

#[test]
fn new_deck_has_right_number_of_cards() {
    assert_eq!(21, new_deck(&Age::First, 3).len());
    assert_eq!(28, new_deck(&Age::First, 4).len());
    assert_eq!(35, new_deck(&Age::First, 5).len());
    assert_eq!(42, new_deck(&Age::First, 6).len());
    assert_eq!(49, new_deck(&Age::First, 7).len());

    assert_eq!(21, new_deck(&Age::Second, 3).len());
    assert_eq!(28, new_deck(&Age::Second, 4).len());
    assert_eq!(35, new_deck(&Age::Second, 5).len());
    assert_eq!(42, new_deck(&Age::Second, 6).len());
    assert_eq!(49, new_deck(&Age::Second, 7).len());

    assert_eq!(21, new_deck(&Age::Third, 3).len());
    assert_eq!(28, new_deck(&Age::Third, 4).len());
    assert_eq!(35, new_deck(&Age::Third, 5).len());
    assert_eq!(42, new_deck(&Age::Third, 6).len());
    assert_eq!(49, new_deck(&Age::Third, 7).len());
}

#[test]
fn no_second_or_third_age_cards_in_first_age_deck() {
    assert!(!new_deck(&Age::First, 3).contains(&Card::Sawmill));
    assert!(!new_deck(&Age::First, 3).contains(&Card::Pantheon));
}

#[test]
fn new_deck_without_excludes_given_cards() {
    let deck = new_deck_without(&Age::First, 7, &vec![Card::Tavern, Card::Tavern]);
    assert_eq!(49 - 2, deck.len());
    assert_eq!(1, deck.iter().filter(|card| **card == Card::Tavern).count());
}
