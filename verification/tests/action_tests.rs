use seven_wonders::action::Action;
use seven_wonders::action::ActionOptions;
use seven_wonders::action::Borrow;
use seven_wonders::action::Borrowing;
use seven_wonders::card::Card;
use seven_wonders::resources::Resource;

#[test]
fn possible_with_no_options() {
    let options = ActionOptions { actions: vec![] };
    assert_eq!(false, options.possible());
}

#[test]
fn possible_with_options() {
    let options = ActionOptions {
        actions: vec![Action::Build(Card::LumberYard, Borrowing::no_borrowing())],
    };
    assert_eq!(true, options.possible());
}

#[test]
fn own_cards_only_with_no_borrowing() {
    let options = ActionOptions {
        actions: vec![Action::Build(Card::LumberYard, Borrowing::no_borrowing())],
    };
    assert_eq!(true, options.own_cards_only());
}

#[test]
fn own_cards_only_with_borrowing() {
    let options = ActionOptions {
        actions: vec![Action::Build(
            Card::Stockade,
            Borrowing::new(vec![Borrow::new(Card::LumberYard, Resource::Wood)], vec![]),
        )],
    };
    assert_eq!(false, options.own_cards_only());
}
