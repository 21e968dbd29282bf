use seven_wonders::action::Action;
use seven_wonders::action::ActionOptions;
use seven_wonders::action::Borrow;
use seven_wonders::action::Borrowing;
use seven_wonders::algorithms::human::Human;
use seven_wonders::card::Card;
use seven_wonders::resources::Resource;

#[test]
fn print_borrowing_options_with_single_borrow() {
    let actions = vec![Action::Build(
        Card::Baths,
        Borrowing::new(vec![Borrow::new(Card::StonePit, Resource::Stone)], vec![]),
    )];
    let out = Human::print_borrowing_options(&ActionOptions { actions }, 2, 0);
    assert_eq!(out, "   1) Borrow Stone Pit from player 3\n");
}

#[test]
fn print_borrowing_options_with_two_borrows_from_same_neighbour() {
    let actions = vec![Action::Build(
        Card::Temple,
        Borrowing::new(
            vec![],
            vec![
                Borrow::new(Card::LumberYard, Resource::Wood),
                Borrow::new(Card::ClayPool, Resource::Clay),
            ],
        ),
    )];
    let out = Human::print_borrowing_options(&ActionOptions { actions }, 2, 0);
    assert_eq!(out, "   1) Borrow Lumber Yard, Clay Pool from player 1\n");
}

#[test]
fn print_borrowing_options_with_one_borrow_from_each_neighbour() {
    let actions = vec![Action::Build(
        Card::Temple,
        Borrowing::new(
            vec![Borrow::new(Card::LumberYard, Resource::Wood)],
            vec![Borrow::new(Card::ClayPool, Resource::Clay)],
        ),
    )];
    let out = Human::print_borrowing_options(&ActionOptions { actions }, 2, 0);
    assert_eq!(
        out,
        "   1) Borrow Lumber Yard from player 3 and Clay Pool from player 1\n"
    );
}

#[test]
fn print_borrowing_options_with_two_options() {
    let actions = vec![
        Action::Build(
            Card::Baths,
            Borrowing::new(vec![Borrow::new(Card::StonePit, Resource::Stone)], vec![]),
        ),
        Action::Build(
            Card::Baths,
            Borrowing::new(vec![Borrow::new(Card::Excavation, Resource::Stone)], vec![]),
        ),
    ];
    let out = Human::print_borrowing_options(&ActionOptions { actions }, 2, 0);
    assert_eq!(
        out,
        "   1) Borrow Stone Pit from player 3\n   2) Borrow Excavation from player 3\n"
    );
}
