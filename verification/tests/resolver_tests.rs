use seven_wonders::action::Action;
use seven_wonders::action::Borrow;
use seven_wonders::action::Borrowing;
use seven_wonders::card::Card;
use seven_wonders::game::VisibleGame;
use seven_wonders::player::Player;
use seven_wonders::player::PublicPlayer;
use seven_wonders::resolver::Source;
use seven_wonders::resolver::UsableResources;
use seven_wonders::resolver::add_choices;
use seven_wonders::resolver::resolve;
use seven_wonders::resources::Cost;
use seven_wonders::resources::Resource;
use seven_wonders::wonder::WonderBoard;
use seven_wonders::wonder::WonderSide;
use seven_wonders::wonder::WonderType;

fn table(left: Vec<Card>, right: Vec<Card>) -> Vec<PublicPlayer> {
    let seat = |wonder_type: WonderType, built_structures: Vec<Card>| PublicPlayer {
        wonder: WonderBoard { wonder_type, wonder_side: WonderSide::A },
        built_structures,
        coins: 0,
    };
    vec![
        seat(WonderType::ColossusOfRhodes, right),
        seat(WonderType::LighthouseOfAlexandria, vec![]),
        seat(WonderType::TempleOfArtemis, left),
    ]
}

fn seen(public_players: &[PublicPlayer]) -> VisibleGame {
    VisibleGame { public_players, player_index: 1, turn: 0 }
}

fn player_with(coins: i32, built: Vec<Card>, hand: Vec<Card>) -> Player {
    let public_player = PublicPlayer {
        wonder: WonderBoard { wonder_type: WonderType::ColossusOfRhodes, wonder_side: WonderSide::A },
        built_structures: built,
        coins,
    };
    Player::new_from_public(&public_player, hand)
}

fn borrowings(player: &Player, card: Card, public_players: &[PublicPlayer]) -> Vec<Borrowing> {
    player
        .options_for_card(&card, &seen(public_players), false)
        .actions
        .into_iter()
        .map(|action| match action {
            Action::Build(built, borrowing) => {
                assert_eq!(card, built);
                borrowing
            }
            other => panic!("an option that does not build: {:?}", other),
        })
        .collect()
}

#[test]
fn affordable_card_has_one_option_without_borrowing() {
    // Barracks costs one ore, which the Colossus starts with.
    let player = player_with(0, vec![], vec![Card::Barracks]);
    let public_players = table(vec![Card::OreVein], vec![Card::OreVein]);
    assert_eq!(
        vec![Borrowing::no_borrowing()],
        borrowings(&player, Card::Barracks, &public_players)
    );
}

#[test]
fn free_card_is_built_whatever_the_coins() {
    for coins in [0, 1, 3, 100] {
        let mut player = player_with(coins, vec![], vec![Card::LumberYard]);
        let public_players = table(vec![], vec![]);
        assert_eq!(
            vec![Borrowing::no_borrowing()],
            borrowings(&player, Card::LumberYard, &public_players)
        );
        let mut left = player_with(0, vec![], vec![]);
        let mut right = player_with(0, vec![], vec![]);
        let mut pile = vec![];
        assert!(player.do_action(
            &Action::Build(Card::LumberYard, Borrowing::no_borrowing()),
            &seen(&public_players),
            &mut left,
            &mut right,
            &mut pile,
        ));
        assert_eq!(coins, player.coins());
        assert_eq!(&vec![Card::LumberYard], player.built_structures());
    }
}

#[test]
fn card_out_of_reach_has_no_option_and_cannot_be_played() {
    // Aqueduct costs three stone. The neighbours sell two between them.
    let player = player_with(100, vec![], vec![Card::Aqueduct]);
    let public_players = table(vec![Card::StonePit], vec![Card::StonePit]);
    assert!(borrowings(&player, Card::Aqueduct, &public_players).is_empty());
    let every_unit = Borrowing::new(
        vec![Borrow::new(Card::StonePit, Resource::Stone)],
        vec![Borrow::new(Card::StonePit, Resource::Stone)],
    );
    for borrowing in [Borrowing::no_borrowing(), every_unit] {
        assert!(!player.can_play(&Action::Build(Card::Aqueduct, borrowing), &seen(&public_players)));
    }
}

#[test]
fn two_units_from_two_neighbours_cost_four_coins() {
    // Caravansery costs two wood.
    let public_players = table(vec![Card::LumberYard], vec![Card::LumberYard]);
    let mut player = player_with(4, vec![], vec![Card::Caravansery]);
    let wood = Borrow::new(Card::LumberYard, Resource::Wood);
    let expected = Borrowing::new(vec![wood], vec![wood]);
    assert_eq!(vec![expected.clone()], borrowings(&player, Card::Caravansery, &public_players));

    let mut left = player_with(1, vec![Card::LumberYard], vec![]);
    let mut right = player_with(2, vec![Card::LumberYard], vec![]);
    let mut pile = vec![];
    assert!(player.do_action(
        &Action::Build(Card::Caravansery, expected),
        &seen(&public_players),
        &mut left,
        &mut right,
        &mut pile,
    ));
    assert_eq!(0, player.coins());
    assert_eq!(3, left.coins());
    assert_eq!(4, right.coins());
    assert!(pile.is_empty());
    assert!(player.hand().is_empty());
}

#[test]
fn two_units_cannot_be_borrowed_with_three_coins() {
    let public_players = table(vec![Card::LumberYard], vec![Card::LumberYard]);
    let player = player_with(3, vec![], vec![Card::Caravansery]);
    assert!(borrowings(&player, Card::Caravansery, &public_players).is_empty());
}

#[test]
fn borrowing_takes_the_coins_of_the_card_too() {
    // Sawmill costs one coin and nothing else: nothing is borrowed for it.
    let public_players = table(vec![], vec![]);
    let mut player = player_with(1, vec![], vec![Card::Sawmill]);
    let mut left = player_with(0, vec![], vec![]);
    let mut right = player_with(0, vec![], vec![]);
    assert!(player.do_action(
        &Action::Build(Card::Sawmill, Borrowing::no_borrowing()),
        &seen(&public_players),
        &mut left,
        &mut right,
        &mut vec![],
    ));
    assert_eq!(0, player.coins());
    assert_eq!(0, left.coins());
    assert_eq!(0, right.coins());
}

#[test]
fn neighbours_yellow_cards_are_never_borrowed() {
    // Forum and Caravansery produce for their owner only.
    let public_players = table(vec![Card::Caravansery, Card::Forum], vec![Card::Caravansery]);
    let player = player_with(10, vec![], vec![Card::Stockade]);
    assert!(borrowings(&player, Card::Stockade, &public_players).is_empty());
    assert!(!player.can_play(
        &Action::Build(
            Card::Stockade,
            Borrowing::new(vec![Borrow::new(Card::Caravansery, Resource::Wood)], vec![]),
        ),
        &seen(&public_players),
    ));
}

#[test]
fn nothing_is_borrowed_that_is_not_owed() {
    // Temple costs wood, clay and glass. The player lacks the clay only.
    let public_players = table(
        vec![Card::TreeFarm, Card::StonePit, Card::Glassworks1],
        vec![Card::ClayPool, Card::LumberYard],
    );
    let player = player_with(10, vec![Card::LumberYard, Card::Glassworks1], vec![Card::Temple]);
    let found = borrowings(&player, Card::Temple, &public_players);
    assert_eq!(
        vec![
            Borrowing::new(vec![Borrow::new(Card::TreeFarm, Resource::Clay)], vec![]),
            Borrowing::new(vec![], vec![Borrow::new(Card::ClayPool, Resource::Clay)]),
        ],
        found
    );
}

#[test]
fn order_of_borrows_does_not_matter_for_playing() {
    // Temple costs wood, clay and glass. The Colossus starts with ore.
    let public_players = table(vec![Card::LumberYard, Card::ClayPool, Card::Glassworks1], vec![]);
    let player = player_with(6, vec![], vec![Card::Temple]);
    let wood = Borrow::new(Card::LumberYard, Resource::Wood);
    let clay = Borrow::new(Card::ClayPool, Resource::Clay);
    let glass = Borrow::new(Card::Glassworks1, Resource::Glass);
    assert_eq!(
        vec![Borrowing::new(vec![wood, clay, glass], vec![])],
        borrowings(&player, Card::Temple, &public_players)
    );
    for left in [vec![wood, clay, glass], vec![glass, wood, clay], vec![clay, glass, wood]] {
        assert!(player.can_play(
            &Action::Build(Card::Temple, Borrowing::new(left, vec![])),
            &seen(&public_players)
        ));
    }
    // The same units from the other neighbour are not on offer.
    assert!(!player.can_play(
        &Action::Build(Card::Temple, Borrowing::new(vec![], vec![wood, clay, glass])),
        &seen(&public_players)
    ));
    // One unit more than is owed is not on offer either.
    assert!(!player.can_play(
        &Action::Build(Card::Temple, Borrowing::new(vec![wood, clay, glass, wood], vec![])),
        &seen(&public_players)
    ));
}

#[test]
fn wonder_stages_cannot_be_played() {
    let public_players = table(vec![], vec![]);
    let mut player = player_with(3, vec![], vec![Card::LumberYard]);
    let action = Action::Wonder(Card::LumberYard, Borrowing::no_borrowing());
    assert!(!player.can_play(&action, &seen(&public_players)));
    let mut left = player_with(0, vec![], vec![]);
    let mut right = player_with(0, vec![], vec![]);
    let mut pile = vec![];
    assert!(!player.do_action(&action, &seen(&public_players), &mut left, &mut right, &mut pile));
    assert_eq!(&vec![Card::LumberYard], player.hand());
    assert_eq!(3, player.coins());
    assert!(pile.is_empty());
}

#[test]
fn single_option_is_one_of_all_options_in_some_order() {
    let public_players = table(vec![Card::LumberYard, Card::ClayPool], vec![Card::TreeFarm]);
    let player = player_with(4, vec![], vec![Card::Temple, Card::Stockade]);
    let all = borrowings(&player, Card::Stockade, &public_players);
    assert_eq!(2, all.len());
    for _ in 0..50 {
        let single = player.options_for_card(&Card::Stockade, &seen(&public_players), true);
        assert_eq!(1, single.actions.len());
        assert!(player.can_play(&single.actions[0], &seen(&public_players)));
        match &single.actions[0] {
            Action::Build(Card::Stockade, borrowing) => assert!(all.contains(borrowing)),
            other => panic!("not an option for the card: {:?}", other),
        }
    }
}

#[test]
fn add_choices_lists_what_is_owed_only() {
    let cost = Cost { wood: 1, clay: 1, ..Cost::free() };
    let mut choices: Vec<UsableResources> = vec![];
    add_choices(
        &vec![Card::TreeFarm, Card::Sawmill, Card::StonePit, Card::Caravansery, Card::Excavation],
        &cost,
        Source::LeftNeighbour,
        &mut choices,
    );
    let listed: Vec<(Card, Vec<Resource>, Source)> = choices
        .into_iter()
        .map(|usable| (usable.card, usable.resources, usable.source))
        .collect();
    assert_eq!(
        vec![
            (Card::TreeFarm, vec![Resource::Wood, Resource::Clay], Source::LeftNeighbour),
            (Card::Sawmill, vec![Resource::Wood], Source::LeftNeighbour),
            (Card::Sawmill, vec![Resource::Wood], Source::LeftNeighbour),
            (Card::Excavation, vec![Resource::Clay], Source::LeftNeighbour),
        ],
        listed
    );

    let mut own: Vec<UsableResources> = vec![];
    add_choices(
        &vec![Card::TreeFarm, Card::Sawmill, Card::Caravansery],
        &cost,
        Source::Own,
        &mut own,
    );
    let listed: Vec<(Card, Vec<Resource>)> =
        own.into_iter().map(|usable| (usable.card, usable.resources)).collect();
    assert_eq!(
        vec![
            (Card::TreeFarm, vec![Resource::Wood, Resource::Clay]),
            (Card::Caravansery, vec![Resource::Wood, Resource::Clay]),
        ],
        listed
    );
}

#[test]
fn resolve_goes_through_the_combinations_in_order() {
    // Two units of wood are owed, and six coins are at hand.
    let cost = Cost { wood: 2, coins: -6, ..Cost::free() };
    let unit = |card: Card, source: Source| UsableResources {
        card,
        resources: vec![Resource::Wood],
        source,
    };
    let entries = vec![
        unit(Card::LumberYard, Source::LeftNeighbour),
        unit(Card::Sawmill, Source::RightNeighbour),
        unit(Card::Sawmill, Source::RightNeighbour),
    ];
    let wood = |card: Card| Borrow::new(card, Resource::Wood);
    let found: Vec<Borrowing> = resolve(Card::Caravansery, &entries, &cost, false)
        .into_iter()
        .map(|action| match action {
            Action::Build(Card::Caravansery, borrowing) => borrowing,
            other => panic!("not an option for the card: {:?}", other),
        })
        .collect();
    assert_eq!(
        vec![
            Borrowing::new(vec![wood(Card::LumberYard)], vec![wood(Card::Sawmill)]),
            Borrowing::new(vec![wood(Card::LumberYard)], vec![wood(Card::Sawmill)]),
            Borrowing::new(vec![], vec![wood(Card::Sawmill), wood(Card::Sawmill)]),
        ],
        found
    );
    let first = resolve(Card::Caravansery, &entries, &cost, true);
    assert_eq!(1, first.len());

    // A unit of the player's own that can be taken as nothing leaves no combination.
    let none = vec![UsableResources { card: Card::Forum, resources: vec![], source: Source::Own }];
    assert!(resolve(Card::LumberYard, &none, &Cost::free(), false).is_empty());
    // No usable resource at all leaves the one combination that uses nothing.
    assert_eq!(1, resolve(Card::LumberYard, &vec![], &Cost::free(), false).len());
    assert!(resolve(Card::Stockade, &vec![], &Cost::wood(1), false).is_empty());
}
