use seven_wonders::action::Action;
use seven_wonders::action::Borrow;
use seven_wonders::action::Borrowing;
use seven_wonders::card::Card;
use seven_wonders::card::Card::Apothecary;
use seven_wonders::card::Card::Aqueduct;
use seven_wonders::card::Card::ArcheryRange;
use seven_wonders::card::Card::Barracks;
use seven_wonders::card::Card::Baths;
use seven_wonders::card::Card::Brickyard;
use seven_wonders::card::Card::Caravansery;
use seven_wonders::card::Card::ClayPit;
use seven_wonders::card::Card::ClayPool;
use seven_wonders::card::Card::Dispensary;
use seven_wonders::card::Card::Glassworks1;
use seven_wonders::card::Card::Laboratory;
use seven_wonders::card::Card::Library;
use seven_wonders::card::Card::Lodge;
use seven_wonders::card::Card::Loom1;
use seven_wonders::card::Card::LumberYard;
use seven_wonders::card::Card::OreVein;
use seven_wonders::card::Card::Press1;
use seven_wonders::card::Card::Quarry;
use seven_wonders::card::Card::Sawmill;
use seven_wonders::card::Card::Stockade;
use seven_wonders::card::Card::StonePit;
use seven_wonders::card::Card::Temple;
use seven_wonders::card::Card::TreeFarm;
use seven_wonders::card::Card::Workshop;
use seven_wonders::game::VisibleGame;
use seven_wonders::player::Player;
use seven_wonders::player::PublicPlayer;
use seven_wonders::resources::Resource;
use seven_wonders::wonder::WonderBoard;
use seven_wonders::wonder::WonderSide;
use seven_wonders::wonder::WonderType;

fn new_player(hand: Vec<Card>) -> Player {
    let mut player = Player::new(WonderType::ColossusOfRhodes, WonderSide::A);
    player.swap_hand(hand);
    player
}

fn visible_game(public_players: &[PublicPlayer]) -> VisibleGame {
    VisibleGame {
        public_players,
        player_index: 1,
        turn: 0,
    }
}

fn players() -> Vec<PublicPlayer> {
    players_with_resources(vec![], vec![])
}

fn players_with_resources(left: Vec<Card>, right: Vec<Card>) -> Vec<PublicPlayer> {
    vec![
        PublicPlayer {
            wonder: WonderBoard {
                wonder_type: WonderType::ColossusOfRhodes,
                wonder_side: WonderSide::A,
            },
            built_structures: right,
            coins: 0,
        },
        PublicPlayer {
            wonder: WonderBoard {
                wonder_type: WonderType::LighthouseOfAlexandria,
                wonder_side: WonderSide::A,
            },
            built_structures: vec![],
            coins: 0,
        },
        PublicPlayer {
            wonder: WonderBoard {
                wonder_type: WonderType::TempleOfArtemis,
                wonder_side: WonderSide::A,
            },
            built_structures: left,
            coins: 0,
        },
    ]
}

fn build(player: &mut Player, card: Card) -> bool {
    let mut left_neighbour = new_player(vec![]);
    let mut right_neighbour = new_player(vec![]);
    player.do_action(
        &Action::Build(card, Borrowing::no_borrowing()),
        &visible_game(&players()),
        &mut left_neighbour,
        &mut right_neighbour,
        &mut vec![],
    )
}

fn strength(cards: &[Card]) -> f32 {
    Player::strength_internal(cards) as f32
}

#[test]
fn options_for_card_returns_nothing_if_insufficient_resources() {
    // Stockade requires 1 wood, we have 1 ore (starting resource).
    let player = new_player(vec![]);
    assert_eq!(
        0,
        player
            .options_for_card(&Stockade, &visible_game(&players()), false)
            .actions
            .len()
    );
}

#[test]
fn options_for_card_returns_nothing_if_insufficient_coins() {
    // Tree farm requires 1 coin, which we don't have.
    let mut player = new_player(vec![]);
    player.coins = 0;
    assert_eq!(
        0,
        player
            .options_for_card(&TreeFarm, &visible_game(&players()), false)
            .actions
            .len()
    );
}

#[test]
fn options_for_card_returns_one_option_if_sufficient_resources() {
    // Barracks requires 1 ore, which we have (starting resource).
    let player = new_player(vec![]);
    assert_eq!(
        1,
        player
            .options_for_card(&Barracks, &visible_game(&players()), false)
            .actions
            .len()
    );
}

#[test]
fn options_for_card_returns_one_option_if_sufficient_coins() {
    // Tree farm requires 1 coin, which we have (starting coins).
    let player = new_player(vec![]);
    assert_eq!(
        1,
        player
            .options_for_card(&TreeFarm, &visible_game(&players()), false)
            .actions
            .len()
    );
}

#[test]
fn options_for_card_returns_one_option_if_free() {
    // Lumber yard is free.
    let player = new_player(vec![]);
    assert_eq!(
        1,
        player
            .options_for_card(&LumberYard, &visible_game(&players()), false)
            .actions
            .len()
    );
}

#[test]
fn options_for_card_handles_option_cards() {
    // Stockade requires 1 wood. Tree farm provides wood or clay.
    let mut player = new_player(vec![TreeFarm]);
    build(&mut player, TreeFarm);
    assert_eq!(
        1,
        player
            .options_for_card(&Stockade, &visible_game(&players()), false)
            .actions
            .len()
    );
}

#[test]
fn options_for_card_returns_nothing_if_both_options_needed() {
    // Temple requires 1 wood, 1 clay, 1 glass. Tree farm provides wood or clay, which is no good.
    let mut player = new_player(vec![TreeFarm, Glassworks1]);
    build(&mut player, TreeFarm);
    build(&mut player, Glassworks1);
    assert_eq!(
        0,
        player
            .options_for_card(&Temple, &visible_game(&players()), false)
            .actions
            .len()
    );
}

#[test]
fn options_for_card_returns_one_option_even_if_multiple_ways() {
    // Stockade requires 1 wood. Both lumber yard and tree farm provide it.
    let mut player = new_player(vec![LumberYard, TreeFarm]);
    build(&mut player, LumberYard);
    build(&mut player, TreeFarm);
    assert_eq!(
        1,
        player
            .options_for_card(&Stockade, &visible_game(&players()), false)
            .actions
            .len()
    );
}

#[test]
fn options_for_card_handles_multiple_resources_required() {
    // Caravansery requires 2 wood. Lumber yard and tree farm provide one each.
    let mut player = new_player(vec![LumberYard, TreeFarm]);
    build(&mut player, LumberYard);
    build(&mut player, TreeFarm);
    assert_eq!(
        1,
        player
            .options_for_card(&Caravansery, &visible_game(&players()), false)
            .actions
            .len()
    );
}

#[test]
fn options_for_card_borrows_from_neighbours() {
    // Stockade requires 1 wood, we can borrow from a neighbour.
    let player = new_player(vec![]);
    let public_players = players_with_resources(vec![LumberYard], vec![]);
    assert_eq!(
        1,
        player
            .options_for_card(&Stockade, &visible_game(&public_players), false)
            .actions
            .len()
    );
}

#[test]
fn options_for_card_does_not_borrow_if_insufficient_coins() {
    // Stockade requires 1 wood, we can borrow from a neighbour, but we don't have enough coins.
    let mut player = new_player(vec![]);
    player.coins = 1;
    let public_players = players_with_resources(vec![LumberYard], vec![]);
    assert_eq!(
        0,
        player
            .options_for_card(&Stockade, &visible_game(&public_players), false)
            .actions
            .len()
    );
}

#[test]
fn options_for_card_does_not_borrow_if_insufficient_coins2() {
    // Caravansery requires 2 wood, we can borrow from a neighbour, but we don't have enough coins.
    let mut player = new_player(vec![]);
    player.coins = 3;
    let public_players = players_with_resources(vec![LumberYard, TreeFarm], vec![]);
    assert_eq!(
        0,
        player
            .options_for_card(&Caravansery, &visible_game(&public_players), false)
            .actions
            .len()
    );
}

#[test]
fn options_for_card_does_not_borrow_if_insufficient_coins3() {
    // Caravansery requires 2 wood, we can borrow from a neighbour, but we don't have enough coins.
    let mut player = new_player(vec![]);
    player.coins = 3;
    let public_players = players_with_resources(vec![Sawmill], vec![]);
    assert_eq!(
        0,
        player
            .options_for_card(&Caravansery, &visible_game(&public_players), false)
            .actions
            .len()
    );
}

#[test]
fn options_for_card_returns_two_options_if_both_neighbours_can_be_borrowed_from() {
    // Stockade requires 1 wood, we can borrow from either neighbour.
    let player = new_player(vec![]);
    let public_players = players_with_resources(vec![LumberYard], vec![TreeFarm]);
    assert_eq!(
        2,
        player
            .options_for_card(&Stockade, &visible_game(&public_players), false)
            .actions
            .len()
    );
}

#[test]
fn options_for_card_returns_one_option_if_requested() {
    // Stockade requires 1 wood, we can borrow from either neighbour, resulting in two options, but we ask for just
    //one to be returned.
    let player = new_player(vec![]);
    let public_players = players_with_resources(vec![LumberYard], vec![TreeFarm]);
    assert_eq!(
        1,
        player
            .options_for_card(&Stockade, &visible_game(&public_players), true)
            .actions
            .len()
    );
}

#[test]
fn options_for_card_borrows_from_both_neighbours() {
    // Caravansery requires 2 wood. Lumber yard and tree farm, one from each neighbour, provide one each.
    let mut player = new_player(vec![]);
    player.coins = 4;
    let public_players = players_with_resources(vec![LumberYard], vec![TreeFarm]);
    assert_eq!(
        1,
        player
            .options_for_card(&Caravansery, &visible_game(&public_players), false)
            .actions
            .len()
    );
}

#[test]
fn options_for_card_does_not_borrow_unneeded_resources() {
    // Stockade requires 1 wood. While we could borrow the wood from the neighbour's lumber yard, we have one of our
    // own which we should use.
    let mut player = new_player(vec![TreeFarm]);
    build(&mut player, TreeFarm);
    let public_players = players_with_resources(vec![LumberYard], vec![]);
    assert_eq!(
        1,
        player
            .options_for_card(&Stockade, &visible_game(&public_players), false)
            .actions
            .len()
    );
}

#[test]
fn options_for_card_does_not_borrow_unneeded_resources2() {
    // Stockade requires 1 wood, we can borrow from a neighbour, the options shouldn't include also borrowing the
    // stone pit, even though we can afford to do that because it's not needed.
    let mut player = new_player(vec![]);
    player.coins = 4;
    let public_players = players_with_resources(vec![LumberYard, StonePit], vec![]);
    assert_eq!(
        1,
        player
            .options_for_card(&Stockade, &visible_game(&public_players), false)
            .actions
            .len()
    );
}

#[test]
fn options_for_card_borrows_fractional_resources() {
    // Laboratory requires 2 clay (and 1 papyrus, but don't worry about that). Valid borrows are brickyard only, or
    // clay pit and clay pool, or brickyard and clay pit/clay pool, even though the last option uses only 1 of the 2
    // clay provided by the brickyard in each case. Note that 6 combinations are generated because borrowing, for
    // example, clay pool and the first clay of the brickyard is counted as a distinct option to borrowing clay pool
    // and the second clay of the brickyard. Maybe we want to change this in future.
    let mut player = new_player(vec![Press1]);
    build(&mut player, Press1);
    player.coins = 4;
    let public_players = players_with_resources(vec![ClayPit, Brickyard], vec![ClayPool]);
    assert_eq!(
        6,
        player
            .options_for_card(&Laboratory, &visible_game(&public_players), false)
            .actions
            .len()
    );
}

#[test]
fn options_for_card_does_not_cause_duplicate_options_due_to_unneeded_own_resources() {
    // Aqueduct requires 3 stone, which must come from our own stone pit and the neighbour's quarry. Our own clay
    // pit should not affect anything (a bug caused it to duplicate the only valid option due to iterating over the
    // clay pit options).
    let mut player = new_player(vec![StonePit, ClayPit]);
    build(&mut player, StonePit);
    build(&mut player, ClayPit);
    player.coins = 4;
    let public_players = players_with_resources(vec![Quarry], vec![]);
    assert_eq!(
        1,
        player
            .options_for_card(&Aqueduct, &visible_game(&public_players), false)
            .actions
            .len()
    );
}

#[test]
fn options_for_card_does_not_borrow_yellow_cards() {
    // Stockade requires 1 wood. Our neighbour has a caravansery, which produces wood, but it is not borrowable.
    let player = new_player(vec![]);
    let public_players = players_with_resources(vec![Caravansery], vec![]);
    assert_eq!(
        0,
        player
            .options_for_card(&Stockade, &visible_game(&public_players), false)
            .actions
            .len()
    );
}

#[test]
fn options_for_card_uses_own_yellow_cards() {
    // Baths requires 1 stone. Caravansery produces 1 stone. It's yellow, but we own it, so we can use it.
    let mut player = new_player(vec![Sawmill, Caravansery]);
    build(&mut player, Sawmill);
    build(&mut player, Caravansery);
    assert_eq!(
        1,
        player
            .options_for_card(&Baths, &visible_game(&players()), false)
            .actions
            .len()
    );
}

#[test]
fn can_play_returns_false_if_player_does_not_have_card() {
    let player = new_player(vec![LumberYard]);
    assert_eq!(
        false,
        player.can_play(
            &Action::Build(StonePit, Borrowing::no_borrowing()),
            &visible_game(&players())
        )
    );
}

#[test]
fn can_play_returns_false_if_player_does_not_have_card2() {
    let player = new_player(vec![LumberYard]);
    assert_eq!(
        false,
        player.can_play(&Action::Discard(StonePit), &visible_game(&players()))
    );
}

#[test]
fn can_play_returns_true_if_player_does_have_card_and_card_is_playable() {
    let player = new_player(vec![LumberYard]);
    assert_eq!(
        true,
        player.can_play(
            &Action::Build(LumberYard, Borrowing::no_borrowing()),
            &visible_game(&players())
        )
    );
}

#[test]
fn can_play_returns_false_if_borrowing_required_but_not_specified() {
    // Stockade requires 1 wood, we *can* borrow from a neighbour, but our action says we're not doing any borrowing.
    let player = new_player(vec![Stockade]);
    let public_players = players_with_resources(vec![LumberYard], vec![]);
    assert_eq!(
        false,
        player.can_play(
            &Action::Build(Stockade, Borrowing::no_borrowing()),
            &visible_game(&public_players)
        )
    );
}

#[test]
fn can_play_returns_false_if_borrowing_not_possible() {
    // Stockade requires 1 wood, we say we'll borrow from a neighbour, but the neighbour doesn't have the card.
    let player = new_player(vec![Stockade]);
    assert_eq!(
        false,
        player.can_play(
            &Action::Build(
                Stockade,
                Borrowing::new(vec![Borrow::new(LumberYard, Resource::Wood)], vec![])
            ),
            &visible_game(&players())
        )
    );
}

#[test]
fn can_play_returns_false_if_borrowing_not_possible2() {
    // Archery range requires 2 wood (and 1 ore), we say we'll borrow the wood from a neighbour, but the neighbour
    // only has one wood.
    let mut player = new_player(vec![ArcheryRange, OreVein]);
    player.coins = 4;
    build(&mut player, OreVein);
    let public_players = players_with_resources(vec![LumberYard], vec![]);
    assert_eq!(
        false,
        player.can_play(
            &Action::Build(
                ArcheryRange,
                Borrowing::new(
                    vec![
                        Borrow::new(LumberYard, Resource::Wood),
                        Borrow::new(LumberYard, Resource::Wood)
                    ],
                    vec![]
                )
            ),
            &visible_game(&public_players)
        )
    );
}

#[test]
fn can_play_returns_false_if_borrowing_not_possible3() {
    // Stockade requires 1 wood, we say we'll borrow from a neighbour, but don't have enough coins.
    let mut player = new_player(vec![Stockade]);
    player.coins = 1;
    let public_players = players_with_resources(vec![LumberYard], vec![]);
    assert_eq!(
        false,
        player.can_play(
            &Action::Build(
                Stockade,
                Borrowing::new(vec![Borrow::new(LumberYard, Resource::Wood)], vec![])
            ),
            &visible_game(&public_players)
        )
    );
}

#[test]
fn can_play_returns_false_if_borrowing_not_possible4() {
    // Stockade requires 1 wood, we say we'll borrow from a neighbour, but the card we try to borrow doesn't produce
    // wood.
    let mut player = new_player(vec![Stockade]);
    player.coins = 1;
    let public_players = players_with_resources(vec![StonePit], vec![]);
    assert_eq!(
        false,
        player.can_play(
            &Action::Build(
                Stockade,
                Borrowing::new(vec![Borrow::new(LumberYard, Resource::Wood)], vec![])
            ),
            &visible_game(&public_players)
        )
    );
}

#[test]
fn strength_returns_sum_of_card_strengths() {
    assert_eq!(0.0, strength(&[StonePit]));
    assert_eq!(5.0, strength(&[StonePit, Quarry, Aqueduct]));
    assert_eq!(
        6.0,
        strength(&[StonePit, Quarry, Aqueduct, Loom1, Apothecary])
    );
}

#[test]
fn strength_returns_correct_strength_of_green_structures() {
    assert_eq!(1.0, strength(&[Lodge]));
    assert_eq!(4.0, strength(&[Lodge, Apothecary]));
    assert_eq!(9.0, strength(&[Lodge, Apothecary, Dispensary]));
    assert_eq!(10.0, strength(&[Lodge, Workshop, Library]));
    assert_eq!(
        21.0,
        strength(&[Lodge, Apothecary, Dispensary, Laboratory, Workshop, Library])
    ); // rulebook example
}

#[test]
fn do_action_returns_false_if_action_not_playable() {
    let mut player = new_player(vec![LumberYard]);
    assert_eq!(false, build(&mut player, StonePit));
}

#[test]
fn do_action_transfers_built_card_from_hand_to_built_structures() {
    let mut player = new_player(vec![LumberYard]);
    assert_eq!(0, player.built_structures.len());
    assert_eq!(1, player.hand.len());
    assert_eq!(true, build(&mut player, LumberYard));
    assert_eq!(1, player.built_structures.len());
    assert_eq!(0, player.hand.len());
}

#[test]
fn do_action_decrements_cost_in_coins_when_building() {
    let mut player = new_player(vec![TreeFarm]);
    assert_eq!(3, player.coins);
    assert_eq!(true, build(&mut player, TreeFarm));
    assert_eq!(2, player.coins);
}

#[test]
fn do_action_transfers_discarded_card_from_hand_to_discard_pile() {
    let mut player = new_player(vec![LumberYard]);
    let mut discard_pile = vec![];
    assert_eq!(1, player.hand.len());
    assert_eq!(
        true,
        player.do_action(
            &Action::Discard(LumberYard),
            &visible_game(&players()),
            &mut new_player(vec![]),
            &mut new_player(vec![]),
            &mut discard_pile
        )
    );
    assert_eq!(1, discard_pile.len());
    assert_eq!(0, player.hand.len());
}

#[test]
fn do_action_adds_three_coins_when_discarding() {
    let mut player = new_player(vec![LumberYard]);
    assert_eq!(3, player.coins);
    assert_eq!(
        true,
        player.do_action(
            &Action::Discard(LumberYard),
            &visible_game(&players()),
            &mut new_player(vec![]),
            &mut new_player(vec![]),
            &mut vec![]
        )
    );
    assert_eq!(6, player.coins);
}

#[test]
fn new_public_player() {
    let player = new_player(vec![LumberYard]);
    let public_player = PublicPlayer::new(&player);
    assert_eq!(player.wonder, public_player.wonder);
    assert_eq!(player.built_structures, public_player.built_structures);
    assert_eq!(player.coins, public_player.coins);
}
