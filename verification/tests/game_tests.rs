use seven_wonders::action::Action;
use seven_wonders::algorithms::PlayingAlgorithm;
use seven_wonders::algorithms::random::Random;
use seven_wonders::card::Age;
use seven_wonders::game::Game;
use seven_wonders::game::VisibleGame;
use seven_wonders::player::Player;
use seven_wonders::wonder::WonderSide;
use seven_wonders::wonder::WonderType;

/// Always discards the last card in the hand.
#[derive(Debug)]
pub struct AlwaysDiscards;

impl PlayingAlgorithm for AlwaysDiscards {
    fn get_next_action(&mut self, player: &Player, _visible_game: &VisibleGame) -> Action {
        // The last card is discarded so that the order of the hand is kept: a card that leaves
        // the hand is replaced by the last one.
        Action::Discard(player.hand()[player.hand().len() - 1])
    }
}

#[test]
fn new_game_has_correct_number_of_players() {
    assert_eq!(
        3,
        Game::new(vec![Box::new(Random {}), Box::new(Random {}), Box::new(Random {})]).player_count()
    );
}

#[test]
fn do_turn_increments_turn() {
    let mut game = Game::new(vec![Box::new(Random {}), Box::new(Random {}), Box::new(Random {})]);
    assert_eq!(0, game.turn);
    game.do_turn();
    assert_eq!(1, game.turn);
}

#[test]
fn age_updates_correctly_with_turns() {
    let mut game = Game::new(vec![Box::new(Random {}), Box::new(Random {}), Box::new(Random {})]);
    assert_eq!(Age::First, game.age());
    for _i in 0..7 {
        game.do_turn();
    }
    assert_eq!(Age::Second, game.age());
    for _i in 0..7 {
        game.do_turn();
    }
    assert_eq!(Age::Third, game.age());
}

#[test]
fn do_turn_deals_new_cards_at_the_start_of_each_age() {
    let mut game = Game::new(vec![Box::new(Random {}), Box::new(Random {}), Box::new(Random {})]);
    game.do_turn();
    assert_eq!(6, game.players[0].hand().len());
    for _i in 0..6 {
        game.do_turn();
    }
    assert_eq!(6, game.players[0].hand().len());
    for _i in 0..6 {
        game.do_turn();
    }
    assert_eq!(6, game.players[0].hand().len());
}

#[test]
fn do_turn_rotates_hands() {
    let mut game = Game::new(vec![
        Box::new(AlwaysDiscards {}),
        Box::new(AlwaysDiscards {}),
        Box::new(AlwaysDiscards {}),
    ]);

    // An initial turn deals the first age cards to the players. Before this, nobody has any
    // cards!
    game.do_turn();

    let player0 = game.players[0].hand().clone();
    let player1 = game.players[1].hand().clone();
    let player2 = game.players[2].hand().clone();

    game.do_turn();

    assert_eq!(game.players[1].hand()[..], player0[..player0.len() - 1]);
    assert_eq!(game.players[2].hand()[..], player1[..player0.len() - 1]);
    assert_eq!(game.players[0].hand()[..], player2[..player0.len() - 1]);
}

#[test]
fn get_mutable_player_and_neighbours() {
    let mut players = vec![
        Player::new(WonderType::ColossusOfRhodes, WonderSide::A),
        Player::new(WonderType::LighthouseOfAlexandria, WonderSide::A),
        Player::new(WonderType::TempleOfArtemis, WonderSide::A),
        Player::new(WonderType::HangingGardensOfBabylon, WonderSide::A),
    ];

    let (right, player, left) = Game::get_mutable_player_and_neighbours(&mut players, 0);
    assert_eq!(WonderType::HangingGardensOfBabylon, right.wonder().wonder_type);
    assert_eq!(WonderType::ColossusOfRhodes, player.wonder().wonder_type);
    assert_eq!(WonderType::LighthouseOfAlexandria, left.wonder().wonder_type);

    let (right, player, left) = Game::get_mutable_player_and_neighbours(&mut players, 1);
    assert_eq!(WonderType::ColossusOfRhodes, right.wonder().wonder_type);
    assert_eq!(WonderType::LighthouseOfAlexandria, player.wonder().wonder_type);
    assert_eq!(WonderType::TempleOfArtemis, left.wonder().wonder_type);

    let (right, player, left) = Game::get_mutable_player_and_neighbours(&mut players, 3);
    assert_eq!(WonderType::TempleOfArtemis, right.wonder().wonder_type);
    assert_eq!(WonderType::HangingGardensOfBabylon, player.wonder().wonder_type);
    assert_eq!(WonderType::ColossusOfRhodes, left.wonder().wonder_type);
}

#[test]
fn play_returns_scores() {
    assert_eq!(
        3,
        Game::new(vec![Box::new(Random {}), Box::new(Random {}), Box::new(Random {})])
            .play()
            .len()
    );
}
