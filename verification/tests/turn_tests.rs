use seven_wonders::action::Action;
use seven_wonders::action::Borrow;
use seven_wonders::action::Borrowing;
use seven_wonders::algorithms::PlayingAlgorithm;
use seven_wonders::algorithms::monte_carlo::MonteCarlo;
use seven_wonders::algorithms::monte_carlo::MonteCarloAlg;
use seven_wonders::algorithms::random::Random;
use seven_wonders::algorithms::random::get_next_action;
use seven_wonders::algorithms::random::pick;
use seven_wonders::card::Age;
use seven_wonders::card::Card;
use seven_wonders::card::Colour;
use seven_wonders::deck::assemble_deck;
use seven_wonders::deck::deck_can_be_made;
use seven_wonders::deck::deck_stock;
use seven_wonders::deck::new_deck;
use seven_wonders::deck::new_deck_without;
use seven_wonders::game::Game;
use seven_wonders::game::VisibleGame;
use seven_wonders::player::Player;
use seven_wonders::player::PublicPlayer;
use seven_wonders::resources::Resource;
use seven_wonders::wonder::WonderBoard;
use seven_wonders::wonder::WonderSide;
use seven_wonders::wonder::WonderType;

/// Always builds the last card in the hand, borrowing nothing.
#[derive(Debug)]
struct AlwaysBuilds;

impl PlayingAlgorithm for AlwaysBuilds {
    fn get_next_action(&mut self, player: &Player, _visible_game: &VisibleGame) -> Action {
        Action::Build(player.hand()[player.hand().len() - 1], Borrowing::no_borrowing())
    }
}

/// Always asks for a wonder stage, which is not legal.
#[derive(Debug)]
struct AlwaysWonders;

impl PlayingAlgorithm for AlwaysWonders {
    fn get_next_action(&mut self, player: &Player, _visible_game: &VisibleGame) -> Action {
        Action::Wonder(player.hand()[0], Borrowing::no_borrowing())
    }
}

fn three(algorithm: fn() -> Box<dyn PlayingAlgorithm>) -> Game {
    Game::new(vec![algorithm(), algorithm(), algorithm()])
}

fn sorted(mut cards: Vec<Card>) -> Vec<Card> {
    cards.sort_by_key(|card| format!("{:?}", card));
    cards
}

#[test]
fn new_game_seats_fresh_players_with_different_wonders() {
    for count in 3..=7 {
        let algorithms: Vec<Box<dyn PlayingAlgorithm>> =
            (0..count).map(|_| Box::new(Random {}) as Box<dyn PlayingAlgorithm>).collect();
        let game = Game::new(algorithms);
        assert_eq!(count, game.player_count());
        assert_eq!(0, game.turn());
        assert!(game.discard_pile().is_empty());
        for seat in 0..count as usize {
            assert_eq!(3, game.player(seat).coins());
            assert!(game.player(seat).hand().is_empty());
            assert!(game.player(seat).built_structures().is_empty());
            assert_eq!(WonderSide::A, game.player(seat).wonder().wonder_side);
            for other in 0..seat {
                assert_ne!(
                    game.player(seat).wonder().wonder_type,
                    game.player(other).wonder().wonder_type
                );
            }
        }
    }
}

#[test]
fn wonders_are_given_out_in_different_orders() {
    let first = |game: &Game| game.player(0).wonder().wonder_type;
    let one = first(&three(|| Box::new(Random {})));
    assert!((0..200).any(|_| first(&three(|| Box::new(Random {}))) != one));
}

#[test]
fn seats_get_the_wonders_in_the_given_order() {
    let wonder_types = vec![
        WonderType::PyramidsOfGiza,
        WonderType::StatueOfZeus,
        WonderType::ColossusOfRhodes,
        WonderType::TempleOfArtemis,
    ];
    let game = Game::seat_players(
        vec![Box::new(Random {}), Box::new(Random {}), Box::new(Random {})],
        &wonder_types,
    );
    assert_eq!(3, game.players.len());
    assert_eq!(3, game.algorithms.len());
    assert_eq!(WonderType::PyramidsOfGiza, game.players[0].wonder.wonder_type);
    assert_eq!(WonderType::StatueOfZeus, game.players[1].wonder.wonder_type);
    assert_eq!(WonderType::ColossusOfRhodes, game.players[2].wonder.wonder_type);
}

#[test]
fn hands_are_passed_to_the_left_in_the_first_and_third_age() {
    for turn in [0, 5, 12, 17] {
        let mut game = three(|| Box::new(Random {}));
        game.turn = turn;
        game.players[0].swap_hand(vec![Card::LumberYard]);
        game.players[1].swap_hand(vec![Card::StonePit, Card::ClayPool]);
        game.players[2].swap_hand(vec![]);
        game.pass_hands();
        assert_eq!(&Vec::<Card>::new(), game.players[0].hand());
        assert_eq!(&vec![Card::LumberYard], game.players[1].hand());
        assert_eq!(&vec![Card::StonePit, Card::ClayPool], game.players[2].hand());
        assert_eq!(turn, game.turn);
    }
}

#[test]
fn hands_are_passed_to_the_right_in_the_second_age() {
    for turn in [6, 11] {
        let mut game = three(|| Box::new(Random {}));
        game.turn = turn;
        game.players[0].swap_hand(vec![Card::LumberYard]);
        game.players[1].swap_hand(vec![Card::StonePit, Card::ClayPool]);
        game.players[2].swap_hand(vec![]);
        game.pass_hands();
        assert_eq!(&vec![Card::StonePit, Card::ClayPool], game.players[0].hand());
        assert_eq!(&Vec::<Card>::new(), game.players[1].hand());
        assert_eq!(&vec![Card::LumberYard], game.players[2].hand());
    }
}

#[test]
fn a_round_of_passing_keeps_every_card_in_play() {
    let count = 5;
    let algorithms: Vec<Box<dyn PlayingAlgorithm>> =
        (0..count).map(|_| Box::new(Random {}) as Box<dyn PlayingAlgorithm>).collect();
    let mut game = Game::new(algorithms);
    game.deal(new_deck(&Age::First, 5));
    let hands: Vec<Vec<Card>> = game.players.iter().map(|player| player.hand().clone()).collect();
    let all = |game: &Game| {
        sorted(game.players.iter().flat_map(|player| player.hand().clone()).collect())
    };
    let before = all(&game);
    for passes in 1..=count {
        game.pass_hands();
        assert_eq!(before, all(&game));
        for seat in 0..count {
            assert_eq!(&hands[(seat + count - passes) % count], game.players[seat].hand());
        }
    }
}

#[test]
fn a_turn_hands_on_what_is_left_of_each_hand() {
    let mut game = three(|| Box::new(Random {}));
    game.do_turn();
    let hands: Vec<Vec<Card>> = game.players.iter().map(|player| player.hand().clone()).collect();
    game.do_turn();
    for seat in 0..3 {
        let now = game.players[(seat + 1) % 3].hand();
        assert_eq!(hands[seat].len() - 1, now.len());
        assert!(now.iter().all(|card| hands[seat].contains(card)));
    }
}

#[test]
fn cards_are_dealt_from_the_front_of_the_deck() {
    let mut game = three(|| Box::new(Random {}));
    game.players[1].swap_hand(vec![Card::Palace]);
    game.players[2].swap_hand(vec![Card::Arena, Card::Haven]);
    game.discard_pile.push(Card::Tavern);
    let deck = new_deck(&Age::First, 3);
    game.deal(deck.clone());
    for seat in 0..3 {
        assert_eq!(deck[seat * 7..seat * 7 + 7], game.players[seat].hand()[..]);
    }
    assert_eq!(vec![Card::Tavern, Card::Palace, Card::Arena, Card::Haven], game.discard_pile);
}

#[test]
fn an_age_ends_with_the_cards_left_over_on_the_discard_pile() {
    let mut game = three(|| Box::new(AlwaysBuilds {}));
    game.do_turn();
    // Hands of cards that are free, so that everybody builds in each of the turns that follow.
    for seat in 0..3 {
        game.players[seat].swap_hand(vec![Card::LumberYard; 6]);
    }
    for _ in 0..5 {
        game.do_turn();
    }
    assert_eq!(6, game.turn);
    assert_eq!(Age::Second, game.age());
    assert!(game.discard_pile.is_empty());
    for seat in 0..3 {
        assert_eq!(&vec![Card::LumberYard], game.players[seat].hand());
        assert!(game.players[seat].built_structures().len() >= 5);
    }
    game.deal(new_deck(&game.age(), game.player_count()));
    assert_eq!(vec![Card::LumberYard; 3], game.discard_pile);
    for seat in 0..3 {
        assert_eq!(7, game.players[seat].hand().len());
        assert!(game.players[seat].hand().iter().all(|card| card.age() == Age::Second));
    }
}

#[test]
fn an_action_that_is_not_legal_changes_nothing() {
    let mut game = three(|| Box::new(AlwaysWonders {}));
    game.do_turn();
    assert_eq!(1, game.turn);
    assert!(game.discard_pile.is_empty());
    for seat in 0..3 {
        assert_eq!(7, game.players[seat].hand().len());
        assert_eq!(3, game.players[seat].coins());
        assert!(game.players[seat].built_structures().is_empty());
    }
}

#[test]
fn the_player_at_a_seat_pays_the_neighbours_at_the_table() {
    let mut game = Game::seat_players(
        vec![Box::new(Random {}), Box::new(Random {}), Box::new(Random {})],
        &vec![WonderType::ColossusOfRhodes, WonderType::LighthouseOfAlexandria, WonderType::TempleOfArtemis],
    );
    game.players[0].built_structures = vec![Card::LumberYard];
    game.players[1].built_structures = vec![Card::ClayPool];
    game.players[2].swap_hand(vec![Card::Temple, Card::Baths]);
    game.players[2].built_structures = vec![Card::Glassworks1];
    game.players[2].coins = 5;
    let public_players = game.snapshot();
    // Seat 2 sits between seat 1, on its right, and seat 0, on its left.
    let action = Action::Build(
        Card::Temple,
        Borrowing::new(
            vec![Borrow::new(Card::LumberYard, Resource::Wood)],
            vec![Borrow::new(Card::ClayPool, Resource::Clay)],
        ),
    );
    assert!(game.play_seat(2, &action, &public_players));
    assert_eq!(1, game.players[2].coins());
    assert_eq!(5, game.players[0].coins());
    assert_eq!(5, game.players[1].coins());
    assert_eq!(&vec![Card::Baths], game.players[2].hand());
    assert_eq!(&vec![Card::Glassworks1, Card::Temple], game.players[2].built_structures());
    // The other way round the units are not there.
    let wrong = Action::Build(
        Card::Baths,
        Borrowing::new(vec![Borrow::new(Card::ClayPool, Resource::Clay)], vec![]),
    );
    assert!(!game.play_seat(2, &wrong, &public_players));
    assert_eq!(1, game.players[2].coins());
    assert!(game.play_seat(2, &Action::Discard(Card::Baths), &public_players));
    assert_eq!(4, game.players[2].coins());
    assert_eq!(vec![Card::Baths], game.discard_pile);
}

#[test]
fn neighbours_are_counted_round_the_table() {
    let public_players: Vec<PublicPlayer> = [
        WonderType::ColossusOfRhodes,
        WonderType::LighthouseOfAlexandria,
        WonderType::TempleOfArtemis,
        WonderType::StatueOfZeus,
    ]
    .into_iter()
    .map(|wonder_type| PublicPlayer {
        wonder: WonderBoard { wonder_type, wonder_side: WonderSide::B },
        built_structures: vec![],
        coins: 0,
    })
    .collect();
    let view = |player_index: usize| VisibleGame { public_players: &public_players, player_index, turn: 7 };
    assert_eq!((1, 3), (view(0).left_neighbour_index(), view(0).right_neighbour_index()));
    assert_eq!((2, 0), (view(1).left_neighbour_index(), view(1).right_neighbour_index()));
    assert_eq!((0, 2), (view(3).left_neighbour_index(), view(3).right_neighbour_index()));
    assert_eq!(WonderType::StatueOfZeus, view(0).right_neighbour().wonder.wonder_type);
    assert_eq!(WonderType::ColossusOfRhodes, view(3).left_neighbour().wonder.wonder_type);
    assert_eq!(Age::Second, view(0).age());
}

#[test]
fn game_plays_to_the_end_from_any_turn() {
    let mut game = three(|| Box::new(Random {}));
    for _ in 0..8 {
        game.do_turn();
    }
    let scores = game.play();
    assert_eq!(18, game.turn());
    assert_eq!(3, scores.len());
    for seat in 0..3 {
        assert_eq!(scores[seat], game.player(seat).strength());
        assert!(game.player(seat).built_structures().len() <= 18);
        assert!(game.player(seat).coins() >= 0);
    }
}

#[test]
fn decks_come_in_different_orders() {
    let one = new_deck(&Age::First, 3);
    assert!((0..20).any(|_| new_deck(&Age::First, 3) != one));
    assert_eq!(sorted(one), sorted(new_deck(&Age::First, 3)));
}

#[test]
fn deck_holds_the_cards_of_its_age() {
    for player_count in 3..=7 {
        let (plain, guilds) = deck_stock(&Age::Third, player_count, &vec![]);
        assert_eq!(10, guilds.len());
        assert!(guilds.iter().all(|card| card.colour() == Colour::Purple));
        let deck = new_deck(&Age::Third, player_count);
        let guilds_in_deck = deck.iter().filter(|card| card.colour() == Colour::Purple).count();
        assert_eq!(player_count as usize + 2, guilds_in_deck);
        let rest: Vec<Card> = deck.into_iter().filter(|card| card.colour() != Colour::Purple).collect();
        assert_eq!(sorted(plain), sorted(rest));
    }
    let (plain, guilds) = deck_stock(&Age::First, 4, &vec![Card::LumberYard, Card::Sawmill]);
    assert!(guilds.is_empty());
    assert_eq!(27, plain.len());
    assert_eq!(1, plain.iter().filter(|card| **card == Card::LumberYard).count());
    assert_eq!(vec![Card::LumberYard, Card::StonePit, Card::ClayPool], plain[..3]);
}

#[test]
fn deck_is_put_together_from_the_end_of_the_guilds() {
    let plain = vec![Card::Pantheon, Card::Gardens];
    let guilds = vec![Card::WorkersGuild, Card::SpiesGuild, Card::TradersGuild];
    assert_eq!(
        vec![Card::Pantheon, Card::Gardens, Card::TradersGuild, Card::SpiesGuild],
        assemble_deck(plain.clone(), guilds.clone(), &Age::Third, 2)
    );
    assert_eq!(plain, assemble_deck(plain.clone(), guilds, &Age::Second, 2));
}

#[test]
fn deck_cannot_be_made_without_more_copies_than_there_are() {
    assert!(deck_can_be_made(&Age::First, 3, &vec![]));
    assert!(deck_can_be_made(&Age::First, 3, &vec![Card::LumberYard, Card::Sawmill, Card::Sawmill, Card::Sawmill]));
    assert!(!deck_can_be_made(&Age::First, 3, &vec![Card::LumberYard, Card::LumberYard]));
    assert!(deck_can_be_made(&Age::First, 4, &vec![Card::LumberYard, Card::LumberYard]));
    assert!(deck_can_be_made(&Age::Third, 7, &vec![Card::SpiesGuild]));
    assert!(!deck_can_be_made(&Age::Third, 7, &vec![Card::SpiesGuild, Card::SpiesGuild]));
    assert!(!deck_can_be_made(&Age::Third, u32::MAX, &vec![]));
    let deck = new_deck_without(&Age::Third, 7, &vec![Card::SpiesGuild, Card::Palace]);
    assert_eq!(49 - 2, deck.len());
    assert!(!deck.contains(&Card::SpiesGuild));
    assert_eq!(1, deck.iter().filter(|card| **card == Card::Palace).count());
}

fn table_of_three() -> Vec<PublicPlayer> {
    [WonderType::ColossusOfRhodes, WonderType::LighthouseOfAlexandria, WonderType::TempleOfArtemis]
        .into_iter()
        .map(|wonder_type| PublicPlayer {
            wonder: WonderBoard { wonder_type, wonder_side: WonderSide::A },
            built_structures: vec![],
            coins: 3,
        })
        .collect()
}

#[test]
fn random_player_builds_what_it_can_and_discards_otherwise() {
    let public_players = table_of_three();
    let visible_game = VisibleGame { public_players: &public_players, player_index: 0, turn: 1 };
    let player = Player::new_from_public(&public_players[0], vec![Card::Aqueduct, Card::Barracks, Card::Palace]);
    for _ in 0..20 {
        assert!(matches!(get_next_action(&player, &visible_game), Action::Build(Card::Barracks, _)));
    }
    let poor = Player::new_from_public(&public_players[0], vec![Card::Aqueduct, Card::Palace]);
    let mut discarded = vec![];
    for _ in 0..100 {
        match get_next_action(&poor, &visible_game) {
            Action::Discard(card) => discarded.push(card),
            other => panic!("not a discard: {:?}", other),
        }
    }
    assert!(discarded.contains(&Card::Aqueduct));
    assert!(discarded.contains(&Card::Palace));
    assert!(matches!(Random {}.get_next_action(&poor, &visible_game), Action::Discard(_)));
}

#[test]
fn pick_takes_the_chosen_action_or_discards() {
    let actions = || vec![Action::Discard(Card::Baths), Action::Discard(Card::Altar)];
    let hand = vec![Card::Palace, Card::Arena];
    assert!(matches!(pick(actions(), &hand, Some(1), 0), Action::Discard(Card::Altar)));
    assert!(matches!(pick(actions(), &hand, Some(0), 1), Action::Discard(Card::Baths)));
    assert!(matches!(pick(vec![], &hand, None, 1), Action::Discard(Card::Arena)));
}

#[test]
fn monte_carlo_takes_one_of_its_candidates() {
    let public_players = table_of_three();
    let visible_game = VisibleGame { public_players: &public_players, player_index: 1, turn: 1 };
    let hand = vec![Card::Aqueduct, Card::LumberYard, Card::Altar, Card::Stockade, Card::Baths, Card::Theater];
    let player = Player::new_from_public(&public_players[1], hand.clone());
    let candidates = MonteCarlo::action_options(&player, &visible_game);
    // Three of the cards are free, and each card can be discarded.
    assert_eq!(9, candidates.len());
    assert!(matches!(candidates[0], Action::Discard(Card::Aqueduct)));
    assert!(matches!(candidates[1], Action::Build(Card::LumberYard, _)));
    assert!(matches!(candidates[2], Action::Discard(Card::LumberYard)));
    let action = MonteCarlo {}.get_next_action(&player, &visible_game);
    assert!(player.can_play(&action, &visible_game));
    let known = MonteCarlo::known_cards(&player, &visible_game);
    assert_eq!(hand, known);
    assert!(MonteCarlo::play_out(&player, &visible_game, &action, &known).is_some());
    // With a hand too small for the turn no game can be set up.
    let short = Player::new_from_public(&public_players[1], vec![Card::Altar]);
    assert_eq!(None, MonteCarlo::play_out(&short, &visible_game, &Action::Discard(Card::Altar), &vec![Card::Altar]));
}

#[test]
fn monte_carlo_plays_its_action_first_and_falls_back_on_random_ones() {
    let public_players = table_of_three();
    let visible_game = VisibleGame { public_players: &public_players, player_index: 1, turn: 1 };
    let player = Player::new_from_public(&public_players[1], vec![Card::Altar, Card::Aqueduct]);
    let mut planned = MonteCarloAlg::new(Action::Discard(Card::Aqueduct));
    assert!(matches!(planned.get_next_action(&player, &visible_game), Action::Discard(Card::Aqueduct)));
    // The plan is used up: from now on the card that can be built is built.
    assert!(matches!(planned.get_next_action(&player, &visible_game), Action::Build(Card::Altar, _)));
    let mut illegal = MonteCarloAlg::new(Action::Build(Card::Aqueduct, Borrowing::no_borrowing()));
    assert!(matches!(illegal.get_next_action(&player, &visible_game), Action::Build(Card::Altar, _)));
    let strength = vec![3, 7, 7, 1];
    let actions = vec![
        Action::Discard(Card::Altar),
        Action::Discard(Card::Baths),
        Action::Discard(Card::Tavern),
        Action::Discard(Card::Palace),
    ];
    assert!(matches!(MonteCarlo::best_action(actions, &strength), Action::Discard(Card::Tavern)));
}

#[test]
fn monte_carlo_plays_no_game_through_that_cannot_be_set_up() {
    let public_players = table_of_three();
    let visible_game = VisibleGame { public_players: &public_players, player_index: 1, turn: 1 };
    let hand = vec![Card::LumberYard, Card::Altar, Card::Stockade, Card::Baths, Card::Theater, Card::Barracks];
    let player = Player::new_from_public(&public_players[1], hand.clone());
    let action = Action::Discard(Card::Altar);
    assert!(MonteCarlo::play_out(&player, &visible_game, &action, &hand).is_some());
    // More copies of a card are known than a game of three has.
    let twice = vec![Card::LumberYard, Card::LumberYard];
    assert_eq!(None, MonteCarlo::play_out(&player, &visible_game, &action, &twice));
    // So many cards are known that the deck has too few left for two hands of six.
    let many: Vec<Card> = Card::all()
        .into_iter()
        .filter(|card| card.age() == Age::First && card.players_needed().contains(&3))
        .take(12)
        .collect();
    assert_eq!(12, many.len());
    assert_eq!(None, MonteCarlo::play_out(&player, &visible_game, &action, &many));
}
