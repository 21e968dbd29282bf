use seven_wonders::action::Action;
use seven_wonders::action::Borrowing;
use seven_wonders::algorithms::human::Human;
use seven_wonders::algorithms::human::Question;
use seven_wonders::algorithms::human::Step;
use seven_wonders::card::Card;
use seven_wonders::game::VisibleGame;
use seven_wonders::player::Player;
use seven_wonders::player::PublicPlayer;
use seven_wonders::power::Power;
use seven_wonders::power::ProducedResources;
use seven_wonders::power::ScienceItem;
use seven_wonders::resources::Cost;
use seven_wonders::resources::Resource;
use seven_wonders::table::Table;
use seven_wonders::utils::plural;
use seven_wonders::wonder::WonderBoard;
use seven_wonders::wonder::WonderSide;
use seven_wonders::wonder::WonderType;

#[test]
fn plural_adds_an_s_unless_there_is_one() {
    assert_eq!(plural(0, "coin"), "0 coins");
    assert_eq!(plural(1, "coin"), "1 coin");
    assert_eq!(plural(2, "coin"), "2 coins");
    assert_eq!(plural(-1, "point"), "-1 points");
    assert_eq!(plural(120, "point"), "120 points");
}

#[test]
fn cost_is_written_kind_by_kind() {
    assert_eq!(Cost::free().to_string(), "free");
    assert_eq!(
        Cost { wood: 2, glass: 1, papyrus: 1, ..Cost::free() }.to_string(),
        "2 wood, 1 glass, 1 papyrus"
    );
    assert_eq!(Cost::coins(1).to_string(), "1 coin");
    assert_eq!(Cost { coins: 2, ore: 1, ..Cost::free() }.to_string(), "2 coins, 1 ore");
    assert_eq!(Cost { coins: -2, stone: 3, wood: -1, ..Cost::free() }.to_string(), "3 stone");
    assert_eq!(Card::Palace.cost().to_string(), "1 wood, 1 stone, 1 ore, 1 clay, 1 glass, 1 loom, 1 papyrus");
}

#[test]
fn power_is_written_as_the_card_says() {
    assert_eq!(Card::LumberYard.power().to_string(), "1 wood");
    assert_eq!(Card::Sawmill.power().to_string(), "2 wood");
    assert_eq!(Card::TreeFarm.power().to_string(), "1 wood or 1 clay");
    assert_eq!(Card::Caravansery.power().to_string(), "1 wood or 1 stone or 1 ore or 1 clay");
    assert_eq!(Card::Altar.power().to_string(), "2 VPs");
    assert_eq!(Power::VictoryPoints(1).to_string(), "1 VP");
    assert_eq!(Card::Tavern.power().to_string(), "5 coins");
    assert_eq!(Card::Stockade.power().to_string(), "1 shield");
    assert_eq!(Card::Walls.power().to_string(), "2 shields");
    assert_eq!(Card::EastTradingPost.power().to_string(), "Buy brown cards for 1 coin anti-clockwise");
    assert_eq!(Card::WestTradingPost.power().to_string(), "Buy brown cards for 1 coin clockwise");
    assert_eq!(Card::Marketplace.power().to_string(), "Buy grey cards for 1 coin");
    assert_eq!(Card::Lodge.power().to_string(), "Compass symbol");
    assert_eq!(
        Card::ScientistsGuild.power().to_string(),
        "Compass symbol or Cog symbol or Tablet symbol"
    );
    assert_eq!(Card::Haven.power().to_string(), "1 coin and 1 VP per brown card of you");
    assert_eq!(Card::Vineyard.power().to_string(), "1 coin per brown card of you and your neighbours");
    assert_eq!(Card::SpiesGuild.power().to_string(), "2 VPs per red card of your neighbours");
    assert_eq!(Card::Arena.power().to_string(), "3 coins and 1 VP per completed wonder stage of you");
    assert_eq!(Card::StrategistsGuild.power().to_string(), "1 VP per defeat token of your neighbours");
    assert_eq!(
        Card::ShipownersGuild.power().to_string(),
        "1 VP per brown card of you and 1 VP per grey card of you and 1 VP per purple card of you"
    );
    assert_eq!(ProducedResources::Choice(vec![]).to_string(), "");
    assert_eq!(ScienceItem::Cog.to_string(), "Cog");
    assert_eq!(Resource::Papyrus.to_string(), "papyrus");
}

#[test]
fn action_is_written_without_what_is_secret() {
    assert_eq!(Action::Build(Card::Baths, Borrowing::no_borrowing()).to_string(), "Build Baths");
    assert_eq!(Action::Wonder(Card::Baths, Borrowing::no_borrowing()).to_string(), "Build a wonder stage");
    assert_eq!(Action::Discard(Card::Baths).to_string(), "Discard");
    assert_eq!(Card::MagistratesGuild.to_string(), "Migistrates Guild");
    assert_eq!(Card::Loom2.to_string(), "Loom");
}

#[test]
fn table_lines_up_its_columns() {
    let mut table = Table::new(vec![String::from("Card"), String::from("Power")]);
    table.add(vec![String::from("Lumber Yard"), String::from("1 wood")]);
    table.add(vec![String::from("Baths"), String::from("3 VPs")]);
    assert_eq!(vec![13, 8], table.column_widths(2));
    assert_eq!(
        table.print("> ", 2),
        "> Card         Power   \n\
         > ====         =====   \n\
         > Lumber Yard  1 wood  \n\
         > Baths        3 VPs   \n"
    );
    assert_eq!(table.print("", 0), "Card       Power \n====       ===== \nLumber Yard1 wood\nBaths      3 VPs \n");
}

fn seat(wonder_type: WonderType, built_structures: Vec<Card>, coins: i32) -> PublicPlayer {
    PublicPlayer { wonder: WonderBoard { wonder_type, wonder_side: WonderSide::A }, built_structures, coins }
}

#[test]
fn state_shows_every_player_and_the_hand() {
    let public_players = vec![
        seat(WonderType::ColossusOfRhodes, vec![], 3),
        seat(WonderType::LighthouseOfAlexandria, vec![Card::LumberYard], 4),
        seat(WonderType::TempleOfArtemis, vec![], 2),
    ];
    let visible_game = VisibleGame { public_players: &public_players, player_index: 0, turn: 1 };
    let player = Player::new_from_public(
        &public_players[0],
        vec![Card::Barracks, Card::Stockade, Card::Aqueduct],
    );
    assert_eq!(
        Human::print_state_for_user(&player, &visible_game),
        "Player 3\n\
         \x20 Wonder: The Temple of Artemis in Aphesus (side A). Starting resource: papyrus\n\
         \x20 Coins: 2\n\
         \n\
         Player 1 (you)\n\
         \x20 Wonder: The Colossus of Rhodes (side A). Starting resource: ore\n\
         \x20 Coins: 3\n\
         \n\
         Player 2\n\
         \x20 Wonder: The Lighthouse of Alexandria (side A). Starting resource: glass\n\
         \x20 Coins: 4\n\
         \x20 Card           Power     \n\
         \x20 ====           =====     \n\
         \x20 Lumber Yard    1 wood    \n\
         \n\
         Your hand:\n\
         \x20 Num    Card        Cost       Power       \n\
         \x20 ===    ====        ====       =====       \n\
         \x20 * 1    Barracks    1 ore      1 shield    \n\
         \x20 # 2    Stockade    1 wood     1 shield    \n\
         \x20   3    Aqueduct    3 stone    5 VPs       \n"
    );
}

#[test]
fn answers_lead_the_human_to_an_action() {
    let public_players = vec![
        seat(WonderType::ColossusOfRhodes, vec![], 3),
        seat(WonderType::LighthouseOfAlexandria, vec![Card::LumberYard], 4),
        seat(WonderType::TempleOfArtemis, vec![Card::TreeFarm], 2),
    ];
    let visible_game = VisibleGame { public_players: &public_players, player_index: 0, turn: 1 };
    let player = Player::new_from_public(
        &public_players[0],
        vec![Card::Barracks, Card::Stockade, Card::Aqueduct],
    );
    assert_eq!(Human::first_prompt(), "Please enter the id of the card to play: ");
    assert_eq!(Some(1), Human::choose_from_slice(" 2 \n", 3));
    assert_eq!(Some(2), Human::choose_from_slice("+3", 3));
    assert_eq!(None, Human::choose_from_slice("0", 3));
    assert_eq!(None, Human::choose_from_slice("4", 3));
    assert_eq!(None, Human::choose_from_slice("two", 3));
    assert_eq!(None, Human::choose_from_slice("", 3));

    // No card has the number 7.
    let step = Human::ask_for_action(Question::Card, "7\n", &player, &visible_game);
    assert!(matches!(
        step,
        Step::Ask(Question::Card, text) if text == "Please enter a number between 1 and 3 inclusive: "
    ));
    // The second card is the Stockade.
    let step = Human::ask_for_action(Question::Card, "2\n", &player, &visible_game);
    assert!(matches!(
        step,
        Step::Ask(Question::BuildOrDiscard(Card::Stockade), text)
            if text == "And now choose (b) to build or (d) to discard: "
    ));
    let step = Human::ask_for_action(Question::BuildOrDiscard(Card::Stockade), "x\n", &player, &visible_game);
    assert!(matches!(
        step,
        Step::Ask(Question::BuildOrDiscard(Card::Stockade), text) if text == "Please enter either b or d: "
    ));
    let step = Human::ask_for_action(Question::BuildOrDiscard(Card::Stockade), " D \n", &player, &visible_game);
    assert!(matches!(step, Step::Play(Action::Discard(Card::Stockade))));
    // The wood for the Stockade can come from either neighbour.
    let step = Human::ask_for_action(Question::BuildOrDiscard(Card::Stockade), "B\n", &player, &visible_game);
    let options = match step {
        Step::Ask(Question::Borrowing(Card::Stockade, options), text) => {
            assert_eq!(
                text,
                "\nOptions for borrowing required resources:\n\
                 \x20  1) Borrow Lumber Yard from player 2\n\
                 \x20  2) Borrow Tree Farm from player 3\n\
                 Please enter the id of the borrow you want to make: "
            );
            options
        }
        other => panic!("no question for the borrowing: {:?}", other),
    };
    let step =
        Human::ask_for_action(Question::Borrowing(Card::Stockade, options), "2\n", &player, &visible_game);
    match step {
        Step::Play(Action::Build(Card::Stockade, borrowing)) => {
            assert!(borrowing.left.is_empty());
            assert_eq!(1, borrowing.right.len());
            assert_eq!(Card::TreeFarm, borrowing.right[0].card);
        }
        other => panic!("no action: {:?}", other),
    }
    // The Barracks is paid with the ore of the Colossus.
    let step = Human::ask_for_action(Question::BuildOrDiscard(Card::Barracks), "b", &player, &visible_game);
    assert!(matches!(step, Step::Play(Action::Build(Card::Barracks, _))));
    // The Aqueduct cannot be paid at all.
    let step = Human::ask_for_action(Question::BuildOrDiscard(Card::Aqueduct), "b", &player, &visible_game);
    assert!(matches!(
        step,
        Step::Ask(Question::Card, text)
            if text == "You can't play that card. Please try again\n\nPlease enter the id of the card to play: "
    ));
}
