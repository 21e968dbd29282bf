use seven_wonders::action::Borrow;
use seven_wonders::action::Borrowing;
use seven_wonders::card::Age;
use seven_wonders::card::Card;
use seven_wonders::card::Colour;
use seven_wonders::power::CountableGameItem;
use seven_wonders::power::GameItemFilter;
use seven_wonders::power::Power;
use seven_wonders::resources::Cost;
use seven_wonders::resources::Resource;
use seven_wonders::wonder::WonderBoard;
use seven_wonders::wonder::WonderSide;
use seven_wonders::wonder::WonderType;

const KINDS: [Resource; 8] = [
    Resource::Wood,
    Resource::Stone,
    Resource::Ore,
    Resource::Clay,
    Resource::Glass,
    Resource::Loom,
    Resource::Papyrus,
    Resource::Coins,
];

#[test]
fn cost_of_one_kind_holds_that_kind_only() {
    assert_eq!(Cost::free(), Cost::default());
    assert!(Cost::free().satisfied());
    let singles = [
        Cost::wood(2),
        Cost::stone(2),
        Cost::ore(2),
        Cost::clay(2),
        Cost::glass(2),
        Cost::loom(2),
        Cost::papyrus(2),
        Cost::coins(2),
    ];
    for (place, cost) in singles.iter().enumerate() {
        assert_eq!(*cost, Cost::single(KINDS[place], 2));
        assert!(!cost.satisfied());
        assert_eq!(2, cost.max_amount());
        for (other, kind) in KINDS.iter().enumerate() {
            assert_eq!(place == other, cost.has(kind));
            assert_eq!(if place == other { 2 } else { 0 }, cost.amount(kind));
        }
    }
}

#[test]
fn units_are_taken_off_one_kind_at_a_time() {
    for kind in KINDS {
        let mut cost = Cost::single(kind, 1);
        cost.sub_assign(&kind);
        assert_eq!(Cost::free(), cost);
        assert!(cost.satisfied());
        cost.sub_assign(&kind);
        assert_eq!(Cost::single(kind, -1), cost);
        assert!(cost.satisfied());
        assert!(!cost.has(&kind));
    }
}

#[test]
fn costs_are_added_and_taken_off_kind_by_kind() {
    let mut cost = Cost { wood: 2, ore: 1, coins: -3, ..Cost::free() };
    cost.add_cost(&Cost { wood: 1, glass: 4, coins: 5, ..Cost::free() });
    assert_eq!(Cost { wood: 3, ore: 1, glass: 4, coins: 2, ..Cost::free() }, cost);
    cost.sub_cost(&Cost { wood: 3, ore: 2, coins: 2, ..Cost::free() });
    assert_eq!(Cost { ore: -1, glass: 4, ..Cost::free() }, cost);
    assert_eq!(4, cost.max_amount());
    assert_eq!(-1, Cost { wood: -1, stone: -2, ore: -3, clay: -1, glass: -1, loom: -1, papyrus: -1, coins: -5 }.max_amount());
}

#[test]
fn borrowings_are_compared_with_and_without_their_order() {
    let wood = Borrow::new(Card::LumberYard, Resource::Wood);
    let clay = Borrow::new(Card::ClayPool, Resource::Clay);
    let one = Borrowing::new(vec![wood, clay, wood], vec![clay]);
    assert!(one.same_as(&one.duplicate()));
    assert!(one.has_borrowing());
    assert!(!Borrowing::no_borrowing().has_borrowing());
    let other = Borrowing::new(vec![wood, wood, clay], vec![clay]);
    assert!(!one.same_as(&other));
    assert!(one.same_borrows(&other));
    assert!(!one.same_borrows(&Borrowing::new(vec![wood, clay, clay], vec![clay])));
    assert!(!one.same_borrows(&Borrowing::new(vec![wood, clay], vec![clay])));
    assert!(!one.same_borrows(&Borrowing::new(vec![clay], vec![wood, clay, wood])));
}

#[test]
fn catalogue_lists_every_card_once() {
    let all = Card::all();
    assert_eq!(78, all.len());
    for (place, card) in all.iter().enumerate() {
        assert_eq!(*card, Card::nth(place));
        assert_eq!(1, all.iter().filter(|other| *other == card).count());
        let info = card.info();
        assert_eq!(info.name, card.name());
        assert_eq!(info.age, card.age());
        assert_eq!(info.cost, card.cost());
        assert_eq!(info.colour, card.colour());
        assert_eq!(info.players_needed, card.players_needed());
        assert_eq!(info.chains_to, card.chains_to());
        assert!(!info.players_needed.is_empty());
        assert!(info.players_needed.iter().all(|players| (3..=7).contains(players)));
    }
    assert_eq!(Card::LumberYard, all[0]);
    assert_eq!(Card::BuildersGuild, all[77]);
    assert_eq!(Age::Second, Card::Sawmill.age());
    assert_eq!(vec![3, 5, 6], Card::Caravansery.players_needed());
    assert_eq!(vec![Card::Stables, Card::Dispensary], Card::Apothecary.chains_to());
    assert_eq!(Colour::Yellow, Card::Caravansery.colour());
    assert_eq!(Cost { wood: 1, clay: 1, glass: 1, ..Cost::free() }, Card::Temple.cost());
}

#[test]
fn rewards_count_what_their_filter_says() {
    let brown = GameItemFilter::CardOfColour(Colour::Brown);
    assert!(brown.counts(CountableGameItem::CountableCard(Card::LumberYard)));
    assert!(!brown.counts(CountableGameItem::CountableCard(Card::Loom1)));
    assert!(!brown.counts(CountableGameItem::DefeatToken));
    assert!(GameItemFilter::DefeatToken.counts(CountableGameItem::DefeatToken));
    assert!(!GameItemFilter::DefeatToken.counts(CountableGameItem::CompletedWonderStage));
    assert!(GameItemFilter::CompletedWonderStage.counts(CountableGameItem::CompletedWonderStage));
    match Power::per_card_reward(Colour::Yellow, true, false, 1, 1) {
        Power::PerGameItemRewards(rewards) => {
            assert_eq!(1, rewards.len());
            assert_eq!(GameItemFilter::CardOfColour(Colour::Yellow), rewards[0].game_item);
            assert!(rewards[0].me);
            assert!(!rewards[0].neighbours);
            assert_eq!((1, 1), (rewards[0].coins_per_thing, rewards[0].points_per_thing));
        }
        other => panic!("not a reward: {:?}", other),
    }
}

#[test]
fn wonders_have_names_resources_and_stages() {
    let all = WonderType::all();
    assert_eq!(7, all.len());
    assert_eq!("The Pyramids of Giza", WonderType::PyramidsOfGiza.name());
    assert_eq!(Resource::Stone, WonderType::PyramidsOfGiza.starting_resource());
    let colossus = WonderBoard { wonder_type: WonderType::ColossusOfRhodes, wonder_side: WonderSide::A };
    assert_eq!("The Colossus of Rhodes", colossus.name());
    assert_eq!(Resource::Ore, colossus.starting_resource());
    assert_eq!(Cost::wood(2), colossus.cost(0));
    assert_eq!(Cost::clay(3), colossus.cost(1));
    assert_eq!(Cost::ore(4), colossus.cost(2));
    let lighthouse = WonderBoard { wonder_type: WonderType::LighthouseOfAlexandria, wonder_side: WonderSide::B };
    assert_eq!(Resource::Glass, lighthouse.starting_resource());
    assert_eq!(Cost::stone(3), lighthouse.cost(2));
}

#[test]
fn cost_is_split_into_two_that_add_up_to_it() {
    assert_eq!((Cost::wood(1), Cost::wood(1)), Cost::wood(2).split());
    let cost = Cost { wood: 3, stone: 1, ore: 0, clay: -3, glass: 4, loom: -1, papyrus: 7, coins: -2 };
    let (first, second) = cost.split();
    assert_eq!(Cost { wood: 1, stone: 0, ore: 0, clay: -1, glass: 2, loom: 0, papyrus: 3, coins: -1 }, second);
    assert_eq!(Cost { wood: 2, stone: 1, ore: 0, clay: -2, glass: 2, loom: -1, papyrus: 4, coins: -1 }, first);
    let mut sum = first;
    sum.add_cost(&second);
    assert_eq!(cost, sum);
}
