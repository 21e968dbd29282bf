//! The cards of the game: what each one costs, which age and colour it has, in which games it takes
//! part, and what it does for the player who builds it.

use vstd::prelude::*;

use crate::power::Ability;
use crate::power::GameItemFilter;
use crate::power::PerGameItemReward;
use crate::power::Power;
use crate::power::ProducedResources;
use crate::power::Production;
use crate::power::ScienceItem;
use crate::resources::Cost;
use crate::resources::Resource;

pub use crate::deck::new_deck;
pub use crate::deck::new_deck_without;

verus! {

/// The number of different cards.
pub const CATALOGUE_SIZE: usize = 78;

/// A card. Cards that exist in two ages under one name carry the age in their name here.
#[derive(Debug, Clone, Copy, Eq, PartialEq, Hash, Structural)]
pub enum Card {
    // Age 1

    // Brown
    LumberYard,
    StonePit,
    ClayPool,
    OreVein,
    TreeFarm,
    Excavation,
    ClayPit,
    TimberYard,
    ForestCave,
    Mine,

    // Grey
    Loom1,
    Glassworks1,
    Press1,

    // Blue
    Pawnshop,
    Baths,
    Altar,
    Theater,

    // Yellow
    Tavern,
    EastTradingPost,
    WestTradingPost,
    Marketplace,

    // Green
    Apothecary,
    Workshop,
    Scriptorium,

    // Red
    Stockade,
    Barracks,
    GuardTower,

    // Age 2

    // Brown
    Sawmill,
    Quarry,
    Brickyard,
    Foundry,

    // Grey
    Loom2,
    Glassworks2,
    Press2,

    // Blue
    Aqueduct,
    Temple,
    Statue,
    Courthouse,

    // Yellow
    Forum,
    Caravansery,
    Vineyard,
    Bazar,

    // Green
    Dispensary,
    Laboratory,
    Library,
    School,

    // Red
    Walls,
    TrainingGround,
    Stables,
    ArcheryRange,

    // Age 3

    // Blue
    Pantheon,
    Gardens,
    TownHall,
    Palace,
    Senate,

    // Yellow
    Haven,
    Lighthouse,
    ChamberOfCommerce,
    Arena,

    // Green
    Lodge,
    Observatory,
    University,
    Academy,
    Study,

    // Red
    Fortifications,
    Circus,
    Arsenal,
    SiegeWorkshop,

    // Purple
    WorkersGuild,
    CraftsmensGuild,
    TradersGuild,
    PhilosophersGuild,
    SpiesGuild,
    StrategistsGuild,
    ShipownersGuild,
    ScientistsGuild,
    MagistratesGuild,
    BuildersGuild,
}

/// One of the three phases of a game, each played with its own deck.
#[derive(Debug, Clone, Copy, PartialEq, Eq, Structural)]
pub enum Age {
    First,
    Second,
    Third,
}

/// The colour of a card, which says what kind of structure it is.
#[derive(Debug, Clone, Copy, PartialEq, Eq, Hash, Structural)]
pub enum Colour {
    Brown,
    Grey,
    Blue,
    Yellow,
    Red,
    Green,
    Purple,
}

impl Colour {
    /// The name of the colour.
    pub open spec fn spec_name(&self) -> Seq<char> {
        match self {
            Colour::Brown => "brown"@,
            Colour::Grey => "grey"@,
            Colour::Blue => "blue"@,
            Colour::Yellow => "yellow"@,
            Colour::Red => "red"@,
            Colour::Green => "green"@,
            Colour::Purple => "purple"@,
        }
    }

    /// The name of the colour.
    pub fn name(&self) -> (name: &'static str)
        ensures
            name@ == self.spec_name(),
    {
        match self {
            Colour::Brown => "brown",
            Colour::Grey => "grey",
            Colour::Blue => "blue",
            Colour::Yellow => "yellow",
            Colour::Red => "red",
            Colour::Green => "green",
            Colour::Purple => "purple",
        }
    }
}

/// Everything that is printed on a card.
#[derive(Debug, Clone)]
pub struct CardInfo {
    pub name: &'static str,
    pub age: Age,
    /// One entry for each copy of the card: the number of players from which that copy is in the deck.
    pub players_needed: Vec<u32>,
    pub cost: Cost,
    /// The cards that can be built for free once this one is built.
    pub chains_to: Vec<Card>,
    pub colour: Colour,
    pub power: Power,
}

impl Card {
    /// The name printed on the card.
    pub open spec fn spec_name(&self) -> Seq<char> {
        match self {
            Card::LumberYard => "Lumber Yard"@,
            Card::StonePit => "Stone Pit"@,
            Card::ClayPool => "Clay Pool"@,
            Card::OreVein => "Ore Vein"@,
            Card::TreeFarm => "Tree Farm"@,
            Card::Excavation => "Excavation"@,
            Card::ClayPit => "Clay Pit"@,
            Card::TimberYard => "Timber Yard"@,
            Card::ForestCave => "Forest Cave"@,
            Card::Mine => "Mine"@,
            Card::Loom1 => "Loom"@,
            Card::Glassworks1 => "Glassworks"@,
            Card::Press1 => "Press"@,
            Card::Pawnshop => "Pawnshop"@,
            Card::Baths => "Baths"@,
            Card::Altar => "Altar"@,
            Card::Theater => "Theater"@,
            Card::Tavern => "Tavern"@,
            Card::EastTradingPost => "East Trading Post"@,
            Card::WestTradingPost => "West Trading Post"@,
            Card::Marketplace => "Marketplace"@,
            Card::Apothecary => "Apothecary"@,
            Card::Workshop => "Workshop"@,
            Card::Scriptorium => "Scriptorium"@,
            Card::Stockade => "Stockade"@,
            Card::Barracks => "Barracks"@,
            Card::GuardTower => "Guard Tower"@,
            Card::Sawmill => "Sawmill"@,
            Card::Quarry => "Quarry"@,
            Card::Brickyard => "Brickyard"@,
            Card::Foundry => "Foundry"@,
            Card::Loom2 => "Loom"@,
            Card::Glassworks2 => "Glassworks"@,
            Card::Press2 => "Press"@,
            Card::Aqueduct => "Aqueduct"@,
            Card::Temple => "Temple"@,
            Card::Statue => "Statue"@,
            Card::Courthouse => "Courthouse"@,
            Card::Forum => "Forum"@,
            Card::Caravansery => "Caravansery"@,
            Card::Vineyard => "Vineyard"@,
            Card::Bazar => "Bazar"@,
            Card::Dispensary => "Dispensary"@,
            Card::Laboratory => "Laboratory"@,
            Card::Library => "Library"@,
            Card::School => "School"@,
            Card::Walls => "Walls"@,
            Card::TrainingGround => "Training Ground"@,
            Card::Stables => "Stables"@,
            Card::ArcheryRange => "Archery Range"@,
            Card::Pantheon => "Pantheon"@,
            Card::Gardens => "Gardens"@,
            Card::TownHall => "Town Hall"@,
            Card::Palace => "Palace"@,
            Card::Senate => "Senate"@,
            Card::Haven => "Haven"@,
            Card::Lighthouse => "Lighthouse"@,
            Card::ChamberOfCommerce => "Chamber Of Commerce"@,
            Card::Arena => "Arena"@,
            Card::Lodge => "Lodge"@,
            Card::Observatory => "Observatory"@,
            Card::University => "University"@,
            Card::Academy => "Academy"@,
            Card::Study => "Study"@,
            Card::Fortifications => "Fortifications"@,
            Card::Circus => "Circus"@,
            Card::Arsenal => "Arsenal"@,
            Card::SiegeWorkshop => "Siege Workshop"@,
            Card::WorkersGuild => "Workers Guild"@,
            Card::CraftsmensGuild => "Craftsmens Guild"@,
            Card::TradersGuild => "Traders Guild"@,
            Card::PhilosophersGuild => "Philosophers Guild"@,
            Card::SpiesGuild => "Spies Guild"@,
            Card::StrategistsGuild => "Strategists Guild"@,
            Card::ShipownersGuild => "Shipowners Guild"@,
            Card::ScientistsGuild => "Scientists Guild"@,
            Card::MagistratesGuild => "Migistrates Guild"@,
            Card::BuildersGuild => "Builders Guild"@,
        }
    }

    /// The name printed on the card.
    pub fn name(&self) -> (name: &'static str)
        ensures
            name@ == self.spec_name(),
    {
        match self {
            Card::LumberYard => "Lumber Yard",
            Card::StonePit => "Stone Pit",
            Card::ClayPool => "Clay Pool",
            Card::OreVein => "Ore Vein",
            Card::TreeFarm => "Tree Farm",
            Card::Excavation => "Excavation",
            Card::ClayPit => "Clay Pit",
            Card::TimberYard => "Timber Yard",
            Card::ForestCave => "Forest Cave",
            Card::Mine => "Mine",
            Card::Loom1 => "Loom",
            Card::Glassworks1 => "Glassworks",
            Card::Press1 => "Press",
            Card::Pawnshop => "Pawnshop",
            Card::Baths => "Baths",
            Card::Altar => "Altar",
            Card::Theater => "Theater",
            Card::Tavern => "Tavern",
            Card::EastTradingPost => "East Trading Post",
            Card::WestTradingPost => "West Trading Post",
            Card::Marketplace => "Marketplace",
            Card::Apothecary => "Apothecary",
            Card::Workshop => "Workshop",
            Card::Scriptorium => "Scriptorium",
            Card::Stockade => "Stockade",
            Card::Barracks => "Barracks",
            Card::GuardTower => "Guard Tower",
            Card::Sawmill => "Sawmill",
            Card::Quarry => "Quarry",
            Card::Brickyard => "Brickyard",
            Card::Foundry => "Foundry",
            Card::Loom2 => "Loom",
            Card::Glassworks2 => "Glassworks",
            Card::Press2 => "Press",
            Card::Aqueduct => "Aqueduct",
            Card::Temple => "Temple",
            Card::Statue => "Statue",
            Card::Courthouse => "Courthouse",
            Card::Forum => "Forum",
            Card::Caravansery => "Caravansery",
            Card::Vineyard => "Vineyard",
            Card::Bazar => "Bazar",
            Card::Dispensary => "Dispensary",
            Card::Laboratory => "Laboratory",
            Card::Library => "Library",
            Card::School => "School",
            Card::Walls => "Walls",
            Card::TrainingGround => "Training Ground",
            Card::Stables => "Stables",
            Card::ArcheryRange => "Archery Range",
            Card::Pantheon => "Pantheon",
            Card::Gardens => "Gardens",
            Card::TownHall => "Town Hall",
            Card::Palace => "Palace",
            Card::Senate => "Senate",
            Card::Haven => "Haven",
            Card::Lighthouse => "Lighthouse",
            Card::ChamberOfCommerce => "Chamber Of Commerce",
            Card::Arena => "Arena",
            Card::Lodge => "Lodge",
            Card::Observatory => "Observatory",
            Card::University => "University",
            Card::Academy => "Academy",
            Card::Study => "Study",
            Card::Fortifications => "Fortifications",
            Card::Circus => "Circus",
            Card::Arsenal => "Arsenal",
            Card::SiegeWorkshop => "Siege Workshop",
            Card::WorkersGuild => "Workers Guild",
            Card::CraftsmensGuild => "Craftsmens Guild",
            Card::TradersGuild => "Traders Guild",
            Card::PhilosophersGuild => "Philosophers Guild",
            Card::SpiesGuild => "Spies Guild",
            Card::StrategistsGuild => "Strategists Guild",
            Card::ShipownersGuild => "Shipowners Guild",
            Card::ScientistsGuild => "Scientists Guild",
            Card::MagistratesGuild => "Migistrates Guild",
            Card::BuildersGuild => "Builders Guild",
        }
    }

    /// The age in whose deck the card is.
    pub open spec fn spec_age(&self) -> Age {
        match self {
            Card::LumberYard => Age::First,
            Card::StonePit => Age::First,
            Card::ClayPool => Age::First,
            Card::OreVein => Age::First,
            Card::TreeFarm => Age::First,
            Card::Excavation => Age::First,
            Card::ClayPit => Age::First,
            Card::TimberYard => Age::First,
            Card::ForestCave => Age::First,
            Card::Mine => Age::First,
            Card::Loom1 => Age::First,
            Card::Glassworks1 => Age::First,
            Card::Press1 => Age::First,
            Card::Pawnshop => Age::First,
            Card::Baths => Age::First,
            Card::Altar => Age::First,
            Card::Theater => Age::First,
            Card::Tavern => Age::First,
            Card::EastTradingPost => Age::First,
            Card::WestTradingPost => Age::First,
            Card::Marketplace => Age::First,
            Card::Apothecary => Age::First,
            Card::Workshop => Age::First,
            Card::Scriptorium => Age::First,
            Card::Stockade => Age::First,
            Card::Barracks => Age::First,
            Card::GuardTower => Age::First,
            Card::Sawmill => Age::Second,
            Card::Quarry => Age::Second,
            Card::Brickyard => Age::Second,
            Card::Foundry => Age::Second,
            Card::Loom2 => Age::Second,
            Card::Glassworks2 => Age::Second,
            Card::Press2 => Age::Second,
            Card::Aqueduct => Age::Second,
            Card::Temple => Age::Second,
            Card::Statue => Age::Second,
            Card::Courthouse => Age::Second,
            Card::Forum => Age::Second,
            Card::Caravansery => Age::Second,
            Card::Vineyard => Age::Second,
            Card::Bazar => Age::Second,
            Card::Dispensary => Age::Second,
            Card::Laboratory => Age::Second,
            Card::Library => Age::Second,
            Card::School => Age::Second,
            Card::Walls => Age::Second,
            Card::TrainingGround => Age::Second,
            Card::Stables => Age::Second,
            Card::ArcheryRange => Age::Second,
            Card::Pantheon => Age::Third,
            Card::Gardens => Age::Third,
            Card::TownHall => Age::Third,
            Card::Palace => Age::Third,
            Card::Senate => Age::Third,
            Card::Haven => Age::Third,
            Card::Lighthouse => Age::Third,
            Card::ChamberOfCommerce => Age::Third,
            Card::Arena => Age::Third,
            Card::Lodge => Age::Third,
            Card::Observatory => Age::Third,
            Card::University => Age::Third,
            Card::Academy => Age::Third,
            Card::Study => Age::Third,
            Card::Fortifications => Age::Third,
            Card::Circus => Age::Third,
            Card::Arsenal => Age::Third,
            Card::SiegeWorkshop => Age::Third,
            Card::WorkersGuild => Age::Third,
            Card::CraftsmensGuild => Age::Third,
            Card::TradersGuild => Age::Third,
            Card::PhilosophersGuild => Age::Third,
            Card::SpiesGuild => Age::Third,
            Card::StrategistsGuild => Age::Third,
            Card::ShipownersGuild => Age::Third,
            Card::ScientistsGuild => Age::Third,
            Card::MagistratesGuild => Age::Third,
            Card::BuildersGuild => Age::Third,
        }
    }

    /// The age in whose deck the card is.
    #[verifier::when_used_as_spec(spec_age)]
    pub fn age(&self) -> (age: Age)
        ensures
            age == self.spec_age(),
    {
        match self {
            Card::LumberYard => Age::First,
            Card::StonePit => Age::First,
            Card::ClayPool => Age::First,
            Card::OreVein => Age::First,
            Card::TreeFarm => Age::First,
            Card::Excavation => Age::First,
            Card::ClayPit => Age::First,
            Card::TimberYard => Age::First,
            Card::ForestCave => Age::First,
            Card::Mine => Age::First,
            Card::Loom1 => Age::First,
            Card::Glassworks1 => Age::First,
            Card::Press1 => Age::First,
            Card::Pawnshop => Age::First,
            Card::Baths => Age::First,
            Card::Altar => Age::First,
            Card::Theater => Age::First,
            Card::Tavern => Age::First,
            Card::EastTradingPost => Age::First,
            Card::WestTradingPost => Age::First,
            Card::Marketplace => Age::First,
            Card::Apothecary => Age::First,
            Card::Workshop => Age::First,
            Card::Scriptorium => Age::First,
            Card::Stockade => Age::First,
            Card::Barracks => Age::First,
            Card::GuardTower => Age::First,
            Card::Sawmill => Age::Second,
            Card::Quarry => Age::Second,
            Card::Brickyard => Age::Second,
            Card::Foundry => Age::Second,
            Card::Loom2 => Age::Second,
            Card::Glassworks2 => Age::Second,
            Card::Press2 => Age::Second,
            Card::Aqueduct => Age::Second,
            Card::Temple => Age::Second,
            Card::Statue => Age::Second,
            Card::Courthouse => Age::Second,
            Card::Forum => Age::Second,
            Card::Caravansery => Age::Second,
            Card::Vineyard => Age::Second,
            Card::Bazar => Age::Second,
            Card::Dispensary => Age::Second,
            Card::Laboratory => Age::Second,
            Card::Library => Age::Second,
            Card::School => Age::Second,
            Card::Walls => Age::Second,
            Card::TrainingGround => Age::Second,
            Card::Stables => Age::Second,
            Card::ArcheryRange => Age::Second,
            Card::Pantheon => Age::Third,
            Card::Gardens => Age::Third,
            Card::TownHall => Age::Third,
            Card::Palace => Age::Third,
            Card::Senate => Age::Third,
            Card::Haven => Age::Third,
            Card::Lighthouse => Age::Third,
            Card::ChamberOfCommerce => Age::Third,
            Card::Arena => Age::Third,
            Card::Lodge => Age::Third,
            Card::Observatory => Age::Third,
            Card::University => Age::Third,
            Card::Academy => Age::Third,
            Card::Study => Age::Third,
            Card::Fortifications => Age::Third,
            Card::Circus => Age::Third,
            Card::Arsenal => Age::Third,
            Card::SiegeWorkshop => Age::Third,
            Card::WorkersGuild => Age::Third,
            Card::CraftsmensGuild => Age::Third,
            Card::TradersGuild => Age::Third,
            Card::PhilosophersGuild => Age::Third,
            Card::SpiesGuild => Age::Third,
            Card::StrategistsGuild => Age::Third,
            Card::ShipownersGuild => Age::Third,
            Card::ScientistsGuild => Age::Third,
            Card::MagistratesGuild => Age::Third,
            Card::BuildersGuild => Age::Third,
        }
    }

    /// One entry for each copy of the card: the number of players from which that copy is in the deck.
    pub open spec fn spec_players_needed(&self) -> Seq<u32> {
        match self {
            Card::LumberYard => seq![3, 4],
            Card::StonePit => seq![3, 5],
            Card::ClayPool => seq![3, 5],
            Card::OreVein => seq![3, 4],
            Card::TreeFarm => seq![6],
            Card::Excavation => seq![4],
            Card::ClayPit => seq![3],
            Card::TimberYard => seq![3],
            Card::ForestCave => seq![5],
            Card::Mine => seq![6],
            Card::Loom1 => seq![3, 6],
            Card::Glassworks1 => seq![3, 6],
            Card::Press1 => seq![3, 6],
            Card::Pawnshop => seq![4, 7],
            Card::Baths => seq![3, 7],
            Card::Altar => seq![3, 5],
            Card::Theater => seq![3, 6],
            Card::Tavern => seq![4, 5, 7],
            Card::EastTradingPost => seq![3, 7],
            Card::WestTradingPost => seq![3, 7],
            Card::Marketplace => seq![3, 6],
            Card::Apothecary => seq![3, 5],
            Card::Workshop => seq![3, 7],
            Card::Scriptorium => seq![3, 4],
            Card::Stockade => seq![3, 7],
            Card::Barracks => seq![3, 5],
            Card::GuardTower => seq![3, 4],
            Card::Sawmill => seq![3, 4],
            Card::Quarry => seq![3, 4],
            Card::Brickyard => seq![3, 4],
            Card::Foundry => seq![3, 4],
            Card::Loom2 => seq![3, 5],
            Card::Glassworks2 => seq![3, 5],
            Card::Press2 => seq![3, 5],
            Card::Aqueduct => seq![3, 7],
            Card::Temple => seq![3, 6],
            Card::Statue => seq![3, 7],
            Card::Courthouse => seq![3, 5],
            Card::Forum => seq![3, 6, 7],
            Card::Caravansery => seq![3, 5, 6],
            Card::Vineyard => seq![3, 6],
            Card::Bazar => seq![4, 7],
            Card::Dispensary => seq![3, 4],
            Card::Laboratory => seq![3, 5],
            Card::Library => seq![3, 6],
            Card::School => seq![3, 7],
            Card::Walls => seq![3, 7],
            Card::TrainingGround => seq![4, 6, 7],
            Card::Stables => seq![3, 5],
            Card::ArcheryRange => seq![3, 6],
            Card::Pantheon => seq![3, 6],
            Card::Gardens => seq![3, 4],
            Card::TownHall => seq![3, 5, 6],
            Card::Palace => seq![3, 7],
            Card::Senate => seq![3, 5],
            Card::Haven => seq![3, 4],
            Card::Lighthouse => seq![3, 6],
            Card::ChamberOfCommerce => seq![4, 6],
            Card::Arena => seq![3, 5, 7],
            Card::Lodge => seq![3, 6],
            Card::Observatory => seq![3, 7],
            Card::University => seq![3, 4],
            Card::Academy => seq![3, 7],
            Card::Study => seq![3, 5],
            Card::Fortifications => seq![3, 7],
            Card::Circus => seq![4, 5, 6],
            Card::Arsenal => seq![3, 4, 7],
            Card::SiegeWorkshop => seq![3, 5],
            Card::WorkersGuild => seq![3],
            Card::CraftsmensGuild => seq![3],
            Card::TradersGuild => seq![3],
            Card::PhilosophersGuild => seq![3],
            Card::SpiesGuild => seq![3],
            Card::StrategistsGuild => seq![3],
            Card::ShipownersGuild => seq![3],
            Card::ScientistsGuild => seq![3],
            Card::MagistratesGuild => seq![3],
            Card::BuildersGuild => seq![3],
        }
    }

    /// One entry for each copy of the card: the number of players from which that copy is in the deck.
    pub fn players_needed(&self) -> (players: Vec<u32>)
        ensures
            players@ == self.spec_players_needed(),
    {
        match self {
            Card::LumberYard => vec![3, 4],
            Card::StonePit => vec![3, 5],
            Card::ClayPool => vec![3, 5],
            Card::OreVein => vec![3, 4],
            Card::TreeFarm => vec![6],
            Card::Excavation => vec![4],
            Card::ClayPit => vec![3],
            Card::TimberYard => vec![3],
            Card::ForestCave => vec![5],
            Card::Mine => vec![6],
            Card::Loom1 => vec![3, 6],
            Card::Glassworks1 => vec![3, 6],
            Card::Press1 => vec![3, 6],
            Card::Pawnshop => vec![4, 7],
            Card::Baths => vec![3, 7],
            Card::Altar => vec![3, 5],
            Card::Theater => vec![3, 6],
            Card::Tavern => vec![4, 5, 7],
            Card::EastTradingPost => vec![3, 7],
            Card::WestTradingPost => vec![3, 7],
            Card::Marketplace => vec![3, 6],
            Card::Apothecary => vec![3, 5],
            Card::Workshop => vec![3, 7],
            Card::Scriptorium => vec![3, 4],
            Card::Stockade => vec![3, 7],
            Card::Barracks => vec![3, 5],
            Card::GuardTower => vec![3, 4],
            Card::Sawmill => vec![3, 4],
            Card::Quarry => vec![3, 4],
            Card::Brickyard => vec![3, 4],
            Card::Foundry => vec![3, 4],
            Card::Loom2 => vec![3, 5],
            Card::Glassworks2 => vec![3, 5],
            Card::Press2 => vec![3, 5],
            Card::Aqueduct => vec![3, 7],
            Card::Temple => vec![3, 6],
            Card::Statue => vec![3, 7],
            Card::Courthouse => vec![3, 5],
            Card::Forum => vec![3, 6, 7],
            Card::Caravansery => vec![3, 5, 6],
            Card::Vineyard => vec![3, 6],
            Card::Bazar => vec![4, 7],
            Card::Dispensary => vec![3, 4],
            Card::Laboratory => vec![3, 5],
            Card::Library => vec![3, 6],
            Card::School => vec![3, 7],
            Card::Walls => vec![3, 7],
            Card::TrainingGround => vec![4, 6, 7],
            Card::Stables => vec![3, 5],
            Card::ArcheryRange => vec![3, 6],
            Card::Pantheon => vec![3, 6],
            Card::Gardens => vec![3, 4],
            Card::TownHall => vec![3, 5, 6],
            Card::Palace => vec![3, 7],
            Card::Senate => vec![3, 5],
            Card::Haven => vec![3, 4],
            Card::Lighthouse => vec![3, 6],
            Card::ChamberOfCommerce => vec![4, 6],
            Card::Arena => vec![3, 5, 7],
            Card::Lodge => vec![3, 6],
            Card::Observatory => vec![3, 7],
            Card::University => vec![3, 4],
            Card::Academy => vec![3, 7],
            Card::Study => vec![3, 5],
            Card::Fortifications => vec![3, 7],
            Card::Circus => vec![4, 5, 6],
            Card::Arsenal => vec![3, 4, 7],
            Card::SiegeWorkshop => vec![3, 5],
            Card::WorkersGuild => vec![3],
            Card::CraftsmensGuild => vec![3],
            Card::TradersGuild => vec![3],
            Card::PhilosophersGuild => vec![3],
            Card::SpiesGuild => vec![3],
            Card::StrategistsGuild => vec![3],
            Card::ShipownersGuild => vec![3],
            Card::ScientistsGuild => vec![3],
            Card::MagistratesGuild => vec![3],
            Card::BuildersGuild => vec![3],
        }
    }

    /// What has to be paid to build the card.
    pub open spec fn spec_cost(&self) -> Cost {
        match self {
            Card::LumberYard => Cost { coins: 0, wood: 0, stone: 0, ore: 0, clay: 0, glass: 0, loom: 0, papyrus: 0 },
            Card::StonePit => Cost { coins: 0, wood: 0, stone: 0, ore: 0, clay: 0, glass: 0, loom: 0, papyrus: 0 },
            Card::ClayPool => Cost { coins: 0, wood: 0, stone: 0, ore: 0, clay: 0, glass: 0, loom: 0, papyrus: 0 },
            Card::OreVein => Cost { coins: 0, wood: 0, stone: 0, ore: 0, clay: 0, glass: 0, loom: 0, papyrus: 0 },
            Card::TreeFarm => Cost { coins: 1, wood: 0, stone: 0, ore: 0, clay: 0, glass: 0, loom: 0, papyrus: 0 },
            Card::Excavation => Cost { coins: 1, wood: 0, stone: 0, ore: 0, clay: 0, glass: 0, loom: 0, papyrus: 0 },
            Card::ClayPit => Cost { coins: 1, wood: 0, stone: 0, ore: 0, clay: 0, glass: 0, loom: 0, papyrus: 0 },
            Card::TimberYard => Cost { coins: 1, wood: 0, stone: 0, ore: 0, clay: 0, glass: 0, loom: 0, papyrus: 0 },
            Card::ForestCave => Cost { coins: 1, wood: 0, stone: 0, ore: 0, clay: 0, glass: 0, loom: 0, papyrus: 0 },
            Card::Mine => Cost { coins: 1, wood: 0, stone: 0, ore: 0, clay: 0, glass: 0, loom: 0, papyrus: 0 },
            Card::Loom1 => Cost { coins: 0, wood: 0, stone: 0, ore: 0, clay: 0, glass: 0, loom: 0, papyrus: 0 },
            Card::Glassworks1 => Cost { coins: 0, wood: 0, stone: 0, ore: 0, clay: 0, glass: 0, loom: 0, papyrus: 0 },
            Card::Press1 => Cost { coins: 0, wood: 0, stone: 0, ore: 0, clay: 0, glass: 0, loom: 0, papyrus: 0 },
            Card::Pawnshop => Cost { coins: 0, wood: 0, stone: 0, ore: 0, clay: 0, glass: 0, loom: 0, papyrus: 0 },
            Card::Baths => Cost { coins: 0, wood: 0, stone: 1, ore: 0, clay: 0, glass: 0, loom: 0, papyrus: 0 },
            Card::Altar => Cost { coins: 0, wood: 0, stone: 0, ore: 0, clay: 0, glass: 0, loom: 0, papyrus: 0 },
            Card::Theater => Cost { coins: 0, wood: 0, stone: 0, ore: 0, clay: 0, glass: 0, loom: 0, papyrus: 0 },
            Card::Tavern => Cost { coins: 0, wood: 0, stone: 0, ore: 0, clay: 0, glass: 0, loom: 0, papyrus: 0 },
            Card::EastTradingPost => Cost { coins: 0, wood: 0, stone: 0, ore: 0, clay: 0, glass: 0, loom: 0, papyrus: 0 },
            Card::WestTradingPost => Cost { coins: 0, wood: 0, stone: 0, ore: 0, clay: 0, glass: 0, loom: 0, papyrus: 0 },
            Card::Marketplace => Cost { coins: 0, wood: 0, stone: 0, ore: 0, clay: 0, glass: 0, loom: 0, papyrus: 0 },
            Card::Apothecary => Cost { coins: 0, wood: 0, stone: 0, ore: 0, clay: 0, glass: 0, loom: 1, papyrus: 0 },
            Card::Workshop => Cost { coins: 0, wood: 0, stone: 0, ore: 0, clay: 0, glass: 1, loom: 0, papyrus: 0 },
            Card::Scriptorium => Cost { coins: 0, wood: 0, stone: 0, ore: 0, clay: 0, glass: 0, loom: 0, papyrus: 1 },
            Card::Stockade => Cost { coins: 0, wood: 1, stone: 0, ore: 0, clay: 0, glass: 0, loom: 0, papyrus: 0 },
            Card::Barracks => Cost { coins: 0, wood: 0, stone: 0, ore: 1, clay: 0, glass: 0, loom: 0, papyrus: 0 },
            Card::GuardTower => Cost { coins: 0, wood: 0, stone: 0, ore: 0, clay: 1, glass: 0, loom: 0, papyrus: 0 },
            Card::Sawmill => Cost { coins: 1, wood: 0, stone: 0, ore: 0, clay: 0, glass: 0, loom: 0, papyrus: 0 },
            Card::Quarry => Cost { coins: 1, wood: 0, stone: 0, ore: 0, clay: 0, glass: 0, loom: 0, papyrus: 0 },
            Card::Brickyard => Cost { coins: 1, wood: 0, stone: 0, ore: 0, clay: 0, glass: 0, loom: 0, papyrus: 0 },
            Card::Foundry => Cost { coins: 1, wood: 0, stone: 0, ore: 0, clay: 0, glass: 0, loom: 0, papyrus: 0 },
            Card::Loom2 => Cost { coins: 0, wood: 0, stone: 0, ore: 0, clay: 0, glass: 0, loom: 0, papyrus: 0 },
            Card::Glassworks2 => Cost { coins: 0, wood: 0, stone: 0, ore: 0, clay: 0, glass: 0, loom: 0, papyrus: 0 },
            Card::Press2 => Cost { coins: 0, wood: 0, stone: 0, ore: 0, clay: 0, glass: 0, loom: 0, papyrus: 0 },
            Card::Aqueduct => Cost { coins: 0, wood: 0, stone: 3, ore: 0, clay: 0, glass: 0, loom: 0, papyrus: 0 },
            Card::Temple => Cost { coins: 0, wood: 1, stone: 0, ore: 0, clay: 1, glass: 1, loom: 0, papyrus: 0 },
            Card::Statue => Cost { coins: 0, wood: 1, stone: 0, ore: 2, clay: 0, glass: 0, loom: 0, papyrus: 0 },
            Card::Courthouse => Cost { coins: 0, wood: 0, stone: 0, ore: 0, clay: 2, glass: 0, loom: 1, papyrus: 0 },
            Card::Forum => Cost { coins: 0, wood: 0, stone: 0, ore: 0, clay: 2, glass: 0, loom: 0, papyrus: 0 },
            Card::Caravansery => Cost { coins: 0, wood: 2, stone: 0, ore: 0, clay: 0, glass: 0, loom: 0, papyrus: 0 },
            Card::Vineyard => Cost { coins: 0, wood: 0, stone: 0, ore: 0, clay: 0, glass: 0, loom: 0, papyrus: 0 },
            Card::Bazar => Cost { coins: 0, wood: 0, stone: 0, ore: 0, clay: 0, glass: 0, loom: 0, papyrus: 0 },
            Card::Dispensary => Cost { coins: 0, wood: 0, stone: 0, ore: 2, clay: 0, glass: 1, loom: 0, papyrus: 0 },
            Card::Laboratory => Cost { coins: 0, wood: 0, stone: 0, ore: 0, clay: 2, glass: 0, loom: 0, papyrus: 1 },
            Card::Library => Cost { coins: 0, wood: 0, stone: 2, ore: 0, clay: 0, glass: 0, loom: 1, papyrus: 0 },
            Card::School => Cost { coins: 0, wood: 1, stone: 0, ore: 0, clay: 0, glass: 0, loom: 0, papyrus: 1 },
            Card::Walls => Cost { coins: 0, wood: 0, stone: 3, ore: 0, clay: 0, glass: 0, loom: 0, papyrus: 0 },
            Card::TrainingGround => Cost { coins: 0, wood: 1, stone: 0, ore: 2, clay: 0, glass: 0, loom: 0, papyrus: 0 },
            Card::Stables => Cost { coins: 0, wood: 1, stone: 0, ore: 1, clay: 1, glass: 0, loom: 0, papyrus: 0 },
            Card::ArcheryRange => Cost { coins: 0, wood: 2, stone: 0, ore: 1, clay: 0, glass: 0, loom: 0, papyrus: 0 },
            Card::Pantheon => Cost { coins: 0, wood: 0, stone: 0, ore: 1, clay: 2, glass: 1, loom: 1, papyrus: 1 },
            Card::Gardens => Cost { coins: 0, wood: 2, stone: 0, ore: 0, clay: 2, glass: 0, loom: 0, papyrus: 0 },
            Card::TownHall => Cost { coins: 0, wood: 0, stone: 2, ore: 1, clay: 0, glass: 1, loom: 0, papyrus: 0 },
            Card::Palace => Cost { coins: 0, wood: 1, stone: 1, ore: 1, clay: 1, glass: 1, loom: 1, papyrus: 1 },
            Card::Senate => Cost { coins: 0, wood: 2, stone: 1, ore: 1, clay: 0, glass: 0, loom: 0, papyrus: 0 },
            Card::Haven => Cost { coins: 0, wood: 1, stone: 0, ore: 1, clay: 0, glass: 0, loom: 1, papyrus: 0 },
            Card::Lighthouse => Cost { coins: 0, wood: 0, stone: 1, ore: 0, clay: 0, glass: 1, loom: 0, papyrus: 0 },
            Card::ChamberOfCommerce => Cost { coins: 0, wood: 0, stone: 0, ore: 0, clay: 2, glass: 0, loom: 0, papyrus: 1 },
            Card::Arena => Cost { coins: 0, wood: 0, stone: 2, ore: 1, clay: 0, glass: 0, loom: 0, papyrus: 0 },
            Card::Lodge => Cost { coins: 0, wood: 0, stone: 0, ore: 0, clay: 2, glass: 0, loom: 1, papyrus: 1 },
            Card::Observatory => Cost { coins: 0, wood: 0, stone: 0, ore: 2, clay: 0, glass: 1, loom: 1, papyrus: 0 },
            Card::University => Cost { coins: 0, wood: 2, stone: 0, ore: 0, clay: 0, glass: 1, loom: 0, papyrus: 1 },
            Card::Academy => Cost { coins: 0, wood: 0, stone: 3, ore: 0, clay: 0, glass: 1, loom: 0, papyrus: 0 },
            Card::Study => Cost { coins: 0, wood: 1, stone: 0, ore: 0, clay: 0, glass: 0, loom: 1, papyrus: 1 },
            Card::Fortifications => Cost { coins: 0, wood: 0, stone: 1, ore: 3, clay: 0, glass: 0, loom: 0, papyrus: 0 },
            Card::Circus => Cost { coins: 0, wood: 0, stone: 3, ore: 1, clay: 0, glass: 0, loom: 0, papyrus: 0 },
            Card::Arsenal => Cost { coins: 0, wood: 2, stone: 0, ore: 1, clay: 0, glass: 0, loom: 1, papyrus: 0 },
            Card::SiegeWorkshop => Cost { coins: 0, wood: 1, stone: 0, ore: 0, clay: 3, glass: 0, loom: 0, papyrus: 0 },
            Card::WorkersGuild => Cost { coins: 0, wood: 1, stone: 1, ore: 2, clay: 1, glass: 0, loom: 0, papyrus: 0 },
            Card::CraftsmensGuild => Cost { coins: 0, wood: 0, stone: 2, ore: 2, clay: 0, glass: 0, loom: 0, papyrus: 0 },
            Card::TradersGuild => Cost { coins: 0, wood: 0, stone: 0, ore: 0, clay: 0, glass: 1, loom: 1, papyrus: 1 },
            Card::PhilosophersGuild => Cost { coins: 0, wood: 0, stone: 0, ore: 0, clay: 3, glass: 0, loom: 1, papyrus: 1 },
            Card::SpiesGuild => Cost { coins: 0, wood: 0, stone: 0, ore: 0, clay: 3, glass: 1, loom: 0, papyrus: 0 },
            Card::StrategistsGuild => Cost { coins: 0, wood: 0, stone: 1, ore: 2, clay: 0, glass: 0, loom: 1, papyrus: 0 },
            Card::ShipownersGuild => Cost { coins: 0, wood: 3, stone: 0, ore: 0, clay: 0, glass: 1, loom: 0, papyrus: 1 },
            Card::ScientistsGuild => Cost { coins: 0, wood: 2, stone: 0, ore: 2, clay: 0, glass: 0, loom: 0, papyrus: 1 },
            Card::MagistratesGuild => Cost { coins: 0, wood: 3, stone: 1, ore: 0, clay: 0, glass: 0, loom: 1, papyrus: 0 },
            Card::BuildersGuild => Cost { coins: 0, wood: 0, stone: 2, ore: 0, clay: 2, glass: 1, loom: 0, papyrus: 0 },
        }
    }

    /// What has to be paid to build the card.
    #[verifier::when_used_as_spec(spec_cost)]
    pub fn cost(&self) -> (cost: Cost)
        ensures
            cost == self.spec_cost(),
    {
        match self {
            Card::LumberYard => Cost { coins: 0, wood: 0, stone: 0, ore: 0, clay: 0, glass: 0, loom: 0, papyrus: 0 },
            Card::StonePit => Cost { coins: 0, wood: 0, stone: 0, ore: 0, clay: 0, glass: 0, loom: 0, papyrus: 0 },
            Card::ClayPool => Cost { coins: 0, wood: 0, stone: 0, ore: 0, clay: 0, glass: 0, loom: 0, papyrus: 0 },
            Card::OreVein => Cost { coins: 0, wood: 0, stone: 0, ore: 0, clay: 0, glass: 0, loom: 0, papyrus: 0 },
            Card::TreeFarm => Cost { coins: 1, wood: 0, stone: 0, ore: 0, clay: 0, glass: 0, loom: 0, papyrus: 0 },
            Card::Excavation => Cost { coins: 1, wood: 0, stone: 0, ore: 0, clay: 0, glass: 0, loom: 0, papyrus: 0 },
            Card::ClayPit => Cost { coins: 1, wood: 0, stone: 0, ore: 0, clay: 0, glass: 0, loom: 0, papyrus: 0 },
            Card::TimberYard => Cost { coins: 1, wood: 0, stone: 0, ore: 0, clay: 0, glass: 0, loom: 0, papyrus: 0 },
            Card::ForestCave => Cost { coins: 1, wood: 0, stone: 0, ore: 0, clay: 0, glass: 0, loom: 0, papyrus: 0 },
            Card::Mine => Cost { coins: 1, wood: 0, stone: 0, ore: 0, clay: 0, glass: 0, loom: 0, papyrus: 0 },
            Card::Loom1 => Cost { coins: 0, wood: 0, stone: 0, ore: 0, clay: 0, glass: 0, loom: 0, papyrus: 0 },
            Card::Glassworks1 => Cost { coins: 0, wood: 0, stone: 0, ore: 0, clay: 0, glass: 0, loom: 0, papyrus: 0 },
            Card::Press1 => Cost { coins: 0, wood: 0, stone: 0, ore: 0, clay: 0, glass: 0, loom: 0, papyrus: 0 },
            Card::Pawnshop => Cost { coins: 0, wood: 0, stone: 0, ore: 0, clay: 0, glass: 0, loom: 0, papyrus: 0 },
            Card::Baths => Cost { coins: 0, wood: 0, stone: 1, ore: 0, clay: 0, glass: 0, loom: 0, papyrus: 0 },
            Card::Altar => Cost { coins: 0, wood: 0, stone: 0, ore: 0, clay: 0, glass: 0, loom: 0, papyrus: 0 },
            Card::Theater => Cost { coins: 0, wood: 0, stone: 0, ore: 0, clay: 0, glass: 0, loom: 0, papyrus: 0 },
            Card::Tavern => Cost { coins: 0, wood: 0, stone: 0, ore: 0, clay: 0, glass: 0, loom: 0, papyrus: 0 },
            Card::EastTradingPost => Cost { coins: 0, wood: 0, stone: 0, ore: 0, clay: 0, glass: 0, loom: 0, papyrus: 0 },
            Card::WestTradingPost => Cost { coins: 0, wood: 0, stone: 0, ore: 0, clay: 0, glass: 0, loom: 0, papyrus: 0 },
            Card::Marketplace => Cost { coins: 0, wood: 0, stone: 0, ore: 0, clay: 0, glass: 0, loom: 0, papyrus: 0 },
            Card::Apothecary => Cost { coins: 0, wood: 0, stone: 0, ore: 0, clay: 0, glass: 0, loom: 1, papyrus: 0 },
            Card::Workshop => Cost { coins: 0, wood: 0, stone: 0, ore: 0, clay: 0, glass: 1, loom: 0, papyrus: 0 },
            Card::Scriptorium => Cost { coins: 0, wood: 0, stone: 0, ore: 0, clay: 0, glass: 0, loom: 0, papyrus: 1 },
            Card::Stockade => Cost { coins: 0, wood: 1, stone: 0, ore: 0, clay: 0, glass: 0, loom: 0, papyrus: 0 },
            Card::Barracks => Cost { coins: 0, wood: 0, stone: 0, ore: 1, clay: 0, glass: 0, loom: 0, papyrus: 0 },
            Card::GuardTower => Cost { coins: 0, wood: 0, stone: 0, ore: 0, clay: 1, glass: 0, loom: 0, papyrus: 0 },
            Card::Sawmill => Cost { coins: 1, wood: 0, stone: 0, ore: 0, clay: 0, glass: 0, loom: 0, papyrus: 0 },
            Card::Quarry => Cost { coins: 1, wood: 0, stone: 0, ore: 0, clay: 0, glass: 0, loom: 0, papyrus: 0 },
            Card::Brickyard => Cost { coins: 1, wood: 0, stone: 0, ore: 0, clay: 0, glass: 0, loom: 0, papyrus: 0 },
            Card::Foundry => Cost { coins: 1, wood: 0, stone: 0, ore: 0, clay: 0, glass: 0, loom: 0, papyrus: 0 },
            Card::Loom2 => Cost { coins: 0, wood: 0, stone: 0, ore: 0, clay: 0, glass: 0, loom: 0, papyrus: 0 },
            Card::Glassworks2 => Cost { coins: 0, wood: 0, stone: 0, ore: 0, clay: 0, glass: 0, loom: 0, papyrus: 0 },
            Card::Press2 => Cost { coins: 0, wood: 0, stone: 0, ore: 0, clay: 0, glass: 0, loom: 0, papyrus: 0 },
            Card::Aqueduct => Cost { coins: 0, wood: 0, stone: 3, ore: 0, clay: 0, glass: 0, loom: 0, papyrus: 0 },
            Card::Temple => Cost { coins: 0, wood: 1, stone: 0, ore: 0, clay: 1, glass: 1, loom: 0, papyrus: 0 },
            Card::Statue => Cost { coins: 0, wood: 1, stone: 0, ore: 2, clay: 0, glass: 0, loom: 0, papyrus: 0 },
            Card::Courthouse => Cost { coins: 0, wood: 0, stone: 0, ore: 0, clay: 2, glass: 0, loom: 1, papyrus: 0 },
            Card::Forum => Cost { coins: 0, wood: 0, stone: 0, ore: 0, clay: 2, glass: 0, loom: 0, papyrus: 0 },
            Card::Caravansery => Cost { coins: 0, wood: 2, stone: 0, ore: 0, clay: 0, glass: 0, loom: 0, papyrus: 0 },
            Card::Vineyard => Cost { coins: 0, wood: 0, stone: 0, ore: 0, clay: 0, glass: 0, loom: 0, papyrus: 0 },
            Card::Bazar => Cost { coins: 0, wood: 0, stone: 0, ore: 0, clay: 0, glass: 0, loom: 0, papyrus: 0 },
            Card::Dispensary => Cost { coins: 0, wood: 0, stone: 0, ore: 2, clay: 0, glass: 1, loom: 0, papyrus: 0 },
            Card::Laboratory => Cost { coins: 0, wood: 0, stone: 0, ore: 0, clay: 2, glass: 0, loom: 0, papyrus: 1 },
            Card::Library => Cost { coins: 0, wood: 0, stone: 2, ore: 0, clay: 0, glass: 0, loom: 1, papyrus: 0 },
            Card::School => Cost { coins: 0, wood: 1, stone: 0, ore: 0, clay: 0, glass: 0, loom: 0, papyrus: 1 },
            Card::Walls => Cost { coins: 0, wood: 0, stone: 3, ore: 0, clay: 0, glass: 0, loom: 0, papyrus: 0 },
            Card::TrainingGround => Cost { coins: 0, wood: 1, stone: 0, ore: 2, clay: 0, glass: 0, loom: 0, papyrus: 0 },
            Card::Stables => Cost { coins: 0, wood: 1, stone: 0, ore: 1, clay: 1, glass: 0, loom: 0, papyrus: 0 },
            Card::ArcheryRange => Cost { coins: 0, wood: 2, stone: 0, ore: 1, clay: 0, glass: 0, loom: 0, papyrus: 0 },
            Card::Pantheon => Cost { coins: 0, wood: 0, stone: 0, ore: 1, clay: 2, glass: 1, loom: 1, papyrus: 1 },
            Card::Gardens => Cost { coins: 0, wood: 2, stone: 0, ore: 0, clay: 2, glass: 0, loom: 0, papyrus: 0 },
            Card::TownHall => Cost { coins: 0, wood: 0, stone: 2, ore: 1, clay: 0, glass: 1, loom: 0, papyrus: 0 },
            Card::Palace => Cost { coins: 0, wood: 1, stone: 1, ore: 1, clay: 1, glass: 1, loom: 1, papyrus: 1 },
            Card::Senate => Cost { coins: 0, wood: 2, stone: 1, ore: 1, clay: 0, glass: 0, loom: 0, papyrus: 0 },
            Card::Haven => Cost { coins: 0, wood: 1, stone: 0, ore: 1, clay: 0, glass: 0, loom: 1, papyrus: 0 },
            Card::Lighthouse => Cost { coins: 0, wood: 0, stone: 1, ore: 0, clay: 0, glass: 1, loom: 0, papyrus: 0 },
            Card::ChamberOfCommerce => Cost { coins: 0, wood: 0, stone: 0, ore: 0, clay: 2, glass: 0, loom: 0, papyrus: 1 },
            Card::Arena => Cost { coins: 0, wood: 0, stone: 2, ore: 1, clay: 0, glass: 0, loom: 0, papyrus: 0 },
            Card::Lodge => Cost { coins: 0, wood: 0, stone: 0, ore: 0, clay: 2, glass: 0, loom: 1, papyrus: 1 },
            Card::Observatory => Cost { coins: 0, wood: 0, stone: 0, ore: 2, clay: 0, glass: 1, loom: 1, papyrus: 0 },
            Card::University => Cost { coins: 0, wood: 2, stone: 0, ore: 0, clay: 0, glass: 1, loom: 0, papyrus: 1 },
            Card::Academy => Cost { coins: 0, wood: 0, stone: 3, ore: 0, clay: 0, glass: 1, loom: 0, papyrus: 0 },
            Card::Study => Cost { coins: 0, wood: 1, stone: 0, ore: 0, clay: 0, glass: 0, loom: 1, papyrus: 1 },
            Card::Fortifications => Cost { coins: 0, wood: 0, stone: 1, ore: 3, clay: 0, glass: 0, loom: 0, papyrus: 0 },
            Card::Circus => Cost { coins: 0, wood: 0, stone: 3, ore: 1, clay: 0, glass: 0, loom: 0, papyrus: 0 },
            Card::Arsenal => Cost { coins: 0, wood: 2, stone: 0, ore: 1, clay: 0, glass: 0, loom: 1, papyrus: 0 },
            Card::SiegeWorkshop => Cost { coins: 0, wood: 1, stone: 0, ore: 0, clay: 3, glass: 0, loom: 0, papyrus: 0 },
            Card::WorkersGuild => Cost { coins: 0, wood: 1, stone: 1, ore: 2, clay: 1, glass: 0, loom: 0, papyrus: 0 },
            Card::CraftsmensGuild => Cost { coins: 0, wood: 0, stone: 2, ore: 2, clay: 0, glass: 0, loom: 0, papyrus: 0 },
            Card::TradersGuild => Cost { coins: 0, wood: 0, stone: 0, ore: 0, clay: 0, glass: 1, loom: 1, papyrus: 1 },
            Card::PhilosophersGuild => Cost { coins: 0, wood: 0, stone: 0, ore: 0, clay: 3, glass: 0, loom: 1, papyrus: 1 },
            Card::SpiesGuild => Cost { coins: 0, wood: 0, stone: 0, ore: 0, clay: 3, glass: 1, loom: 0, papyrus: 0 },
            Card::StrategistsGuild => Cost { coins: 0, wood: 0, stone: 1, ore: 2, clay: 0, glass: 0, loom: 1, papyrus: 0 },
            Card::ShipownersGuild => Cost { coins: 0, wood: 3, stone: 0, ore: 0, clay: 0, glass: 1, loom: 0, papyrus: 1 },
            Card::ScientistsGuild => Cost { coins: 0, wood: 2, stone: 0, ore: 2, clay: 0, glass: 0, loom: 0, papyrus: 1 },
            Card::MagistratesGuild => Cost { coins: 0, wood: 3, stone: 1, ore: 0, clay: 0, glass: 0, loom: 1, papyrus: 0 },
            Card::BuildersGuild => Cost { coins: 0, wood: 0, stone: 2, ore: 0, clay: 2, glass: 1, loom: 0, papyrus: 0 },
        }
    }

    /// The cards that can be built for free once this one is built.
    pub open spec fn spec_chains_to(&self) -> Seq<Card> {
        match self {
            Card::LumberYard => Seq::empty(),
            Card::StonePit => Seq::empty(),
            Card::ClayPool => Seq::empty(),
            Card::OreVein => Seq::empty(),
            Card::TreeFarm => Seq::empty(),
            Card::Excavation => Seq::empty(),
            Card::ClayPit => Seq::empty(),
            Card::TimberYard => Seq::empty(),
            Card::ForestCave => Seq::empty(),
            Card::Mine => Seq::empty(),
            Card::Loom1 => Seq::empty(),
            Card::Glassworks1 => Seq::empty(),
            Card::Press1 => Seq::empty(),
            Card::Pawnshop => Seq::empty(),
            Card::Baths => seq![Card::Aqueduct],
            Card::Altar => seq![Card::Temple],
            Card::Theater => seq![Card::Statue],
            Card::Tavern => Seq::empty(),
            Card::EastTradingPost => seq![Card::Forum],
            Card::WestTradingPost => seq![Card::Forum],
            Card::Marketplace => seq![Card::Caravansery],
            Card::Apothecary => seq![Card::Stables, Card::Dispensary],
            Card::Workshop => seq![Card::ArcheryRange, Card::Laboratory],
            Card::Scriptorium => seq![Card::Courthouse, Card::Library],
            Card::Stockade => Seq::empty(),
            Card::Barracks => Seq::empty(),
            Card::GuardTower => Seq::empty(),
            Card::Sawmill => Seq::empty(),
            Card::Quarry => Seq::empty(),
            Card::Brickyard => Seq::empty(),
            Card::Foundry => Seq::empty(),
            Card::Loom2 => Seq::empty(),
            Card::Glassworks2 => Seq::empty(),
            Card::Press2 => Seq::empty(),
            Card::Aqueduct => Seq::empty(),
            Card::Temple => seq![Card::Pantheon],
            Card::Statue => seq![Card::Gardens],
            Card::Courthouse => Seq::empty(),
            Card::Forum => seq![Card::Haven],
            Card::Caravansery => seq![Card::Lighthouse],
            Card::Vineyard => Seq::empty(),
            Card::Bazar => Seq::empty(),
            Card::Dispensary => seq![Card::Arena, Card::Lodge],
            Card::Laboratory => seq![Card::SiegeWorkshop, Card::Observatory],
            Card::Library => seq![Card::Senate, Card::University],
            Card::School => seq![Card::Academy, Card::Study],
            Card::Walls => seq![Card::Fortifications],
            Card::TrainingGround => seq![Card::Circus],
            Card::Stables => Seq::empty(),
            Card::ArcheryRange => Seq::empty(),
            Card::Pantheon => Seq::empty(),
            Card::Gardens => Seq::empty(),
            Card::TownHall => Seq::empty(),
            Card::Palace => Seq::empty(),
            Card::Senate => Seq::empty(),
            Card::Haven => Seq::empty(),
            Card::Lighthouse => Seq::empty(),
            Card::ChamberOfCommerce => Seq::empty(),
            Card::Arena => Seq::empty(),
            Card::Lodge => Seq::empty(),
            Card::Observatory => Seq::empty(),
            Card::University => Seq::empty(),
            Card::Academy => Seq::empty(),
            Card::Study => Seq::empty(),
            Card::Fortifications => Seq::empty(),
            Card::Circus => Seq::empty(),
            Card::Arsenal => Seq::empty(),
            Card::SiegeWorkshop => Seq::empty(),
            Card::WorkersGuild => Seq::empty(),
            Card::CraftsmensGuild => Seq::empty(),
            Card::TradersGuild => Seq::empty(),
            Card::PhilosophersGuild => Seq::empty(),
            Card::SpiesGuild => Seq::empty(),
            Card::StrategistsGuild => Seq::empty(),
            Card::ShipownersGuild => Seq::empty(),
            Card::ScientistsGuild => Seq::empty(),
            Card::MagistratesGuild => Seq::empty(),
            Card::BuildersGuild => Seq::empty(),
        }
    }

    /// The cards that can be built for free once this one is built.
    pub fn chains_to(&self) -> (cards: Vec<Card>)
        ensures
            cards@ == self.spec_chains_to(),
    {
        match self {
            Card::LumberYard => Vec::new(),
            Card::StonePit => Vec::new(),
            Card::ClayPool => Vec::new(),
            Card::OreVein => Vec::new(),
            Card::TreeFarm => Vec::new(),
            Card::Excavation => Vec::new(),
            Card::ClayPit => Vec::new(),
            Card::TimberYard => Vec::new(),
            Card::ForestCave => Vec::new(),
            Card::Mine => Vec::new(),
            Card::Loom1 => Vec::new(),
            Card::Glassworks1 => Vec::new(),
            Card::Press1 => Vec::new(),
            Card::Pawnshop => Vec::new(),
            Card::Baths => vec![Card::Aqueduct],
            Card::Altar => vec![Card::Temple],
            Card::Theater => vec![Card::Statue],
            Card::Tavern => Vec::new(),
            Card::EastTradingPost => vec![Card::Forum],
            Card::WestTradingPost => vec![Card::Forum],
            Card::Marketplace => vec![Card::Caravansery],
            Card::Apothecary => vec![Card::Stables, Card::Dispensary],
            Card::Workshop => vec![Card::ArcheryRange, Card::Laboratory],
            Card::Scriptorium => vec![Card::Courthouse, Card::Library],
            Card::Stockade => Vec::new(),
            Card::Barracks => Vec::new(),
            Card::GuardTower => Vec::new(),
            Card::Sawmill => Vec::new(),
            Card::Quarry => Vec::new(),
            Card::Brickyard => Vec::new(),
            Card::Foundry => Vec::new(),
            Card::Loom2 => Vec::new(),
            Card::Glassworks2 => Vec::new(),
            Card::Press2 => Vec::new(),
            Card::Aqueduct => Vec::new(),
            Card::Temple => vec![Card::Pantheon],
            Card::Statue => vec![Card::Gardens],
            Card::Courthouse => Vec::new(),
            Card::Forum => vec![Card::Haven],
            Card::Caravansery => vec![Card::Lighthouse],
            Card::Vineyard => Vec::new(),
            Card::Bazar => Vec::new(),
            Card::Dispensary => vec![Card::Arena, Card::Lodge],
            Card::Laboratory => vec![Card::SiegeWorkshop, Card::Observatory],
            Card::Library => vec![Card::Senate, Card::University],
            Card::School => vec![Card::Academy, Card::Study],
            Card::Walls => vec![Card::Fortifications],
            Card::TrainingGround => vec![Card::Circus],
            Card::Stables => Vec::new(),
            Card::ArcheryRange => Vec::new(),
            Card::Pantheon => Vec::new(),
            Card::Gardens => Vec::new(),
            Card::TownHall => Vec::new(),
            Card::Palace => Vec::new(),
            Card::Senate => Vec::new(),
            Card::Haven => Vec::new(),
            Card::Lighthouse => Vec::new(),
            Card::ChamberOfCommerce => Vec::new(),
            Card::Arena => Vec::new(),
            Card::Lodge => Vec::new(),
            Card::Observatory => Vec::new(),
            Card::University => Vec::new(),
            Card::Academy => Vec::new(),
            Card::Study => Vec::new(),
            Card::Fortifications => Vec::new(),
            Card::Circus => Vec::new(),
            Card::Arsenal => Vec::new(),
            Card::SiegeWorkshop => Vec::new(),
            Card::WorkersGuild => Vec::new(),
            Card::CraftsmensGuild => Vec::new(),
            Card::TradersGuild => Vec::new(),
            Card::PhilosophersGuild => Vec::new(),
            Card::SpiesGuild => Vec::new(),
            Card::StrategistsGuild => Vec::new(),
            Card::ShipownersGuild => Vec::new(),
            Card::ScientistsGuild => Vec::new(),
            Card::MagistratesGuild => Vec::new(),
            Card::BuildersGuild => Vec::new(),
        }
    }

    /// The colour of the card.
    pub open spec fn spec_colour(&self) -> Colour {
        match self {
            Card::LumberYard => Colour::Brown,
            Card::StonePit => Colour::Brown,
            Card::ClayPool => Colour::Brown,
            Card::OreVein => Colour::Brown,
            Card::TreeFarm => Colour::Brown,
            Card::Excavation => Colour::Brown,
            Card::ClayPit => Colour::Brown,
            Card::TimberYard => Colour::Brown,
            Card::ForestCave => Colour::Brown,
            Card::Mine => Colour::Brown,
            Card::Loom1 => Colour::Grey,
            Card::Glassworks1 => Colour::Grey,
            Card::Press1 => Colour::Grey,
            Card::Pawnshop => Colour::Blue,
            Card::Baths => Colour::Blue,
            Card::Altar => Colour::Blue,
            Card::Theater => Colour::Blue,
            Card::Tavern => Colour::Yellow,
            Card::EastTradingPost => Colour::Yellow,
            Card::WestTradingPost => Colour::Yellow,
            Card::Marketplace => Colour::Yellow,
            Card::Apothecary => Colour::Green,
            Card::Workshop => Colour::Green,
            Card::Scriptorium => Colour::Green,
            Card::Stockade => Colour::Red,
            Card::Barracks => Colour::Red,
            Card::GuardTower => Colour::Red,
            Card::Sawmill => Colour::Brown,
            Card::Quarry => Colour::Brown,
            Card::Brickyard => Colour::Brown,
            Card::Foundry => Colour::Brown,
            Card::Loom2 => Colour::Grey,
            Card::Glassworks2 => Colour::Grey,
            Card::Press2 => Colour::Grey,
            Card::Aqueduct => Colour::Blue,
            Card::Temple => Colour::Blue,
            Card::Statue => Colour::Blue,
            Card::Courthouse => Colour::Blue,
            Card::Forum => Colour::Yellow,
            Card::Caravansery => Colour::Yellow,
            Card::Vineyard => Colour::Yellow,
            Card::Bazar => Colour::Yellow,
            Card::Dispensary => Colour::Green,
            Card::Laboratory => Colour::Green,
            Card::Library => Colour::Green,
            Card::School => Colour::Green,
            Card::Walls => Colour::Red,
            Card::TrainingGround => Colour::Red,
            Card::Stables => Colour::Red,
            Card::ArcheryRange => Colour::Red,
            Card::Pantheon => Colour::Blue,
            Card::Gardens => Colour::Blue,
            Card::TownHall => Colour::Blue,
            Card::Palace => Colour::Blue,
            Card::Senate => Colour::Blue,
            Card::Haven => Colour::Yellow,
            Card::Lighthouse => Colour::Yellow,
            Card::ChamberOfCommerce => Colour::Yellow,
            Card::Arena => Colour::Yellow,
            Card::Lodge => Colour::Green,
            Card::Observatory => Colour::Green,
            Card::University => Colour::Green,
            Card::Academy => Colour::Green,
            Card::Study => Colour::Green,
            Card::Fortifications => Colour::Red,
            Card::Circus => Colour::Red,
            Card::Arsenal => Colour::Red,
            Card::SiegeWorkshop => Colour::Red,
            Card::WorkersGuild => Colour::Purple,
            Card::CraftsmensGuild => Colour::Purple,
            Card::TradersGuild => Colour::Purple,
            Card::PhilosophersGuild => Colour::Purple,
            Card::SpiesGuild => Colour::Purple,
            Card::StrategistsGuild => Colour::Purple,
            Card::ShipownersGuild => Colour::Purple,
            Card::ScientistsGuild => Colour::Purple,
            Card::MagistratesGuild => Colour::Purple,
            Card::BuildersGuild => Colour::Purple,
        }
    }

    /// The colour of the card.
    #[verifier::when_used_as_spec(spec_colour)]
    pub fn colour(&self) -> (colour: Colour)
        ensures
            colour == self.spec_colour(),
    {
        match self {
            Card::LumberYard => Colour::Brown,
            Card::StonePit => Colour::Brown,
            Card::ClayPool => Colour::Brown,
            Card::OreVein => Colour::Brown,
            Card::TreeFarm => Colour::Brown,
            Card::Excavation => Colour::Brown,
            Card::ClayPit => Colour::Brown,
            Card::TimberYard => Colour::Brown,
            Card::ForestCave => Colour::Brown,
            Card::Mine => Colour::Brown,
            Card::Loom1 => Colour::Grey,
            Card::Glassworks1 => Colour::Grey,
            Card::Press1 => Colour::Grey,
            Card::Pawnshop => Colour::Blue,
            Card::Baths => Colour::Blue,
            Card::Altar => Colour::Blue,
            Card::Theater => Colour::Blue,
            Card::Tavern => Colour::Yellow,
            Card::EastTradingPost => Colour::Yellow,
            Card::WestTradingPost => Colour::Yellow,
            Card::Marketplace => Colour::Yellow,
            Card::Apothecary => Colour::Green,
            Card::Workshop => Colour::Green,
            Card::Scriptorium => Colour::Green,
            Card::Stockade => Colour::Red,
            Card::Barracks => Colour::Red,
            Card::GuardTower => Colour::Red,
            Card::Sawmill => Colour::Brown,
            Card::Quarry => Colour::Brown,
            Card::Brickyard => Colour::Brown,
            Card::Foundry => Colour::Brown,
            Card::Loom2 => Colour::Grey,
            Card::Glassworks2 => Colour::Grey,
            Card::Press2 => Colour::Grey,
            Card::Aqueduct => Colour::Blue,
            Card::Temple => Colour::Blue,
            Card::Statue => Colour::Blue,
            Card::Courthouse => Colour::Blue,
            Card::Forum => Colour::Yellow,
            Card::Caravansery => Colour::Yellow,
            Card::Vineyard => Colour::Yellow,
            Card::Bazar => Colour::Yellow,
            Card::Dispensary => Colour::Green,
            Card::Laboratory => Colour::Green,
            Card::Library => Colour::Green,
            Card::School => Colour::Green,
            Card::Walls => Colour::Red,
            Card::TrainingGround => Colour::Red,
            Card::Stables => Colour::Red,
            Card::ArcheryRange => Colour::Red,
            Card::Pantheon => Colour::Blue,
            Card::Gardens => Colour::Blue,
            Card::TownHall => Colour::Blue,
            Card::Palace => Colour::Blue,
            Card::Senate => Colour::Blue,
            Card::Haven => Colour::Yellow,
            Card::Lighthouse => Colour::Yellow,
            Card::ChamberOfCommerce => Colour::Yellow,
            Card::Arena => Colour::Yellow,
            Card::Lodge => Colour::Green,
            Card::Observatory => Colour::Green,
            Card::University => Colour::Green,
            Card::Academy => Colour::Green,
            Card::Study => Colour::Green,
            Card::Fortifications => Colour::Red,
            Card::Circus => Colour::Red,
            Card::Arsenal => Colour::Red,
            Card::SiegeWorkshop => Colour::Red,
            Card::WorkersGuild => Colour::Purple,
            Card::CraftsmensGuild => Colour::Purple,
            Card::TradersGuild => Colour::Purple,
            Card::PhilosophersGuild => Colour::Purple,
            Card::SpiesGuild => Colour::Purple,
            Card::StrategistsGuild => Colour::Purple,
            Card::ShipownersGuild => Colour::Purple,
            Card::ScientistsGuild => Colour::Purple,
            Card::MagistratesGuild => Colour::Purple,
            Card::BuildersGuild => Colour::Purple,
        }
    }

    /// What the card does for the player who has built it.
    pub open spec fn spec_power(&self) -> Ability {
        match self {
            Card::LumberYard => Ability::PurchasableProducer(Production::Single(Resource::Wood)),
            Card::StonePit => Ability::PurchasableProducer(Production::Single(Resource::Stone)),
            Card::ClayPool => Ability::PurchasableProducer(Production::Single(Resource::Clay)),
            Card::OreVein => Ability::PurchasableProducer(Production::Single(Resource::Ore)),
            Card::TreeFarm => Ability::PurchasableProducer(Production::Choice(seq![Resource::Wood, Resource::Clay])),
            Card::Excavation => Ability::PurchasableProducer(Production::Choice(seq![Resource::Stone, Resource::Clay])),
            Card::ClayPit => Ability::PurchasableProducer(Production::Choice(seq![Resource::Clay, Resource::Ore])),
            Card::TimberYard => Ability::PurchasableProducer(Production::Choice(seq![Resource::Stone, Resource::Wood])),
            Card::ForestCave => Ability::PurchasableProducer(Production::Choice(seq![Resource::Wood, Resource::Ore])),
            Card::Mine => Ability::PurchasableProducer(Production::Choice(seq![Resource::Ore, Resource::Stone])),
            Card::Loom1 => Ability::PurchasableProducer(Production::Single(Resource::Loom)),
            Card::Glassworks1 => Ability::PurchasableProducer(Production::Single(Resource::Glass)),
            Card::Press1 => Ability::PurchasableProducer(Production::Single(Resource::Papyrus)),
            Card::Pawnshop => Ability::VictoryPoints(3),
            Card::Baths => Ability::VictoryPoints(3),
            Card::Altar => Ability::VictoryPoints(2),
            Card::Theater => Ability::VictoryPoints(2),
            Card::Tavern => Ability::Coins(5),
            Card::EastTradingPost => Ability::BuyBrownAntiClockwise,
            Card::WestTradingPost => Ability::BuyBrownClockwise,
            Card::Marketplace => Ability::BuyGrey,
            Card::Apothecary => Ability::Science(seq![ScienceItem::Compass]),
            Card::Workshop => Ability::Science(seq![ScienceItem::Cog]),
            Card::Scriptorium => Ability::Science(seq![ScienceItem::Tablet]),
            Card::Stockade => Ability::Shields(1),
            Card::Barracks => Ability::Shields(1),
            Card::GuardTower => Ability::Shields(1),
            Card::Sawmill => Ability::PurchasableProducer(Production::Double(Resource::Wood)),
            Card::Quarry => Ability::PurchasableProducer(Production::Double(Resource::Stone)),
            Card::Brickyard => Ability::PurchasableProducer(Production::Double(Resource::Clay)),
            Card::Foundry => Ability::PurchasableProducer(Production::Double(Resource::Ore)),
            Card::Loom2 => Ability::PurchasableProducer(Production::Single(Resource::Loom)),
            Card::Glassworks2 => Ability::PurchasableProducer(Production::Single(Resource::Glass)),
            Card::Press2 => Ability::PurchasableProducer(Production::Single(Resource::Papyrus)),
            Card::Aqueduct => Ability::VictoryPoints(5),
            Card::Temple => Ability::VictoryPoints(3),
            Card::Statue => Ability::VictoryPoints(4),
            Card::Courthouse => Ability::VictoryPoints(4),
            Card::Forum => Ability::Producer(Production::Choice(seq![Resource::Loom, Resource::Glass, Resource::Papyrus])),
            Card::Caravansery => Ability::Producer(Production::Choice(seq![Resource::Wood, Resource::Stone, Resource::Ore, Resource::Clay])),
            Card::Vineyard => Ability::per_card_reward(Colour::Brown, true, true, 1, 0),
            Card::Bazar => Ability::per_card_reward(Colour::Grey, true, true, 2, 0),
            Card::Dispensary => Ability::Science(seq![ScienceItem::Compass]),
            Card::Laboratory => Ability::Science(seq![ScienceItem::Cog]),
            Card::Library => Ability::Science(seq![ScienceItem::Tablet]),
            Card::School => Ability::Science(seq![ScienceItem::Tablet]),
            Card::Walls => Ability::Shields(2),
            Card::TrainingGround => Ability::Shields(2),
            Card::Stables => Ability::Shields(2),
            Card::ArcheryRange => Ability::Shields(2),
            Card::Pantheon => Ability::VictoryPoints(7),
            Card::Gardens => Ability::VictoryPoints(5),
            Card::TownHall => Ability::VictoryPoints(6),
            Card::Palace => Ability::VictoryPoints(8),
            Card::Senate => Ability::VictoryPoints(6),
            Card::Haven => Ability::per_card_reward(Colour::Brown, true, false, 1, 1),
            Card::Lighthouse => Ability::per_card_reward(Colour::Yellow, true, false, 1, 1),
            Card::ChamberOfCommerce => Ability::per_card_reward(Colour::Grey, true, false, 2, 2),
            Card::Arena => Ability::PerGameItemRewards(seq![PerGameItemReward { game_item: GameItemFilter::CompletedWonderStage, me: true, neighbours: false, coins_per_thing: 3, points_per_thing: 1 }]),
            Card::Lodge => Ability::Science(seq![ScienceItem::Compass]),
            Card::Observatory => Ability::Science(seq![ScienceItem::Cog]),
            Card::University => Ability::Science(seq![ScienceItem::Tablet]),
            Card::Academy => Ability::Science(seq![ScienceItem::Compass]),
            Card::Study => Ability::Science(seq![ScienceItem::Cog]),
            Card::Fortifications => Ability::Shields(3),
            Card::Circus => Ability::Shields(3),
            Card::Arsenal => Ability::Shields(3),
            Card::SiegeWorkshop => Ability::Shields(3),
            Card::WorkersGuild => Ability::per_card_reward(Colour::Brown, false, true, 0, 1),
            Card::CraftsmensGuild => Ability::per_card_reward(Colour::Grey, false, true, 0, 2),
            Card::TradersGuild => Ability::per_card_reward(Colour::Yellow, false, true, 0, 1),
            Card::PhilosophersGuild => Ability::per_card_reward(Colour::Green, false, true, 0, 1),
            Card::SpiesGuild => Ability::per_card_reward(Colour::Red, false, true, 0, 2),
            Card::StrategistsGuild => Ability::PerGameItemRewards(seq![PerGameItemReward { game_item: GameItemFilter::DefeatToken, me: false, neighbours: true, coins_per_thing: 0, points_per_thing: 1 }]),
            Card::ShipownersGuild => Ability::PerGameItemRewards(seq![PerGameItemReward { game_item: GameItemFilter::CardOfColour(Colour::Brown), me: true, neighbours: false, coins_per_thing: 0, points_per_thing: 1 }, PerGameItemReward { game_item: GameItemFilter::CardOfColour(Colour::Grey), me: true, neighbours: false, coins_per_thing: 0, points_per_thing: 1 }, PerGameItemReward { game_item: GameItemFilter::CardOfColour(Colour::Purple), me: true, neighbours: false, coins_per_thing: 0, points_per_thing: 1 }]),
            Card::ScientistsGuild => Ability::Science(seq![ScienceItem::Compass, ScienceItem::Cog, ScienceItem::Tablet]),
            Card::MagistratesGuild => Ability::per_card_reward(Colour::Blue, false, true, 0, 1),
            Card::BuildersGuild => Ability::PerGameItemRewards(seq![PerGameItemReward { game_item: GameItemFilter::CompletedWonderStage, me: true, neighbours: true, coins_per_thing: 0, points_per_thing: 1 }]),
        }
    }

    /// What the card does for the player who has built it.
    pub fn power(&self) -> (power: Power)
        ensures
            power@ =~~= self.spec_power(),
    {
        match self {
            Card::LumberYard => Power::PurchasableProducer(ProducedResources::Single(Resource::Wood)),
            Card::StonePit => Power::PurchasableProducer(ProducedResources::Single(Resource::Stone)),
            Card::ClayPool => Power::PurchasableProducer(ProducedResources::Single(Resource::Clay)),
            Card::OreVein => Power::PurchasableProducer(ProducedResources::Single(Resource::Ore)),
            Card::TreeFarm => Power::PurchasableProducer(ProducedResources::Choice(vec![Resource::Wood, Resource::Clay])),
            Card::Excavation => Power::PurchasableProducer(ProducedResources::Choice(vec![Resource::Stone, Resource::Clay])),
            Card::ClayPit => Power::PurchasableProducer(ProducedResources::Choice(vec![Resource::Clay, Resource::Ore])),
            Card::TimberYard => Power::PurchasableProducer(ProducedResources::Choice(vec![Resource::Stone, Resource::Wood])),
            Card::ForestCave => Power::PurchasableProducer(ProducedResources::Choice(vec![Resource::Wood, Resource::Ore])),
            Card::Mine => Power::PurchasableProducer(ProducedResources::Choice(vec![Resource::Ore, Resource::Stone])),
            Card::Loom1 => Power::PurchasableProducer(ProducedResources::Single(Resource::Loom)),
            Card::Glassworks1 => Power::PurchasableProducer(ProducedResources::Single(Resource::Glass)),
            Card::Press1 => Power::PurchasableProducer(ProducedResources::Single(Resource::Papyrus)),
            Card::Pawnshop => Power::VictoryPoints(3),
            Card::Baths => Power::VictoryPoints(3),
            Card::Altar => Power::VictoryPoints(2),
            Card::Theater => Power::VictoryPoints(2),
            Card::Tavern => Power::Coins(5),
            Card::EastTradingPost => Power::BuyBrownAntiClockwise,
            Card::WestTradingPost => Power::BuyBrownClockwise,
            Card::Marketplace => Power::BuyGrey,
            Card::Apothecary => Power::Science(vec![ScienceItem::Compass]),
            Card::Workshop => Power::Science(vec![ScienceItem::Cog]),
            Card::Scriptorium => Power::Science(vec![ScienceItem::Tablet]),
            Card::Stockade => Power::Shields(1),
            Card::Barracks => Power::Shields(1),
            Card::GuardTower => Power::Shields(1),
            Card::Sawmill => Power::PurchasableProducer(ProducedResources::Double(Resource::Wood)),
            Card::Quarry => Power::PurchasableProducer(ProducedResources::Double(Resource::Stone)),
            Card::Brickyard => Power::PurchasableProducer(ProducedResources::Double(Resource::Clay)),
            Card::Foundry => Power::PurchasableProducer(ProducedResources::Double(Resource::Ore)),
            Card::Loom2 => Power::PurchasableProducer(ProducedResources::Single(Resource::Loom)),
            Card::Glassworks2 => Power::PurchasableProducer(ProducedResources::Single(Resource::Glass)),
            Card::Press2 => Power::PurchasableProducer(ProducedResources::Single(Resource::Papyrus)),
            Card::Aqueduct => Power::VictoryPoints(5),
            Card::Temple => Power::VictoryPoints(3),
            Card::Statue => Power::VictoryPoints(4),
            Card::Courthouse => Power::VictoryPoints(4),
            Card::Forum => Power::Producer(ProducedResources::Choice(vec![Resource::Loom, Resource::Glass, Resource::Papyrus])),
            Card::Caravansery => Power::Producer(ProducedResources::Choice(vec![Resource::Wood, Resource::Stone, Resource::Ore, Resource::Clay])),
            Card::Vineyard => Power::per_card_reward(Colour::Brown, true, true, 1, 0),
            Card::Bazar => Power::per_card_reward(Colour::Grey, true, true, 2, 0),
            Card::Dispensary => Power::Science(vec![ScienceItem::Compass]),
            Card::Laboratory => Power::Science(vec![ScienceItem::Cog]),
            Card::Library => Power::Science(vec![ScienceItem::Tablet]),
            Card::School => Power::Science(vec![ScienceItem::Tablet]),
            Card::Walls => Power::Shields(2),
            Card::TrainingGround => Power::Shields(2),
            Card::Stables => Power::Shields(2),
            Card::ArcheryRange => Power::Shields(2),
            Card::Pantheon => Power::VictoryPoints(7),
            Card::Gardens => Power::VictoryPoints(5),
            Card::TownHall => Power::VictoryPoints(6),
            Card::Palace => Power::VictoryPoints(8),
            Card::Senate => Power::VictoryPoints(6),
            Card::Haven => Power::per_card_reward(Colour::Brown, true, false, 1, 1),
            Card::Lighthouse => Power::per_card_reward(Colour::Yellow, true, false, 1, 1),
            Card::ChamberOfCommerce => Power::per_card_reward(Colour::Grey, true, false, 2, 2),
            Card::Arena => Power::PerGameItemRewards(vec![PerGameItemReward { game_item: GameItemFilter::CompletedWonderStage, me: true, neighbours: false, coins_per_thing: 3, points_per_thing: 1 }]),
            Card::Lodge => Power::Science(vec![ScienceItem::Compass]),
            Card::Observatory => Power::Science(vec![ScienceItem::Cog]),
            Card::University => Power::Science(vec![ScienceItem::Tablet]),
            Card::Academy => Power::Science(vec![ScienceItem::Compass]),
            Card::Study => Power::Science(vec![ScienceItem::Cog]),
            Card::Fortifications => Power::Shields(3),
            Card::Circus => Power::Shields(3),
            Card::Arsenal => Power::Shields(3),
            Card::SiegeWorkshop => Power::Shields(3),
            Card::WorkersGuild => Power::per_card_reward(Colour::Brown, false, true, 0, 1),
            Card::CraftsmensGuild => Power::per_card_reward(Colour::Grey, false, true, 0, 2),
            Card::TradersGuild => Power::per_card_reward(Colour::Yellow, false, true, 0, 1),
            Card::PhilosophersGuild => Power::per_card_reward(Colour::Green, false, true, 0, 1),
            Card::SpiesGuild => Power::per_card_reward(Colour::Red, false, true, 0, 2),
            Card::StrategistsGuild => Power::PerGameItemRewards(vec![PerGameItemReward { game_item: GameItemFilter::DefeatToken, me: false, neighbours: true, coins_per_thing: 0, points_per_thing: 1 }]),
            Card::ShipownersGuild => Power::PerGameItemRewards(vec![PerGameItemReward { game_item: GameItemFilter::CardOfColour(Colour::Brown), me: true, neighbours: false, coins_per_thing: 0, points_per_thing: 1 }, PerGameItemReward { game_item: GameItemFilter::CardOfColour(Colour::Grey), me: true, neighbours: false, coins_per_thing: 0, points_per_thing: 1 }, PerGameItemReward { game_item: GameItemFilter::CardOfColour(Colour::Purple), me: true, neighbours: false, coins_per_thing: 0, points_per_thing: 1 }]),
            Card::ScientistsGuild => Power::Science(vec![ScienceItem::Compass, ScienceItem::Cog, ScienceItem::Tablet]),
            Card::MagistratesGuild => Power::per_card_reward(Colour::Blue, false, true, 0, 1),
            Card::BuildersGuild => Power::PerGameItemRewards(vec![PerGameItemReward { game_item: GameItemFilter::CompletedWonderStage, me: true, neighbours: true, coins_per_thing: 0, points_per_thing: 1 }]),
        }
    }

    /// Everything that is printed on the card.
    pub fn info(&self) -> (info: CardInfo)
        ensures
            info.name@ == self.spec_name(),
            info.age == self.spec_age(),
            info.players_needed@ == self.spec_players_needed(),
            info.cost == self.spec_cost(),
            info.chains_to@ == self.spec_chains_to(),
            info.colour == self.spec_colour(),
            info.power@ == self.spec_power(),
    {
        CardInfo {
            name: self.name(),
            age: self.age(),
            players_needed: self.players_needed(),
            cost: self.cost(),
            chains_to: self.chains_to(),
            colour: self.colour(),
            power: self.power(),
        }
    }

    /// The victory points that the card is worth by itself, whatever else is on the table.
    pub open spec fn spec_immediate_strength(&self) -> int {
        self.spec_power().points()
    }

    /// The victory points that the card is worth by itself, whatever else is on the table.
    pub fn immediate_strength(&self) -> (points: u32)
        ensures
            points == self.spec_immediate_strength(),
    {
        match self.power() {
            Power::VictoryPoints(points) => points,
            _ => 0,
        }
    }

    /// The name printed on the card, as an owned string.
    pub fn to_string(&self) -> (text: String)
        ensures
            text@ == self.spec_name(),
    {
        self.name().to_string()
    }

    /// The card at the given place of the catalogue, which lists every card once, age by age.
    pub open spec fn spec_nth(index: usize) -> Card {
        match index {
            0 => Card::LumberYard,
            1 => Card::StonePit,
            2 => Card::ClayPool,
            3 => Card::OreVein,
            4 => Card::TreeFarm,
            5 => Card::Excavation,
            6 => Card::ClayPit,
            7 => Card::TimberYard,
            8 => Card::ForestCave,
            9 => Card::Mine,
            10 => Card::Loom1,
            11 => Card::Glassworks1,
            12 => Card::Press1,
            13 => Card::Pawnshop,
            14 => Card::Baths,
            15 => Card::Altar,
            16 => Card::Theater,
            17 => Card::Tavern,
            18 => Card::EastTradingPost,
            19 => Card::WestTradingPost,
            20 => Card::Marketplace,
            21 => Card::Apothecary,
            22 => Card::Workshop,
            23 => Card::Scriptorium,
            24 => Card::Stockade,
            25 => Card::Barracks,
            26 => Card::GuardTower,
            27 => Card::Sawmill,
            28 => Card::Quarry,
            29 => Card::Brickyard,
            30 => Card::Foundry,
            31 => Card::Loom2,
            32 => Card::Glassworks2,
            33 => Card::Press2,
            34 => Card::Aqueduct,
            35 => Card::Temple,
            36 => Card::Statue,
            37 => Card::Courthouse,
            38 => Card::Forum,
            39 => Card::Caravansery,
            40 => Card::Vineyard,
            41 => Card::Bazar,
            42 => Card::Dispensary,
            43 => Card::Laboratory,
            44 => Card::Library,
            45 => Card::School,
            46 => Card::Walls,
            47 => Card::TrainingGround,
            48 => Card::Stables,
            49 => Card::ArcheryRange,
            50 => Card::Pantheon,
            51 => Card::Gardens,
            52 => Card::TownHall,
            53 => Card::Palace,
            54 => Card::Senate,
            55 => Card::Haven,
            56 => Card::Lighthouse,
            57 => Card::ChamberOfCommerce,
            58 => Card::Arena,
            59 => Card::Lodge,
            60 => Card::Observatory,
            61 => Card::University,
            62 => Card::Academy,
            63 => Card::Study,
            64 => Card::Fortifications,
            65 => Card::Circus,
            66 => Card::Arsenal,
            67 => Card::SiegeWorkshop,
            68 => Card::WorkersGuild,
            69 => Card::CraftsmensGuild,
            70 => Card::TradersGuild,
            71 => Card::PhilosophersGuild,
            72 => Card::SpiesGuild,
            73 => Card::StrategistsGuild,
            74 => Card::ShipownersGuild,
            75 => Card::ScientistsGuild,
            76 => Card::MagistratesGuild,
            _ => Card::BuildersGuild,
        }
    }

    /// The card at the given place of the catalogue, which lists every card once, age by age.
    #[verifier::when_used_as_spec(spec_nth)]
    pub fn nth(index: usize) -> (card: Card)
        ensures
            card == Card::spec_nth(index),
    {
        match index {
            0 => Card::LumberYard,
            1 => Card::StonePit,
            2 => Card::ClayPool,
            3 => Card::OreVein,
            4 => Card::TreeFarm,
            5 => Card::Excavation,
            6 => Card::ClayPit,
            7 => Card::TimberYard,
            8 => Card::ForestCave,
            9 => Card::Mine,
            10 => Card::Loom1,
            11 => Card::Glassworks1,
            12 => Card::Press1,
            13 => Card::Pawnshop,
            14 => Card::Baths,
            15 => Card::Altar,
            16 => Card::Theater,
            17 => Card::Tavern,
            18 => Card::EastTradingPost,
            19 => Card::WestTradingPost,
            20 => Card::Marketplace,
            21 => Card::Apothecary,
            22 => Card::Workshop,
            23 => Card::Scriptorium,
            24 => Card::Stockade,
            25 => Card::Barracks,
            26 => Card::GuardTower,
            27 => Card::Sawmill,
            28 => Card::Quarry,
            29 => Card::Brickyard,
            30 => Card::Foundry,
            31 => Card::Loom2,
            32 => Card::Glassworks2,
            33 => Card::Press2,
            34 => Card::Aqueduct,
            35 => Card::Temple,
            36 => Card::Statue,
            37 => Card::Courthouse,
            38 => Card::Forum,
            39 => Card::Caravansery,
            40 => Card::Vineyard,
            41 => Card::Bazar,
            42 => Card::Dispensary,
            43 => Card::Laboratory,
            44 => Card::Library,
            45 => Card::School,
            46 => Card::Walls,
            47 => Card::TrainingGround,
            48 => Card::Stables,
            49 => Card::ArcheryRange,
            50 => Card::Pantheon,
            51 => Card::Gardens,
            52 => Card::TownHall,
            53 => Card::Palace,
            54 => Card::Senate,
            55 => Card::Haven,
            56 => Card::Lighthouse,
            57 => Card::ChamberOfCommerce,
            58 => Card::Arena,
            59 => Card::Lodge,
            60 => Card::Observatory,
            61 => Card::University,
            62 => Card::Academy,
            63 => Card::Study,
            64 => Card::Fortifications,
            65 => Card::Circus,
            66 => Card::Arsenal,
            67 => Card::SiegeWorkshop,
            68 => Card::WorkersGuild,
            69 => Card::CraftsmensGuild,
            70 => Card::TradersGuild,
            71 => Card::PhilosophersGuild,
            72 => Card::SpiesGuild,
            73 => Card::StrategistsGuild,
            74 => Card::ShipownersGuild,
            75 => Card::ScientistsGuild,
            76 => Card::MagistratesGuild,
            _ => Card::BuildersGuild,
        }
    }

    /// Every card, each once, age by age.
    pub open spec fn catalogue() -> Seq<Card> {
        Seq::new(CATALOGUE_SIZE as nat, |index: int| Card::spec_nth(index as usize))
    }

    /// Every card, each once, age by age.
    pub fn all() -> (cards: Vec<Card>)
        ensures
            cards@ == Card::catalogue(),
    {
        let mut cards: Vec<Card> = Vec::new();
        let mut index: usize = 0;
        while index < CATALOGUE_SIZE
            invariant
                index <= CATALOGUE_SIZE,
                cards@ == Seq::new(index as nat, |index: int| Card::spec_nth(index as usize)),
            decreases CATALOGUE_SIZE - index,
        {
            cards.push(Card::nth(index));
            assert(cards@ =~= Seq::new((index + 1) as nat, |index: int| Card::spec_nth(index as usize)));
            index = index + 1;
        }
        cards
    }
}

/// No card costs more than three of any kind, and none has a negative cost.
pub proof fn lemma_cost_is_small(card: Card)
    ensures
        card.spec_cost()@.within(0, 3),
{
    assert forall|resource: Resource| 0 <= #[trigger] card.spec_cost()@.amount(resource) <= 3 by {}
}

/// No card produces coins as a resource.
pub proof fn lemma_production_is_material(card: Card)
    ensures
        match card.spec_power().production() {
            Some(production) => !production.yields(Resource::Coins),
            None => true,
        },
{
    match card.spec_power().production() {
        Some(Production::Choice(resources)) => {
            assert forall|i: int| 0 <= i < resources.len() implies resources[i] != Resource::Coins by {}
        },
        _ => {},
    }
}

} // verus!
