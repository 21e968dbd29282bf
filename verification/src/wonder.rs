//! The wonders: which resource each one starts with and what its stages cost.

use vstd::prelude::*;

use crate::resources::Cost;
use crate::resources::Resource;

verus! {

/// The seven wonders.
#[derive(Debug, Copy, Clone, Eq, PartialEq, Structural)]
pub enum WonderType {
    ColossusOfRhodes,
    LighthouseOfAlexandria,
    TempleOfArtemis,
    HangingGardensOfBabylon,
    StatueOfZeus,
    MausoleumOfHalicarnassus,
    PyramidsOfGiza,
}

/// The two sides of a wonder board, which differ in their stages.
#[derive(Debug, Copy, Clone, Eq, PartialEq, Structural)]
pub enum WonderSide {
    A,
    B,
}

/// The wonder board of a player: a wonder, and the side that the player plays.
#[derive(Debug, Copy, Clone, Eq, PartialEq, Structural)]
pub struct WonderBoard {
    pub wonder_type: WonderType,
    pub wonder_side: WonderSide,
}

impl WonderType {
    /// The name of the wonder.
    pub open spec fn spec_name(&self) -> Seq<char> {
        match self {
            WonderType::ColossusOfRhodes => "The Colossus of Rhodes"@,
            WonderType::LighthouseOfAlexandria => "The Lighthouse of Alexandria"@,
            WonderType::TempleOfArtemis => "The Temple of Artemis in Aphesus"@,
            WonderType::HangingGardensOfBabylon => "The Hanging Gardens of Babylon"@,
            WonderType::StatueOfZeus => "The Statue of Zeus in Olympia"@,
            WonderType::MausoleumOfHalicarnassus => "The Mausoleum of Halicarnassus"@,
            WonderType::PyramidsOfGiza => "The Pyramids of Giza"@,
        }
    }

    /// The name of the wonder.
    pub fn name(&self) -> (name: &'static str)
        ensures
            name@ == self.spec_name(),
    {
        match self {
            WonderType::ColossusOfRhodes => "The Colossus of Rhodes",
            WonderType::LighthouseOfAlexandria => "The Lighthouse of Alexandria",
            WonderType::TempleOfArtemis => "The Temple of Artemis in Aphesus",
            WonderType::HangingGardensOfBabylon => "The Hanging Gardens of Babylon",
            WonderType::StatueOfZeus => "The Statue of Zeus in Olympia",
            WonderType::MausoleumOfHalicarnassus => "The Mausoleum of Halicarnassus",
            WonderType::PyramidsOfGiza => "The Pyramids of Giza",
        }
    }

    /// The resource of which the wonder gives its owner one unit from the start.
    pub open spec fn spec_starting_resource(&self) -> Resource {
        match self {
            WonderType::ColossusOfRhodes => Resource::Ore,
            WonderType::LighthouseOfAlexandria => Resource::Glass,
            WonderType::TempleOfArtemis => Resource::Papyrus,
            WonderType::HangingGardensOfBabylon => Resource::Clay,
            WonderType::StatueOfZeus => Resource::Wood,
            WonderType::MausoleumOfHalicarnassus => Resource::Loom,
            WonderType::PyramidsOfGiza => Resource::Stone,
        }
    }

    /// The resource of which the wonder gives its owner one unit from the start.
    #[verifier::when_used_as_spec(spec_starting_resource)]
    pub fn starting_resource(&self) -> (resource: Resource)
        ensures
            resource == self.spec_starting_resource(),
            resource != Resource::Coins,
    {
        match self {
            WonderType::ColossusOfRhodes => Resource::Ore,
            WonderType::LighthouseOfAlexandria => Resource::Glass,
            WonderType::TempleOfArtemis => Resource::Papyrus,
            WonderType::HangingGardensOfBabylon => Resource::Clay,
            WonderType::StatueOfZeus => Resource::Wood,
            WonderType::MausoleumOfHalicarnassus => Resource::Loom,
            WonderType::PyramidsOfGiza => Resource::Stone,
        }
    }

    /// The seven wonders, each once.
    pub open spec fn catalogue() -> Seq<WonderType> {
        seq![
            WonderType::ColossusOfRhodes,
            WonderType::LighthouseOfAlexandria,
            WonderType::TempleOfArtemis,
            WonderType::HangingGardensOfBabylon,
            WonderType::StatueOfZeus,
            WonderType::MausoleumOfHalicarnassus,
            WonderType::PyramidsOfGiza,
        ]
    }

    /// The seven wonders, each once.
    pub fn all() -> (wonders: Vec<WonderType>)
        ensures
            wonders@ == WonderType::catalogue(),
    {
        vec![
            WonderType::ColossusOfRhodes,
            WonderType::LighthouseOfAlexandria,
            WonderType::TempleOfArtemis,
            WonderType::HangingGardensOfBabylon,
            WonderType::StatueOfZeus,
            WonderType::MausoleumOfHalicarnassus,
            WonderType::PyramidsOfGiza,
        ]
    }
}

impl WonderBoard {
    /// The name of the wonder.
    pub fn name(&self) -> (name: &'static str)
        ensures
            name@ == self.wonder_type.spec_name(),
    {
        self.wonder_type.name()
    }

    /// The resource of which the wonder gives its owner one unit from the start.
    pub open spec fn spec_starting_resource(&self) -> Resource {
        self.wonder_type.spec_starting_resource()
    }

    /// The resource of which the wonder gives its owner one unit from the start.
    #[verifier::when_used_as_spec(spec_starting_resource)]
    pub fn starting_resource(&self) -> (resource: Resource)
        ensures
            resource == self.spec_starting_resource(),
            resource != Resource::Coins,
    {
        self.wonder_type.starting_resource()
    }

    /// The cost of the stage at `position`, counted from 0, on the boards whose stages are known: both
    /// sides of the Colossus of Rhodes and of the Lighthouse of Alexandria.
    pub open spec fn stage_cost(&self, position: u32) -> Option<Cost> {
        match (self.wonder_type, self.wonder_side, position) {
            (WonderType::ColossusOfRhodes, WonderSide::A, 0) => Some(
                Cost { coins: 0, wood: 2, stone: 0, ore: 0, clay: 0, glass: 0, loom: 0, papyrus: 0 },
            ),
            (WonderType::ColossusOfRhodes, WonderSide::A, 1) => Some(
                Cost { coins: 0, wood: 0, stone: 0, ore: 0, clay: 3, glass: 0, loom: 0, papyrus: 0 },
            ),
            (WonderType::ColossusOfRhodes, WonderSide::A, 2) => Some(
                Cost { coins: 0, wood: 0, stone: 0, ore: 4, clay: 0, glass: 0, loom: 0, papyrus: 0 },
            ),
            (WonderType::ColossusOfRhodes, WonderSide::B, 0) => Some(
                Cost { coins: 0, wood: 0, stone: 3, ore: 0, clay: 0, glass: 0, loom: 0, papyrus: 0 },
            ),
            (WonderType::ColossusOfRhodes, WonderSide::B, 1) => Some(
                Cost { coins: 0, wood: 0, stone: 0, ore: 4, clay: 0, glass: 0, loom: 0, papyrus: 0 },
            ),
            (WonderType::LighthouseOfAlexandria, WonderSide::A, 0) => Some(
                Cost { coins: 0, wood: 0, stone: 2, ore: 0, clay: 0, glass: 0, loom: 0, papyrus: 0 },
            ),
            (WonderType::LighthouseOfAlexandria, WonderSide::A, 1) => Some(
                Cost { coins: 0, wood: 0, stone: 0, ore: 2, clay: 0, glass: 0, loom: 0, papyrus: 0 },
            ),
            (WonderType::LighthouseOfAlexandria, WonderSide::A, 2) => Some(
                Cost { coins: 0, wood: 0, stone: 0, ore: 0, clay: 0, glass: 2, loom: 0, papyrus: 0 },
            ),
            (WonderType::LighthouseOfAlexandria, WonderSide::B, 0) => Some(
                Cost { coins: 0, wood: 0, stone: 0, ore: 0, clay: 2, glass: 0, loom: 0, papyrus: 0 },
            ),
            (WonderType::LighthouseOfAlexandria, WonderSide::B, 1) => Some(
                Cost { coins: 0, wood: 2, stone: 0, ore: 0, clay: 0, glass: 0, loom: 0, papyrus: 0 },
            ),
            (WonderType::LighthouseOfAlexandria, WonderSide::B, 2) => Some(
                Cost { coins: 0, wood: 0, stone: 3, ore: 0, clay: 0, glass: 0, loom: 0, papyrus: 0 },
            ),
            _ => None,
        }
    }

    /// The cost of the stage at `position`, counted from 0. The stage has to be one of those that
    /// [`WonderBoard::stage_cost`] knows.
    pub fn cost(&self, position: u32) -> (cost: Cost)
        requires
            self.stage_cost(position) is Some,
        ensures
            Some(cost) == self.stage_cost(position),
    {
        match (self.wonder_type, self.wonder_side, position) {
            (WonderType::ColossusOfRhodes, WonderSide::A, 0) => Cost::wood(2),
            (WonderType::ColossusOfRhodes, WonderSide::A, 1) => Cost::clay(3),
            (WonderType::ColossusOfRhodes, WonderSide::A, 2) => Cost::ore(4),
            (WonderType::ColossusOfRhodes, WonderSide::B, 0) => Cost::stone(3),
            (WonderType::ColossusOfRhodes, WonderSide::B, 1) => Cost::ore(4),
            (WonderType::LighthouseOfAlexandria, WonderSide::A, 0) => Cost::stone(2),
            (WonderType::LighthouseOfAlexandria, WonderSide::A, 1) => Cost::ore(2),
            (WonderType::LighthouseOfAlexandria, WonderSide::A, 2) => Cost::glass(2),
            (WonderType::LighthouseOfAlexandria, WonderSide::B, 0) => Cost::clay(2),
            (WonderType::LighthouseOfAlexandria, WonderSide::B, 1) => Cost::wood(2),
            (WonderType::LighthouseOfAlexandria, WonderSide::B, 2) => Cost::stone(3),
            _ => Cost::free(),
        }
    }
}

} // verus!
