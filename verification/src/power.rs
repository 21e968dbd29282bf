//! What a card or a wonder stage does for a player: it produces resources, is worth victory points,
//! shows a science symbol, and so on.

use vstd::prelude::*;
use vstd::string::StringExecFns;

use crate::card::Card;
use crate::card::Colour;
use crate::resources::Resource;
use crate::utils::join_texts;
use crate::utils::joined;
use crate::utils::plural_of;
use crate::utils::plural_text;
use crate::utils::text_views;

verus! {

/// What a brown, grey or yellow resource card yields.
#[derive(Debug, Clone)]
pub enum ProducedResources {
    /// One unit of a resource.
    Single(Resource),
    /// Two units of a resource, of which none, one or both may go towards a cost.
    Double(Resource),
    /// One unit of one of the listed resources, picked when a cost is paid.
    Choice(Vec<Resource>),
}

/// The mathematical content of a [`ProducedResources`].
#[verifier::ext_equal]
pub enum Production {
    Single(Resource),
    Double(Resource),
    Choice(Seq<Resource>),
}

impl View for ProducedResources {
    type V = Production;

    open spec fn view(&self) -> Production {
        match self {
            ProducedResources::Single(resource) => Production::Single(*resource),
            ProducedResources::Double(resource) => Production::Double(*resource),
            ProducedResources::Choice(resources) => Production::Choice(resources@),
        }
    }
}

impl Production {
    /// True if a unit of `resource` can come out of this production.
    pub open spec fn yields(self, resource: Resource) -> bool {
        match self {
            Production::Single(r) => r == resource,
            Production::Double(r) => r == resource,
            Production::Choice(resources) => resources.contains(resource),
        }
    }

    /// The number of units that can go towards one cost.
    pub open spec fn units(self) -> int {
        match self {
            Production::Single(_) => 1,
            Production::Double(_) => 2,
            Production::Choice(_) => 1,
        }
    }
}

/// The three symbols found on science cards.
#[derive(Debug, Clone, Copy, Eq, Hash, PartialEq, Structural)]
pub enum ScienceItem {
    Compass,
    Cog,
    Tablet,
}

/// Something in the game that can be counted, such as a card that a player has built or a defeat
/// token that a player holds.
#[derive(Debug, Clone, Copy, PartialEq, Eq, Structural)]
pub enum CountableGameItem {
    CountableCard(Card),
    DefeatToken,
    CompletedWonderStage,
}

/// Which countable items a reward looks at.
#[derive(Debug, Clone, Copy, PartialEq, Eq, Structural)]
pub enum GameItemFilter {
    /// Built cards of the given colour.
    CardOfColour(Colour),
    /// Defeat tokens.
    DefeatToken,
    /// Completed wonder stages.
    CompletedWonderStage,
}

impl GameItemFilter {
    /// True if `item` is one of the things that this filter counts.
    pub open spec fn spec_counts(self, item: CountableGameItem) -> bool {
        match (self, item) {
            (GameItemFilter::CardOfColour(colour), CountableGameItem::CountableCard(card)) => card.colour()
                == colour,
            (GameItemFilter::DefeatToken, CountableGameItem::DefeatToken) => true,
            (GameItemFilter::CompletedWonderStage, CountableGameItem::CompletedWonderStage) => true,
            _ => false,
        }
    }

    /// True if `item` is one of the things that this filter counts.
    #[verifier::when_used_as_spec(spec_counts)]
    pub fn counts(self, item: CountableGameItem) -> (yes: bool)
        ensures
            yes == self.spec_counts(item),
    {
        match (self, item) {
            (GameItemFilter::CardOfColour(colour), CountableGameItem::CountableCard(card)) => card.colour()
                == colour,
            (GameItemFilter::DefeatToken, CountableGameItem::DefeatToken) => true,
            (GameItemFilter::CompletedWonderStage, CountableGameItem::CompletedWonderStage) => true,
            _ => false,
        }
    }
}

/// Coins and victory points for each counted item that a player, the two neighbours, or all three
/// have. For example, one victory point for each brown card of the neighbours.
#[derive(Debug, Clone, Copy, PartialEq, Eq, Structural)]
pub struct PerGameItemReward {
    /// The items that are counted.
    pub game_item: GameItemFilter,
    /// True if the player's own items are counted.
    pub me: bool,
    /// True if the items of the player's two neighbours are counted.
    pub neighbours: bool,
    pub coins_per_thing: u32,
    pub points_per_thing: u32,
}

/// What a card or a wonder stage does for a player.
#[derive(Debug, Clone)]
pub enum Power {
    /// Produces resources that a neighbour can buy (brown and grey cards).
    PurchasableProducer(ProducedResources),
    /// Produces resources that only the owner can use (yellow cards).
    Producer(ProducedResources),
    /// Is worth victory points.
    VictoryPoints(u32),
    /// Gives coins.
    Coins(u32),
    /// Brown card resources of the anti-clockwise neighbour cost 1 coin rather than 2.
    BuyBrownAntiClockwise,
    /// Brown card resources of the clockwise neighbour cost 1 coin rather than 2.
    BuyBrownClockwise,
    /// Grey card resources of either neighbour cost 1 coin rather than 2.
    BuyGrey,
    /// Shows the listed science symbols.
    Science(Vec<ScienceItem>),
    /// Gives shields.
    Shields(u32),
    /// Gives coins and victory points for counted items of the player or the neighbours.
    PerGameItemRewards(Vec<PerGameItemReward>),
}

/// The mathematical content of a [`Power`].
#[verifier::ext_equal]
pub enum Ability {
    PurchasableProducer(Production),
    Producer(Production),
    VictoryPoints(u32),
    Coins(u32),
    BuyBrownAntiClockwise,
    BuyBrownClockwise,
    BuyGrey,
    Science(Seq<ScienceItem>),
    Shields(u32),
    PerGameItemRewards(Seq<PerGameItemReward>),
}

impl View for Power {
    type V = Ability;

    open spec fn view(&self) -> Ability {
        match self {
            Power::PurchasableProducer(produced) => Ability::PurchasableProducer(produced@),
            Power::Producer(produced) => Ability::Producer(produced@),
            Power::VictoryPoints(points) => Ability::VictoryPoints(*points),
            Power::Coins(coins) => Ability::Coins(*coins),
            Power::BuyBrownAntiClockwise => Ability::BuyBrownAntiClockwise,
            Power::BuyBrownClockwise => Ability::BuyBrownClockwise,
            Power::BuyGrey => Ability::BuyGrey,
            Power::Science(items) => Ability::Science(items@),
            Power::Shields(shields) => Ability::Shields(*shields),
            Power::PerGameItemRewards(rewards) => Ability::PerGameItemRewards(rewards@),
        }
    }
}

impl Ability {
    /// The reward that [`Power::per_card_reward`] builds.
    pub open spec fn per_card_reward(
        colour: Colour,
        me: bool,
        neighbours: bool,
        coins_per_thing: u32,
        points_per_thing: u32,
    ) -> Ability {
        Ability::PerGameItemRewards(
            seq![
                PerGameItemReward {
                    game_item: GameItemFilter::CardOfColour(colour),
                    me,
                    neighbours,
                    coins_per_thing,
                    points_per_thing,
                },
            ],
        )
    }

    /// What the owner of the card produces with it, whether or not a neighbour may buy it.
    pub open spec fn production(self) -> Option<Production> {
        match self {
            Ability::PurchasableProducer(produced) => Some(produced),
            Ability::Producer(produced) => Some(produced),
            _ => None,
        }
    }

    /// What a neighbour may buy from the card.
    pub open spec fn purchasable(self) -> Option<Production> {
        match self {
            Ability::PurchasableProducer(produced) => Some(produced),
            _ => None,
        }
    }

    /// The victory points that the card is worth by itself.
    pub open spec fn points(self) -> int {
        match self {
            Ability::VictoryPoints(points) => points as int,
            _ => 0,
        }
    }
}

impl Power {
    /// A reward of coins and victory points for each built card of the given colour: those of the
    /// player if `me` is set, those of the two neighbours if `neighbours` is set.
    pub fn per_card_reward(
        colour: Colour,
        me: bool,
        neighbours: bool,
        coins_per_thing: u32,
        points_per_thing: u32,
    ) -> (power: Power)
        ensures
            power@ =~~= Ability::per_card_reward(colour, me, neighbours, coins_per_thing, points_per_thing),
    {
        Power::PerGameItemRewards(
            vec![
                PerGameItemReward {
                    game_item: GameItemFilter::CardOfColour(colour),
                    me,
                    neighbours,
                    coins_per_thing,
                    points_per_thing,
                },
            ],
        )
    }
}

impl ScienceItem {
    /// The name of the symbol.
    pub open spec fn spec_name(&self) -> Seq<char> {
        match self {
            ScienceItem::Compass => "Compass"@,
            ScienceItem::Cog => "Cog"@,
            ScienceItem::Tablet => "Tablet"@,
        }
    }

    /// The name of the symbol.
    pub fn name(&self) -> (name: &'static str)
        ensures
            name@ == self.spec_name(),
    {
        match self {
            ScienceItem::Compass => "Compass",
            ScienceItem::Cog => "Cog",
            ScienceItem::Tablet => "Tablet",
        }
    }

    /// The name of the symbol, as an owned string.
    pub fn to_string(&self) -> (text: String)
        ensures
            text@ == self.spec_name(),
    {
        self.name().to_string()
    }
}

/// The texts of the resources of a choice: each as one unit of the resource.
pub open spec fn unit_texts(resources: Seq<Resource>) -> Seq<Seq<char>> {
    resources.map_values(|resource: Resource| "1 "@ + resource.spec_name())
}

/// The texts of the symbols of a science card.
pub open spec fn symbol_texts(items: Seq<ScienceItem>) -> Seq<Seq<char>> {
    items.map_values(|item: ScienceItem| item.spec_name() + " symbol"@)
}

/// The text of what a card produces, for example `1 wood or 1 clay`.
pub open spec fn production_text(production: Production) -> Seq<char> {
    match production {
        Production::Single(resource) => "1 "@ + resource.spec_name(),
        Production::Double(resource) => "2 "@ + resource.spec_name(),
        Production::Choice(resources) => joined(unit_texts(resources), " or "@),
    }
}

/// The text of what a reward counts.
pub open spec fn filter_text(filter: GameItemFilter) -> Seq<char> {
    match filter {
        GameItemFilter::CardOfColour(colour) => colour.spec_name() + " card"@,
        GameItemFilter::DefeatToken => "defeat token"@,
        GameItemFilter::CompletedWonderStage => "completed wonder stage"@,
    }
}

/// The text of whose items a reward counts.
pub open spec fn owner_text(me: bool, neighbours: bool) -> Seq<char> {
    if me && neighbours {
        "you and your neighbours"@
    } else if me {
        "you"@
    } else if neighbours {
        "your neighbours"@
    } else {
        "nobody"@
    }
}

/// The text of what a reward gives for each item: the coins, if any, and the victory points, if
/// any.
pub open spec fn gain_texts(reward: PerGameItemReward) -> Seq<Seq<char>> {
    (if reward.coins_per_thing > 0 {
        seq![plural_text(reward.coins_per_thing as int, "coin"@)]
    } else {
        Seq::empty()
    }) + (if reward.points_per_thing > 0 {
        seq![plural_text(reward.points_per_thing as int, "VP"@)]
    } else {
        Seq::empty()
    })
}

/// The text of a reward, for example `1 coin and 1 VP per brown card of you`.
pub open spec fn reward_text(reward: PerGameItemReward) -> Seq<char> {
    joined(gain_texts(reward), " and "@) + " per "@ + filter_text(reward.game_item) + " of "@ + owner_text(
        reward.me,
        reward.neighbours,
    )
}

/// The texts of a list of rewards.
pub open spec fn reward_texts(rewards: Seq<PerGameItemReward>) -> Seq<Seq<char>> {
    rewards.map_values(|reward: PerGameItemReward| reward_text(reward))
}

/// The text of what a card does.
pub open spec fn ability_text(ability: Ability) -> Seq<char> {
    match ability {
        Ability::PurchasableProducer(production) => production_text(production),
        Ability::Producer(production) => production_text(production),
        Ability::VictoryPoints(points) => plural_text(points as int, "VP"@),
        Ability::Coins(coins) => plural_text(coins as int, "coin"@),
        Ability::BuyBrownAntiClockwise => "Buy brown cards for 1 coin anti-clockwise"@,
        Ability::BuyBrownClockwise => "Buy brown cards for 1 coin clockwise"@,
        Ability::BuyGrey => "Buy grey cards for 1 coin"@,
        Ability::Science(items) => joined(symbol_texts(items), " or "@),
        Ability::Shields(shields) => plural_text(shields as int, "shield"@),
        Ability::PerGameItemRewards(rewards) => joined(reward_texts(rewards), " and "@),
    }
}

impl ProducedResources {
    /// Writes what is produced: see [`production_text`].
    pub fn to_string(&self) -> (text: String)
        ensures
            text@ == production_text(self@),
    {
        match self {
            ProducedResources::Single(resource) => {
                let mut text = "1 ".to_string();
                text.append(resource.name());
                text
            },
            ProducedResources::Double(resource) => {
                let mut text = "2 ".to_string();
                text.append(resource.name());
                text
            },
            ProducedResources::Choice(resources) => {
                let mut texts: Vec<String> = Vec::new();
                let mut i: usize = 0;
                assert(text_views(texts@) =~= unit_texts(resources@.take(0)));
                while i < resources.len()
                    invariant
                        i <= resources.len(),
                        text_views(texts@) == unit_texts(resources@.take(i as int)),
                    decreases resources.len() - i,
                {
                    let ghost before = texts@;
                    let mut text = "1 ".to_string();
                    text.append(resources[i].name());
                    let ghost added = text@;
                    texts.push(text);
                    assert(text_views(texts@) =~= text_views(before).push(added));
                    assert(unit_texts(resources@.take(i + 1)) =~= unit_texts(resources@.take(i as int)).push(
                        added,
                    ));
                    i = i + 1;
                }
                assert(resources@.take(resources.len() as int) =~= resources@);
                join_texts(&texts, " or ")
            },
        }
    }
}

impl PerGameItemReward {
    /// Writes the reward: see [`reward_text`].
    pub fn to_string(&self) -> (text: String)
        ensures
            text@ == reward_text(*self),
    {
        let mut gains: Vec<String> = Vec::new();
        assert(text_views(gains@) =~= Seq::empty());
        if self.coins_per_thing > 0 {
            let gain = plural_of(self.coins_per_thing as i128, "coin");
            gains.push(gain);
        }
        if self.points_per_thing > 0 {
            let gain = plural_of(self.points_per_thing as i128, "VP");
            gains.push(gain);
        }
        assert(text_views(gains@) =~= gain_texts(*self));
        let mut text = join_texts(&gains, " and ");
        text.append(" per ");
        match self.game_item {
            GameItemFilter::CardOfColour(colour) => {
                text.append(colour.name());
                text.append(" card");
                assert(text@ =~= joined(gain_texts(*self), " and "@) + " per "@ + (colour.spec_name() + " card"@));
            },
            GameItemFilter::DefeatToken => {
                text.append("defeat token");
            },
            GameItemFilter::CompletedWonderStage => {
                text.append("completed wonder stage");
            },
        }
        text.append(" of ");
        if self.me && self.neighbours {
            text.append("you and your neighbours");
        } else if self.me {
            text.append("you");
        } else if self.neighbours {
            text.append("your neighbours");
        } else {
            text.append("nobody");
        }
        text
    }
}

impl Power {
    /// Writes what the card does: see [`ability_text`].
    pub fn to_string(&self) -> (text: String)
        ensures
            text@ == ability_text(self@),
    {
        match self {
            Power::PurchasableProducer(produced) => produced.to_string(),
            Power::Producer(produced) => produced.to_string(),
            Power::VictoryPoints(points) => plural_of(*points as i128, "VP"),
            Power::Coins(coins) => plural_of(*coins as i128, "coin"),
            Power::BuyBrownAntiClockwise => "Buy brown cards for 1 coin anti-clockwise".to_string(),
            Power::BuyBrownClockwise => "Buy brown cards for 1 coin clockwise".to_string(),
            Power::BuyGrey => "Buy grey cards for 1 coin".to_string(),
            Power::Science(items) => {
                let mut texts: Vec<String> = Vec::new();
                let mut i: usize = 0;
                assert(text_views(texts@) =~= symbol_texts(items@.take(0)));
                while i < items.len()
                    invariant
                        i <= items.len(),
                        text_views(texts@) == symbol_texts(items@.take(i as int)),
                    decreases items.len() - i,
                {
                    let ghost before = texts@;
                    let mut text = items[i].to_string();
                    text.append(" symbol");
                    let ghost added = text@;
                    texts.push(text);
                    assert(text_views(texts@) =~= text_views(before).push(added));
                    assert(symbol_texts(items@.take(i + 1)) =~= symbol_texts(items@.take(i as int)).push(added));
                    i = i + 1;
                }
                assert(items@.take(items.len() as int) =~= items@);
                join_texts(&texts, " or ")
            },
            Power::Shields(shields) => plural_of(*shields as i128, "shield"),
            Power::PerGameItemRewards(rewards) => {
                let mut texts: Vec<String> = Vec::new();
                let mut i: usize = 0;
                assert(text_views(texts@) =~= reward_texts(rewards@.take(0)));
                while i < rewards.len()
                    invariant
                        i <= rewards.len(),
                        text_views(texts@) == reward_texts(rewards@.take(i as int)),
                    decreases rewards.len() - i,
                {
                    let ghost before = texts@;
                    let text = rewards[i].to_string();
                    let ghost added = text@;
                    texts.push(text);
                    assert(text_views(texts@) =~= text_views(before).push(added));
                    assert(reward_texts(rewards@.take(i + 1)) =~= reward_texts(rewards@.take(i as int)).push(
                        added,
                    ));
                    i = i + 1;
                }
                assert(rewards@.take(rewards.len() as int) =~= rewards@);
                join_texts(&texts, " and ")
            },
        }
    }
}

} // verus!
