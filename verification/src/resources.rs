//! Resource kinds and the baskets of resources that costs are counted in.

use vstd::prelude::*;

use crate::utils::counted;
use crate::utils::decimal;
use crate::utils::join_texts;
use crate::utils::joined;
use crate::utils::plural;
use crate::utils::plural_text;
use crate::utils::text_views;

verus! {

/// A kind of resource: the four raw materials, the three manufactured goods, and coins.
#[derive(Debug, Clone, Copy, PartialEq, Eq, Hash, Structural)]
pub enum Resource {
    Wood,
    Stone,
    Ore,
    Clay,
    Glass,
    Loom,
    Papyrus,
    Coins,
}

impl Resource {
    /// The name of the resource.
    pub open spec fn spec_name(&self) -> Seq<char> {
        match self {
            Resource::Wood => "wood"@,
            Resource::Stone => "stone"@,
            Resource::Ore => "ore"@,
            Resource::Clay => "clay"@,
            Resource::Glass => "glass"@,
            Resource::Loom => "loom"@,
            Resource::Papyrus => "papyrus"@,
            Resource::Coins => "coins"@,
        }
    }

    /// The name of the resource.
    pub fn name(&self) -> (name: &'static str)
        ensures
            name@ == self.spec_name(),
    {
        match self {
            Resource::Wood => "wood",
            Resource::Stone => "stone",
            Resource::Ore => "ore",
            Resource::Clay => "clay",
            Resource::Glass => "glass",
            Resource::Loom => "loom",
            Resource::Papyrus => "papyrus",
            Resource::Coins => "coins",
        }
    }

    /// The name of the resource, as an owned string.
    pub fn to_string(&self) -> (text: String)
        ensures
            text@ == self.spec_name(),
    {
        self.name().to_string()
    }
}

/// The mathematical content of a [`Cost`]: one unbounded count per resource kind. A positive count is
/// an amount still owed, a negative count is a surplus.
pub struct Basket {
    pub coins: int,
    pub wood: int,
    pub stone: int,
    pub ore: int,
    pub clay: int,
    pub glass: int,
    pub loom: int,
    pub papyrus: int,
}

impl Basket {
    /// The basket in which nothing is owed.
    pub open spec fn empty() -> Basket {
        Basket { coins: 0, wood: 0, stone: 0, ore: 0, clay: 0, glass: 0, loom: 0, papyrus: 0 }
    }

    /// The count held for one kind.
    pub open spec fn amount(self, resource: Resource) -> int {
        match resource {
            Resource::Wood => self.wood,
            Resource::Stone => self.stone,
            Resource::Ore => self.ore,
            Resource::Clay => self.clay,
            Resource::Glass => self.glass,
            Resource::Loom => self.loom,
            Resource::Papyrus => self.papyrus,
            Resource::Coins => self.coins,
        }
    }

    /// The basket that holds `n` for `resource` and the counts of `self` for every other kind.
    pub open spec fn with(self, resource: Resource, n: int) -> Basket {
        match resource {
            Resource::Wood => Basket { wood: n, ..self },
            Resource::Stone => Basket { stone: n, ..self },
            Resource::Ore => Basket { ore: n, ..self },
            Resource::Clay => Basket { clay: n, ..self },
            Resource::Glass => Basket { glass: n, ..self },
            Resource::Loom => Basket { loom: n, ..self },
            Resource::Papyrus => Basket { papyrus: n, ..self },
            Resource::Coins => Basket { coins: n, ..self },
        }
    }

    /// One unit of `resource` taken off.
    pub open spec fn minus(self, resource: Resource) -> Basket {
        self.with(resource, self.amount(resource) - 1)
    }

    /// `n` coins added to what is owed.
    pub open spec fn charge(self, n: int) -> Basket {
        Basket { coins: self.coins + n, ..self }
    }

    /// Kind by kind, the counts of `self` plus those of `other`.
    pub open spec fn plus(self, other: Basket) -> Basket {
        Basket {
            coins: self.coins + other.coins,
            wood: self.wood + other.wood,
            stone: self.stone + other.stone,
            ore: self.ore + other.ore,
            clay: self.clay + other.clay,
            glass: self.glass + other.glass,
            loom: self.loom + other.loom,
            papyrus: self.papyrus + other.papyrus,
        }
    }

    /// Kind by kind, the counts of `self` less those of `other`.
    pub open spec fn less(self, other: Basket) -> Basket {
        Basket {
            coins: self.coins - other.coins,
            wood: self.wood - other.wood,
            stone: self.stone - other.stone,
            ore: self.ore - other.ore,
            clay: self.clay - other.clay,
            glass: self.glass - other.glass,
            loom: self.loom - other.loom,
            papyrus: self.papyrus - other.papyrus,
        }
    }

    /// The half of a count that is rounded towards zero.
    pub open spec fn half(count: int) -> int {
        if count >= 0 {
            count / 2
        } else {
            -((-count) / 2)
        }
    }

    /// Of each kind the half of the count, rounded towards zero.
    pub open spec fn halved(self) -> Basket {
        Basket {
            coins: Basket::half(self.coins),
            wood: Basket::half(self.wood),
            stone: Basket::half(self.stone),
            ore: Basket::half(self.ore),
            clay: Basket::half(self.clay),
            glass: Basket::half(self.glass),
            loom: Basket::half(self.loom),
            papyrus: Basket::half(self.papyrus),
        }
    }

    /// Nothing is owed any more: every count is zero or below.
    pub open spec fn satisfied(self) -> bool {
        forall|resource: Resource| self.amount(resource) <= 0
    }

    /// At least one unit of `resource` is still owed.
    pub open spec fn has(self, resource: Resource) -> bool {
        self.amount(resource) > 0
    }

    /// The largest count that any single kind holds.
    pub open spec fn peak(self) -> int {
        let a = if self.coins >= self.wood { self.coins } else { self.wood };
        let b = if a >= self.stone { a } else { self.stone };
        let c = if b >= self.ore { b } else { self.ore };
        let d = if c >= self.clay { c } else { self.clay };
        let e = if d >= self.glass { d } else { self.glass };
        let f = if e >= self.loom { e } else { self.loom };
        if f >= self.papyrus { f } else { self.papyrus }
    }

    /// Every count lies between `low` and `high`, both included.
    pub open spec fn within(self, low: int, high: int) -> bool {
        forall|resource: Resource| low <= #[trigger] self.amount(resource) <= high
    }
}

/// The cost of a card: a count per resource kind.
#[derive(Debug, Clone, Copy, PartialEq, Eq, Structural)]
pub struct Cost {
    pub coins: i32,
    pub wood: i32,
    pub stone: i32,
    pub ore: i32,
    pub clay: i32,
    pub glass: i32,
    pub loom: i32,
    pub papyrus: i32,
}

impl View for Cost {
    type V = Basket;

    open spec fn view(&self) -> Basket {
        Basket {
            coins: self.coins as int,
            wood: self.wood as int,
            stone: self.stone as int,
            ore: self.ore as int,
            clay: self.clay as int,
            glass: self.glass as int,
            loom: self.loom as int,
            papyrus: self.papyrus as int,
        }
    }
}

impl Default for Cost {
    fn default() -> (cost: Cost)
        ensures
            cost@ == Basket::empty(),
    {
        Cost { coins: 0, wood: 0, stone: 0, ore: 0, clay: 0, glass: 0, loom: 0, papyrus: 0 }
    }
}

impl Cost {
    /// The cost of a card that is free.
    pub fn free() -> (cost: Cost)
        ensures
            cost@ == Basket::empty(),
    {
        Cost { coins: 0, wood: 0, stone: 0, ore: 0, clay: 0, glass: 0, loom: 0, papyrus: 0 }
    }

    /// The cost of `num` coins and nothing else.
    pub fn coins(num: i32) -> (cost: Cost)
        ensures
            cost@ == Basket::empty().with(Resource::Coins, num as int),
    {
        Cost { coins: num, ..Cost::free() }
    }

    /// The cost of `num` units of wood and nothing else.
    pub fn wood(num: i32) -> (cost: Cost)
        ensures
            cost@ == Basket::empty().with(Resource::Wood, num as int),
    {
        Cost { wood: num, ..Cost::free() }
    }

    /// The cost of `num` units of stone and nothing else.
    pub fn stone(num: i32) -> (cost: Cost)
        ensures
            cost@ == Basket::empty().with(Resource::Stone, num as int),
    {
        Cost { stone: num, ..Cost::free() }
    }

    /// The cost of `num` units of ore and nothing else.
    pub fn ore(num: i32) -> (cost: Cost)
        ensures
            cost@ == Basket::empty().with(Resource::Ore, num as int),
    {
        Cost { ore: num, ..Cost::free() }
    }

    /// The cost of `num` units of clay and nothing else.
    pub fn clay(num: i32) -> (cost: Cost)
        ensures
            cost@ == Basket::empty().with(Resource::Clay, num as int),
    {
        Cost { clay: num, ..Cost::free() }
    }

    /// The cost of `num` units of glass and nothing else.
    pub fn glass(num: i32) -> (cost: Cost)
        ensures
            cost@ == Basket::empty().with(Resource::Glass, num as int),
    {
        Cost { glass: num, ..Cost::free() }
    }

    /// The cost of `num` units of loom and nothing else.
    pub fn loom(num: i32) -> (cost: Cost)
        ensures
            cost@ == Basket::empty().with(Resource::Loom, num as int),
    {
        Cost { loom: num, ..Cost::free() }
    }

    /// The cost of `num` units of papyrus and nothing else.
    pub fn papyrus(num: i32) -> (cost: Cost)
        ensures
            cost@ == Basket::empty().with(Resource::Papyrus, num as int),
    {
        Cost { papyrus: num, ..Cost::free() }
    }

    /// The cost that asks `num` of `resource` and nothing else.
    pub fn single(resource: Resource, num: i32) -> (cost: Cost)
        ensures
            cost@ == Basket::empty().with(resource, num as int),
    {
        match resource {
            Resource::Wood => Cost::wood(num),
            Resource::Stone => Cost::stone(num),
            Resource::Ore => Cost::ore(num),
            Resource::Clay => Cost::clay(num),
            Resource::Glass => Cost::glass(num),
            Resource::Loom => Cost::loom(num),
            Resource::Papyrus => Cost::papyrus(num),
            Resource::Coins => Cost::coins(num),
        }
    }

    /// The count held for one kind.
    pub fn amount(&self, resource: &Resource) -> (n: i32)
        ensures
            n == self@.amount(*resource),
    {
        match resource {
            Resource::Wood => self.wood,
            Resource::Stone => self.stone,
            Resource::Ore => self.ore,
            Resource::Clay => self.clay,
            Resource::Glass => self.glass,
            Resource::Loom => self.loom,
            Resource::Papyrus => self.papyrus,
            Resource::Coins => self.coins,
        }
    }

    /// True if and only if every count is at zero or below. For a cost from which the resources at
    /// hand were taken off, this says that they were enough to pay it.
    pub fn satisfied(&self) -> (yes: bool)
        ensures
            yes == self@.satisfied(),
    {
        let yes = self.coins <= 0 && self.wood <= 0 && self.stone <= 0 && self.ore <= 0 && self.clay
            <= 0 && self.glass <= 0 && self.loom <= 0 && self.papyrus <= 0;
        proof {
            if yes {
                assert forall|resource: Resource| self@.amount(resource) <= 0 by {}
            } else {
                let witness = if self.coins > 0 {
                    Resource::Coins
                } else if self.wood > 0 {
                    Resource::Wood
                } else if self.stone > 0 {
                    Resource::Stone
                } else if self.ore > 0 {
                    Resource::Ore
                } else if self.clay > 0 {
                    Resource::Clay
                } else if self.glass > 0 {
                    Resource::Glass
                } else if self.loom > 0 {
                    Resource::Loom
                } else {
                    Resource::Papyrus
                };
                assert(self@.amount(witness) > 0);
            }
        }
        yes
    }

    /// True if and only if at least one unit of `resource` is still owed.
    pub fn has(&self, resource: &Resource) -> (yes: bool)
        ensures
            yes == self@.has(*resource),
    {
        self.amount(resource) > 0
    }

    /// Takes one unit of `resource` off this cost.
    pub fn sub_assign(&mut self, resource: &Resource)
        requires
            old(self)@.amount(*resource) > i32::MIN,
        ensures
            final(self)@ == old(self)@.minus(*resource),
    {
        match resource {
            Resource::Wood => self.wood = self.wood - 1,
            Resource::Stone => self.stone = self.stone - 1,
            Resource::Ore => self.ore = self.ore - 1,
            Resource::Clay => self.clay = self.clay - 1,
            Resource::Glass => self.glass = self.glass - 1,
            Resource::Loom => self.loom = self.loom - 1,
            Resource::Papyrus => self.papyrus = self.papyrus - 1,
            Resource::Coins => self.coins = self.coins - 1,
        }
    }

    /// Adds `other` to this cost, kind by kind.
    pub fn add_cost(&mut self, other: &Cost)
        requires
            old(self)@.plus(other@).within(i32::MIN as int, i32::MAX as int),
        ensures
            final(self)@ == old(self)@.plus(other@),
    {
        proof {
            let sum = self@.plus(other@);
            assert(sum.amount(Resource::Coins) == sum.coins);
            assert(sum.amount(Resource::Wood) == sum.wood);
            assert(sum.amount(Resource::Stone) == sum.stone);
            assert(sum.amount(Resource::Ore) == sum.ore);
            assert(sum.amount(Resource::Clay) == sum.clay);
            assert(sum.amount(Resource::Glass) == sum.glass);
            assert(sum.amount(Resource::Loom) == sum.loom);
            assert(sum.amount(Resource::Papyrus) == sum.papyrus);
        }
        self.coins = self.coins + other.coins;
        self.wood = self.wood + other.wood;
        self.stone = self.stone + other.stone;
        self.ore = self.ore + other.ore;
        self.clay = self.clay + other.clay;
        self.glass = self.glass + other.glass;
        self.loom = self.loom + other.loom;
        self.papyrus = self.papyrus + other.papyrus;
    }

    /// Takes `other` off this cost, kind by kind.
    pub fn sub_cost(&mut self, other: &Cost)
        requires
            old(self)@.less(other@).within(i32::MIN as int, i32::MAX as int),
        ensures
            final(self)@ == old(self)@.less(other@),
    {
        proof {
            let rest = self@.less(other@);
            assert(rest.amount(Resource::Coins) == rest.coins);
            assert(rest.amount(Resource::Wood) == rest.wood);
            assert(rest.amount(Resource::Stone) == rest.stone);
            assert(rest.amount(Resource::Ore) == rest.ore);
            assert(rest.amount(Resource::Clay) == rest.clay);
            assert(rest.amount(Resource::Glass) == rest.glass);
            assert(rest.amount(Resource::Loom) == rest.loom);
            assert(rest.amount(Resource::Papyrus) == rest.papyrus);
        }
        self.coins = self.coins - other.coins;
        self.wood = self.wood - other.wood;
        self.stone = self.stone - other.stone;
        self.ore = self.ore - other.ore;
        self.clay = self.clay - other.clay;
        self.glass = self.glass - other.glass;
        self.loom = self.loom - other.loom;
        self.papyrus = self.papyrus - other.papyrus;
    }

    /// Splits the cost into two costs that add up to it: of each kind the second gets half of the
    /// count, rounded towards zero, and the first the rest. So a cost of two units of one kind is
    /// split into two costs of one unit each.
    pub fn split(&self) -> (halves: (Cost, Cost))
        ensures
            halves.1@ == self@.halved(),
            halves.0@ == self@.less(self@.halved()),
    {
        let second = Cost {
            coins: self.coins / 2,
            wood: self.wood / 2,
            stone: self.stone / 2,
            ore: self.ore / 2,
            clay: self.clay / 2,
            glass: self.glass / 2,
            loom: self.loom / 2,
            papyrus: self.papyrus / 2,
        };
        let first = Cost {
            coins: self.coins - second.coins,
            wood: self.wood - second.wood,
            stone: self.stone - second.stone,
            ore: self.ore - second.ore,
            clay: self.clay - second.clay,
            glass: self.glass - second.glass,
            loom: self.loom - second.loom,
            papyrus: self.papyrus - second.papyrus,
        };
        (first, second)
    }

    /// The largest count that any single kind holds.
    pub fn max_amount(&self) -> (n: i32)
        ensures
            n == self@.peak(),
    {
        let mut n: i32 = self.coins;
        if self.wood > n {
            n = self.wood;
        }
        if self.stone > n {
            n = self.stone;
        }
        if self.ore > n {
            n = self.ore;
        }
        if self.clay > n {
            n = self.clay;
        }
        if self.glass > n {
            n = self.glass;
        }
        if self.loom > n {
            n = self.loom;
        }
        if self.papyrus > n {
            n = self.papyrus;
        }
        n
    }
}

/// The text for one kind in the text of a cost: the count and the name of the resource if the
/// count is above zero, and nothing otherwise. Coins are in the plural unless there is one.
pub open spec fn amount_text(basket: Basket, resource: Resource) -> Seq<Seq<char>> {
    if basket.amount(resource) <= 0 {
        Seq::empty()
    } else if resource == Resource::Coins {
        seq![plural_text(basket.coins, "coin"@)]
    } else {
        seq![decimal(basket.amount(resource)) + " "@ + resource.spec_name()]
    }
}

/// The text of a cost: for each kind that is owed, the count and the name, with commas between
/// them, the coins first; or `free` if nothing is owed. For example `2 wood, 1 glass, 1 papyrus`.
pub open spec fn cost_text(basket: Basket) -> Seq<char> {
    let parts = amount_text(basket, Resource::Coins) + amount_text(basket, Resource::Wood) + amount_text(
        basket,
        Resource::Stone,
    ) + amount_text(basket, Resource::Ore) + amount_text(basket, Resource::Clay) + amount_text(
        basket,
        Resource::Glass,
    ) + amount_text(basket, Resource::Loom) + amount_text(basket, Resource::Papyrus);
    if parts.len() == 0 {
        "free"@
    } else {
        joined(parts, ", "@)
    }
}

impl Cost {
    /// Adds the text for one kind to the parts of the text of this cost.
    fn add_if_non_zero(&self, resource: Resource, resources: &mut Vec<String>)
        ensures
            text_views(final(resources)@) == text_views(old(resources)@) + amount_text(self@, resource),
    {
        let count: i32 = self.amount(&resource);
        if count > 0 {
            let text = match resource {
                Resource::Coins => plural(count, "coin"),
                _ => counted(count as i128, resource.name()),
            };
            resources.push(text);
            assert(text_views(resources@) =~= text_views(old(resources)@).push(text@));
        }
        assert(text_views(resources@) =~= text_views(old(resources)@) + amount_text(self@, resource));
    }

    /// Writes the cost: see [`cost_text`].
    pub fn to_string(&self) -> (text: String)
        ensures
            text@ == cost_text(self@),
    {
        let mut resources: Vec<String> = Vec::new();
        assert(text_views(resources@) =~= Seq::empty());
        self.add_if_non_zero(Resource::Coins, &mut resources);
        self.add_if_non_zero(Resource::Wood, &mut resources);
        self.add_if_non_zero(Resource::Stone, &mut resources);
        self.add_if_non_zero(Resource::Ore, &mut resources);
        self.add_if_non_zero(Resource::Clay, &mut resources);
        self.add_if_non_zero(Resource::Glass, &mut resources);
        self.add_if_non_zero(Resource::Loom, &mut resources);
        self.add_if_non_zero(Resource::Papyrus, &mut resources);
        assert(text_views(resources@) =~= amount_text(self@, Resource::Coins) + amount_text(
            self@,
            Resource::Wood,
        ) + amount_text(self@, Resource::Stone) + amount_text(self@, Resource::Ore) + amount_text(
            self@,
            Resource::Clay,
        ) + amount_text(self@, Resource::Glass) + amount_text(self@, Resource::Loom) + amount_text(
            self@,
            Resource::Papyrus,
        ));
        if resources.is_empty() {
            "free".to_string()
        } else {
            join_texts(&resources, ", ")
        }
    }
}

} // verus!
