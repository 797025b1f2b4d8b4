use std::collections::hash_map::DefaultHasher;
use std::hash::Hasher;
use vstd::prelude::*;

use crate::game::actions::Action;
use crate::game::buildings::Buildings;
use crate::game::errors::IterationError;
use crate::game::state::Context;
use crate::game::hashing::{digest, u64_bytes, write_u64};

verus! {

/// The land of the settlement and the buildings that stand on it, one plot
/// each.
#[derive(Clone, Copy, Debug, PartialEq, Eq, Structural)]
pub struct Land {
    pub total_land: u64,
    pub tents: u64,
    pub wooden_huts: u64,
    pub barns: u64,
    pub wood_stockpiles: u64,
    pub stone_stockpiles: u64,
}

impl Land {
    /// The number of plots that buildings occupy.
    pub open spec fn used(self) -> int {
        self.tents + self.wooden_huts + self.barns + self.wood_stockpiles + self.stone_stockpiles
    }

    /// How many buildings of kind `b` stand on the land.
    pub open spec fn buildings(self, b: Buildings) -> u64 {
        match b {
            Buildings::Tent => self.tents,
            Buildings::WoodenHut => self.wooden_huts,
            Buildings::Barn => self.barns,
            Buildings::WoodStockpile => self.wood_stockpiles,
            Buildings::StoneStockpile => self.stone_stockpiles,
        }
    }

    /// `self` with `n` buildings of kind `b` and the other fields unchanged.
    pub open spec fn with_buildings(self, b: Buildings, n: u64) -> Land {
        match b {
            Buildings::Tent => Land { tents: n, ..self },
            Buildings::WoodenHut => Land { wooden_huts: n, ..self },
            Buildings::Barn => Land { barns: n, ..self },
            Buildings::WoodStockpile => Land { wood_stockpiles: n, ..self },
            Buildings::StoneStockpile => Land { stone_stockpiles: n, ..self },
        }
    }

    /// The inputs on which `apply_action` computes without overflow: a
    /// building needs the plots in use to be counted within the total.
    pub open spec fn can_apply(self, action: Action) -> bool {
        action is Build ==> self.used() <= self.total_land
    }

    /// What applying `action` does to the land.
    pub open spec fn after(self, action: Action) -> Result<Land, IterationError> {
        match action {
            Action::Build(b) => if self.total_land - self.used() > 0 {
                Ok(self.with_buildings(b, (self.buildings(b) + 1) as u64))
            } else {
                Err(IterationError::NotEnaughtFreeLand)
            },
            _ => Ok(self),
        }
    }

    /// The writes that `hash` feeds the default hasher.
    pub open spec fn hash_input(self) -> Seq<Seq<u8>> {
        seq![
            u64_bytes(self.total_land),
            u64_bytes(self.tents),
            u64_bytes(self.wooden_huts),
            u64_bytes(self.barns),
            u64_bytes(self.wood_stockpiles),
            u64_bytes(self.stone_stockpiles),
        ]
    }

    /// Whether `apply_action` computes without overflow on `action`.
    pub fn can_apply_action(&self, action: &Action) -> (r: bool)
        ensures
            r == self.can_apply(*action),
    {
        match action {
            Action::Build(_) => {
                let used = match self.tents.checked_add(self.wooden_huts) {
                    Some(a) => match a.checked_add(self.barns) {
                        Some(b) => match b.checked_add(self.wood_stockpiles) {
                            Some(c) => c.checked_add(self.stone_stockpiles),
                            None => None,
                        },
                        None => None,
                    },
                    None => None,
                };
                match used {
                    Some(u) => u <= self.total_land,
                    None => false,
                }
            },
            _ => true,
        }
    }

    /// The plots that are still free.
    pub fn free_land(&self) -> (r: u64)
        requires
            self.used() <= self.total_land,
        ensures
            r == self.total_land - self.used(),
    {
        self.total_land - self.land_use()
    }

    /// The plots that buildings occupy.
    pub fn land_use(&self) -> (r: u64)
        requires
            self.used() <= u64::MAX,
        ensures
            r == self.used(),
    {
        self.tents + self.wooden_huts + self.barns + self.wood_stockpiles + self.stone_stockpiles
    }

    /// Applies the land side of an action: a building takes one free plot.
    /// The random source of the iteration goes unused.
    pub fn apply_action(self, action: &Action, ctx: &mut Context) -> (r: Result<Land, IterationError>)
        requires
            self.can_apply(*action),
        ensures
            r == self.after(*action),
            !(action is Build) ==> r == Ok::<Land, IterationError>(self),
            *final(ctx) == *old(ctx),
    {
        self.apply(action)
    }

    /// What `apply_action` computes.
    pub(crate) fn apply(self, action: &Action) -> (r: Result<Land, IterationError>)
        requires
            self.can_apply(*action),
        ensures
            r == self.after(*action),
            !(action is Build) ==> r == Ok::<Land, IterationError>(self),
    {
        match action {
            Action::Build(building) => if self.free_land() > 0 {
                match building {
                    Buildings::Tent => Ok(Land { tents: self.tents + 1, ..self }),
                    Buildings::WoodenHut => Ok(Land { wooden_huts: self.wooden_huts + 1, ..self }),
                    Buildings::Barn => Ok(Land { barns: self.barns + 1, ..self }),
                    Buildings::WoodStockpile => Ok(
                        Land { wood_stockpiles: self.wood_stockpiles + 1, ..self },
                    ),
                    Buildings::StoneStockpile => Ok(
                        Land { stone_stockpiles: self.stone_stockpiles + 1, ..self },
                    ),
                }
            } else {
                Err(IterationError::NotEnaughtFreeLand)
            },
            _ => Ok(self),
        }
    }

    /// The default hasher's digest of the six counters, in field order.
    pub fn hash(&self) -> (r: u64)
        ensures
            r == digest(self.hash_input()),
    {
        let mut hasher = DefaultHasher::new();
        write_u64(&mut hasher, self.total_land);
        write_u64(&mut hasher, self.tents);
        write_u64(&mut hasher, self.wooden_huts);
        write_u64(&mut hasher, self.barns);
        write_u64(&mut hasher, self.wood_stockpiles);
        write_u64(&mut hasher, self.stone_stockpiles);
        assert(hasher@ =~= self.hash_input());
        hasher.finish()
    }
}

/// The land of a new game: a thousand plots, none built on.
pub open spec fn default_land() -> Land {
    Land {
        total_land: 1000,
        tents: 0,
        wooden_huts: 0,
        barns: 0,
        wood_stockpiles: 0,
        stone_stockpiles: 0,
    }
}

impl Default for Land {
    /// A thousand free plots.
    fn default() -> (r: Land)
        ensures
            r == default_land(),
    {
        Land {
            total_land: 1000,
            tents: 0,
            wooden_huts: 0,
            barns: 0,
            wood_stockpiles: 0,
            stone_stockpiles: 0,
        }
    }
}

/// Every successful action keeps the plots in use within the total land.
pub proof fn lemma_land_use_within_total(land: Land, action: Action)
    requires
        land.used() <= land.total_land,
    ensures
        land.can_apply(action),
        land.after(action) matches Ok(next) ==> next.used() <= next.total_land
            && next.total_land == land.total_land,
{
}

/// A building succeeds exactly when a plot is free, and then takes exactly
/// one plot.
pub proof fn lemma_build_takes_one_plot(land: Land, b: Buildings)
    requires
        land.used() <= land.total_land,
    ensures
        land.after(Action::Build(b)) is Ok <==> land.used() < land.total_land,
        land.after(Action::Build(b)) matches Ok(next) ==> next.used() == land.used() + 1
            && next.buildings(b) == land.buildings(b) + 1,
{
}

/// Only a building touches the land: every other action succeeds on the
/// land side and leaves it as it is.
pub proof fn lemma_only_buildings_use_land(land: Land, action: Action)
    requires
        !(action is Build),
    ensures
        land.can_apply(action),
        land.after(action) == Ok::<Land, IterationError>(land),
{
}

} // verus!
