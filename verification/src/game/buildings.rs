use vstd::prelude::*;

use crate::game::resources::{PrimaryResource, Resource, SecondaryResource};

verus! {

/// The buildings that can stand on the land.
#[derive(Clone, Copy, Debug, PartialEq, Eq, Structural)]
pub enum Buildings {
    Tent,
    WoodenHut,
    Barn,
    WoodStockpile,
    StoneStockpile,
}

/// What a building costs, in whole units of each resource, in the order in
/// which the costs are paid.
pub open spec fn building_costs(b: Buildings) -> Seq<(Resource, u64)> {
    match b {
        Buildings::Tent => seq![
            (Resource::Primary(PrimaryResource::Wood), 2u64),
            (Resource::Secondary(SecondaryResource::Skins), 2u64),
        ],
        Buildings::WoodenHut => seq![
            (Resource::Primary(PrimaryResource::Wood), 20u64),
            (Resource::Secondary(SecondaryResource::Skins), 1u64),
        ],
        Buildings::Barn => seq![(Resource::Primary(PrimaryResource::Wood), 100u64)],
        Buildings::WoodStockpile => seq![(Resource::Primary(PrimaryResource::Wood), 100u64)],
        Buildings::StoneStockpile => seq![(Resource::Primary(PrimaryResource::Wood), 100u64)],
    }
}

/// How many more citizens a building can house.
pub open spec fn population_increase(b: Buildings) -> u64 {
    match b {
        Buildings::Tent => 1,
        Buildings::WoodenHut => 3,
        _ => 0,
    }
}

/// The storage that a building adds to a primary resource, in whole units.
pub open spec fn storage_increase(b: Buildings) -> Option<(PrimaryResource, u64)> {
    match b {
        Buildings::Barn => Some((PrimaryResource::Food, 100u64)),
        Buildings::WoodStockpile => Some((PrimaryResource::Wood, 100u64)),
        Buildings::StoneStockpile => Some((PrimaryResource::Stone, 100u64)),
        _ => None,
    }
}

impl Buildings {
    /// The resources that building `self` consumes, in whole units.
    pub fn costs(&self) -> (r: Vec<(Resource, u64)>)
        ensures
            r@ == building_costs(*self),
    {
        match self {
            Buildings::Tent => vec![
                (Resource::Primary(PrimaryResource::Wood), 2),
                (Resource::Secondary(SecondaryResource::Skins), 2),
            ],
            Buildings::WoodenHut => vec![
                (Resource::Primary(PrimaryResource::Wood), 20),
                (Resource::Secondary(SecondaryResource::Skins), 1),
            ],
            Buildings::Barn => vec![(Resource::Primary(PrimaryResource::Wood), 100)],
            Buildings::WoodStockpile => vec![(Resource::Primary(PrimaryResource::Wood), 100)],
            Buildings::StoneStockpile => vec![(Resource::Primary(PrimaryResource::Wood), 100)],
        }
    }

    /// How many more citizens the building can house.
    pub fn population_capacity_increase(&self) -> (r: u64)
        ensures
            r == population_increase(*self),
    {
        match self {
            Buildings::Tent => 1,
            Buildings::WoodenHut => 3,
            _ => 0,
        }
    }

    /// The primary resource whose storage the building enlarges, and by how
    /// many whole units.
    pub fn primary_resource_storage_increase(&self) -> (r: Option<(PrimaryResource, u64)>)
        ensures
            r == storage_increase(*self),
    {
        match self {
            Buildings::Barn => Some((PrimaryResource::Food, 100)),
            Buildings::WoodStockpile => Some((PrimaryResource::Wood, 100)),
            Buildings::StoneStockpile => Some((PrimaryResource::Stone, 100)),
            _ => None,
        }
    }
}

} // verus!
