use vstd::prelude::*;

use crate::game::resources::{PrimaryResource, Resource};

verus! {

/// The jobs a citizen can hold.
#[derive(Clone, Copy, Debug, PartialEq, Eq, Structural)]
pub enum Job {
    Farmer,
    Woodcutter,
    Miner,
}

/// Production rate of a job, in hundredths of a unit per iteration.
pub open spec fn production_rate_hundredths(job: Job) -> u64 {
    match job {
        Job::Farmer => 120,
        Job::Woodcutter => 50,
        Job::Miner => 20,
    }
}

/// The resource that a worker of `job` produces.
pub open spec fn production_of(job: Job) -> Resource {
    match job {
        Job::Farmer => Resource::Primary(PrimaryResource::Food),
        Job::Woodcutter => Resource::Primary(PrimaryResource::Wood),
        Job::Miner => Resource::Primary(PrimaryResource::Stone),
    }
}

impl Job {
    /// How much one worker of this job adds to its resource's production
    /// rate, in hundredths of a unit per iteration (1.20, 0.50 and 0.20).
    pub fn get_production_rate(&self) -> (r: u64)
        ensures
            r == production_rate_hundredths(*self),
    {
        match self {
            Job::Farmer => 120,
            Job::Woodcutter => 50,
            Job::Miner => 20,
        }
    }

    /// The resource that a worker of this job produces.
    pub fn get_resource_production(&self) -> (r: Resource)
        ensures
            r == production_of(*self),
    {
        match self {
            Job::Farmer => Resource::Primary(PrimaryResource::Food),
            Job::Woodcutter => Resource::Primary(PrimaryResource::Wood),
            Job::Miner => Resource::Primary(PrimaryResource::Stone),
        }
    }
}

} // verus!
