use vstd::prelude::*;

use crate::game::buildings::Buildings;
use crate::game::jobs::Job;
use crate::game::resources::PrimaryResource;

verus! {

/// What the player does in one iteration of the game.
#[derive(Clone, Copy, Debug, PartialEq, Eq, Structural)]
pub enum Action {
    /// Let one iteration pass.
    Idle,
    /// Gather one unit of a primary resource.
    Collect(PrimaryResource),
    /// Turn food into a new idle citizen.
    RecruitCitizen,
    /// Give an idle citizen a job.
    AssignJob(Job),
    /// Take a citizen out of a job.
    DischargeJob(Job),
    /// Spend resources and land on a building.
    Build(Buildings),
}

} // verus!
