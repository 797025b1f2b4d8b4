use std::collections::hash_map::DefaultHasher;
use std::hash::Hasher;
use vstd::prelude::*;

use crate::game::actions::Action;
use crate::game::buildings::population_increase;
use crate::game::errors::IterationError;
use crate::game::state::Context;
use crate::game::hashing::{digest, u64_bytes, write_u64};
use crate::game::jobs::Job;

verus! {

/// The population: idle citizens, workers of each job, and how many
/// citizens the buildings can house.
#[derive(Clone, Copy, Debug, PartialEq, Eq, Structural)]
pub struct Citizens {
    pub idle: u64,
    pub farmers: u64,
    pub woodcutters: u64,
    pub miners: u64,
    pub max_population: u64,
}

impl Citizens {
    /// The number of citizens, idle or working.
    pub open spec fn population(self) -> int {
        self.idle + self.farmers + self.woodcutters + self.miners
    }

    /// How many citizens hold `job`.
    pub open spec fn workers(self, job: Job) -> u64 {
        match job {
            Job::Farmer => self.farmers,
            Job::Woodcutter => self.woodcutters,
            Job::Miner => self.miners,
        }
    }

    /// `self` with `n` workers in `job` and the other fields unchanged.
    pub open spec fn with_workers(self, job: Job, n: u64) -> Citizens {
        match job {
            Job::Farmer => Citizens { farmers: n, ..self },
            Job::Woodcutter => Citizens { woodcutters: n, ..self },
            Job::Miner => Citizens { miners: n, ..self },
        }
    }

    /// The inputs on which `apply_action` computes without overflow.
    pub open spec fn can_apply(self, action: Action) -> bool {
        match action {
            Action::RecruitCitizen => self.population() <= u64::MAX,
            Action::AssignJob(job) => self.idle > 0 ==> self.workers(job) < u64::MAX,
            Action::DischargeJob(job) => self.workers(job) > 0 ==> self.idle < u64::MAX,
            Action::Build(b) => self.max_population + population_increase(b) <= u64::MAX,
            _ => true,
        }
    }

    /// What applying `action` does to the population.
    pub open spec fn after(self, action: Action) -> Result<Citizens, IterationError> {
        match action {
            Action::RecruitCitizen => if self.population() < self.max_population {
                Ok(Citizens { idle: (self.idle + 1) as u64, ..self })
            } else {
                Err(IterationError::PopulationLimitReached)
            },
            Action::AssignJob(job) => if self.idle > 0 {
                Ok(
                    Citizens {
                        idle: (self.idle - 1) as u64,
                        ..self.with_workers(job, (self.workers(job) + 1) as u64)
                    },
                )
            } else {
                Err(IterationError::NotEnaughtIdleWorkers)
            },
            Action::DischargeJob(job) => if self.workers(job) > 0 {
                Ok(
                    Citizens {
                        idle: (self.idle + 1) as u64,
                        ..self.with_workers(job, (self.workers(job) - 1) as u64)
                    },
                )
            } else {
                Err(IterationError::NoWorkersInJob(job))
            },
            Action::Build(b) => Ok(
                Citizens {
                    max_population: (self.max_population + population_increase(b)) as u64,
                    ..self
                },
            ),
            _ => Ok(self),
        }
    }

    /// The writes that `hash` feeds the default hasher.
    pub open spec fn hash_input(self) -> Seq<Seq<u8>> {
        seq![
            u64_bytes(self.idle),
            u64_bytes(self.farmers),
            u64_bytes(self.woodcutters),
            u64_bytes(self.miners),
            u64_bytes(self.max_population),
        ]
    }

    /// Whether `apply_action` computes without overflow on `action`.
    pub fn can_apply_action(&self, action: &Action) -> (r: bool)
        ensures
            r == self.can_apply(*action),
    {
        match action {
            Action::RecruitCitizen => match self.idle.checked_add(self.farmers) {
                Some(a) => match a.checked_add(self.woodcutters) {
                    Some(b) => b.checked_add(self.miners).is_some(),
                    None => false,
                },
                None => false,
            },
            Action::AssignJob(job) => {
                let workers = match job {
                    Job::Farmer => self.farmers,
                    Job::Woodcutter => self.woodcutters,
                    Job::Miner => self.miners,
                };
                self.idle == 0 || workers < u64::MAX
            },
            Action::DischargeJob(job) => {
                let workers = match job {
                    Job::Farmer => self.farmers,
                    Job::Woodcutter => self.woodcutters,
                    Job::Miner => self.miners,
                };
                workers == 0 || self.idle < u64::MAX
            },
            Action::Build(b) => self.max_population.checked_add(
                b.population_capacity_increase(),
            ).is_some(),
            _ => true,
        }
    }

    /// The number of citizens, idle or working.
    pub fn count(&self) -> (r: u64)
        requires
            self.population() <= u64::MAX,
        ensures
            r == self.population(),
    {
        self.idle + self.farmers + self.woodcutters + self.miners
    }

    /// Applies the population side of an action; the random source of the
    /// iteration goes unused.
    pub fn apply_action(self, action: &Action, ctx: &mut Context) -> (r: Result<Citizens, IterationError>)
        requires
            self.can_apply(*action),
        ensures
            r == self.after(*action),
            (action is Idle || action is Collect) ==> r == Ok::<Citizens, IterationError>(self),
            *final(ctx) == *old(ctx),
    {
        self.apply(action)
    }

    /// What `apply_action` computes.
    pub(crate) fn apply(self, action: &Action) -> (r: Result<Citizens, IterationError>)
        requires
            self.can_apply(*action),
        ensures
            r == self.after(*action),
            (action is Idle || action is Collect) ==> r == Ok::<Citizens, IterationError>(self),
    {
        match action {
            Action::RecruitCitizen => if self.count() < self.max_population {
                Ok(Citizens { idle: self.idle + 1, ..self })
            } else {
                Err(IterationError::PopulationLimitReached)
            },
            Action::AssignJob(job) => if self.idle > 0 {
                match job {
                    Job::Farmer => Ok(
                        Citizens { idle: self.idle - 1, farmers: self.farmers + 1, ..self },
                    ),
                    Job::Woodcutter => Ok(
                        Citizens { idle: self.idle - 1, woodcutters: self.woodcutters + 1, ..self },
                    ),
                    Job::Miner => Ok(
                        Citizens { idle: self.idle - 1, miners: self.miners + 1, ..self },
                    ),
                }
            } else {
                Err(IterationError::NotEnaughtIdleWorkers)
            },
            Action::DischargeJob(job) => match job {
                Job::Farmer => if self.farmers > 0 {
                    Ok(Citizens { idle: self.idle + 1, farmers: self.farmers - 1, ..self })
                } else {
                    Err(IterationError::NoWorkersInJob(*job))
                },
                Job::Woodcutter => if self.woodcutters > 0 {
                    Ok(Citizens { idle: self.idle + 1, woodcutters: self.woodcutters - 1, ..self })
                } else {
                    Err(IterationError::NoWorkersInJob(*job))
                },
                Job::Miner => if self.miners > 0 {
                    Ok(Citizens { idle: self.idle + 1, miners: self.miners - 1, ..self })
                } else {
                    Err(IterationError::NoWorkersInJob(*job))
                },
            },
            Action::Build(building) => Ok(
                Citizens {
                    max_population: self.max_population + building.population_capacity_increase(),
                    ..self
                },
            ),
            _ => Ok(self),
        }
    }

    /// The default hasher's digest of the five counters, in field order.
    pub fn hash(&self) -> (r: u64)
        ensures
            r == digest(self.hash_input()),
    {
        let mut hasher = DefaultHasher::new();
        write_u64(&mut hasher, self.idle);
        write_u64(&mut hasher, self.farmers);
        write_u64(&mut hasher, self.woodcutters);
        write_u64(&mut hasher, self.miners);
        write_u64(&mut hasher, self.max_population);
        assert(hasher@ =~= self.hash_input());
        hasher.finish()
    }
}

impl Default for Citizens {
    fn default() -> (r: Citizens)
        ensures
            r == (Citizens { idle: 0, farmers: 0, woodcutters: 0, miners: 0, max_population: 0 }),
    {
        Citizens { idle: 0, farmers: 0, woodcutters: 0, miners: 0, max_population: 0 }
    }
}

/// Every successful action keeps the population within the housing capacity.
pub proof fn lemma_population_within_capacity(c: Citizens, action: Action)
    requires
        c.can_apply(action),
        c.population() <= c.max_population,
    ensures
        c.after(action) matches Ok(next) ==> next.population() <= next.max_population,
{
}

/// Recruiting succeeds exactly below the housing capacity and then adds one
/// idle citizen; taking or leaving a job never changes the population.
pub proof fn lemma_population_changes(c: Citizens, job: Job)
    requires
        c.population() <= u64::MAX,
    ensures
        c.after(Action::RecruitCitizen) is Ok <==> c.population() < c.max_population,
        c.after(Action::RecruitCitizen) matches Ok(next) ==> next.population() == c.population()
            + 1 && next.idle == c.idle + 1,
        c.after(Action::AssignJob(job)) matches Ok(next) ==> next.population() == c.population(),
        c.after(Action::DischargeJob(job)) matches Ok(next) ==> next.population()
            == c.population(),
{
}

/// Discharging a citizen from the job just assigned restores the
/// population, and assigning the job just left does too.
pub proof fn lemma_assign_discharge_undo(c: Citizens, job: Job)
    requires
        c.population() <= u64::MAX,
    ensures
        c.after(Action::AssignJob(job)) matches Ok(next) ==> next.can_apply(
            Action::DischargeJob(job),
        ) && next.after(Action::DischargeJob(job)) == Ok::<Citizens, IterationError>(c),
        c.after(Action::DischargeJob(job)) matches Ok(next) ==> next.can_apply(
            Action::AssignJob(job),
        ) && next.after(Action::AssignJob(job)) == Ok::<Citizens, IterationError>(c),
{
}

/// Idling and collecting never fail on the population side and leave it as
/// it is: only recruiting, jobs and buildings change the citizens.
pub proof fn lemma_other_actions_keep_population(c: Citizens, action: Action)
    requires
        action is Idle || action is Collect,
    ensures
        c.can_apply(action),
        c.after(action) == Ok::<Citizens, IterationError>(c),
{
}

} // verus!
