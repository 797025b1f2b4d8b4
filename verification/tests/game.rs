use std::collections::hash_map::DefaultHasher;
use std::hash::Hasher;

use rand::distributions::Distribution;

use cliciv::game::actions::Action;
use cliciv::game::buildings::Buildings;
use cliciv::game::citizens::Citizens;
use cliciv::game::errors::{CheckError, IterationError};
use cliciv::game::jobs::Job;
use cliciv::game::land::Land;
use cliciv::game::log::{append_log, log_append_fits, LogEntry};
use cliciv::game::resources::{
    count_successes, PrimaryResource, Resource, SecondaryResource,
};
use cliciv::game::state::{get_context, get_rng, max_hash, rng_seed, Chain, Context};

#[test]
fn hash() {
    let iteration: u64 = 1040324;
    let next_power = iteration.next_power_of_two();
    let mut exponent = 0;
    while ((next_power >> exponent) & 1) != 1 {
        exponent += 1;
    }

    let max_hash_value = u64::MAX >> exponent;
    assert_eq!(max_hash_value, max_hash(1040324));
}

#[test]
fn max_hash_values() {
    assert_eq!(max_hash(0), u64::MAX);
    assert_eq!(max_hash(1), u64::MAX);
    assert_eq!(max_hash(2), u64::MAX >> 1);
    assert_eq!(max_hash(3), u64::MAX >> 2);
    assert_eq!(max_hash(4), u64::MAX >> 2);
    assert_eq!(max_hash(5), u64::MAX >> 3);
    assert_eq!(max_hash(1 << 20), u64::MAX >> 20);
}

fn ctx() -> Context {
    get_context(0, 0)
}

fn citizens(idle: u64, farmers: u64, woodcutters: u64, miners: u64, max_population: u64) -> Citizens {
    Citizens { idle, farmers, woodcutters, miners, max_population }
}

#[test]
fn recruit_below_and_at_capacity() {
    let c = citizens(0, 1, 0, 0, 3);
    assert_eq!(c.count(), 1);
    let c = c.apply_action(&Action::RecruitCitizen, &mut ctx()).unwrap();
    assert_eq!(c, citizens(1, 1, 0, 0, 3));
    let c = c.apply_action(&Action::RecruitCitizen, &mut ctx()).unwrap();
    assert_eq!(c.count(), 3);
    assert_eq!(c.apply_action(&Action::RecruitCitizen, &mut ctx()), Err(IterationError::PopulationLimitReached));
}

#[test]
fn assign_and_discharge_jobs() {
    let c = citizens(2, 0, 0, 0, 5);
    let c = c.apply_action(&Action::AssignJob(Job::Farmer), &mut ctx()).unwrap();
    assert_eq!(c, citizens(1, 1, 0, 0, 5));
    let c = c.apply_action(&Action::AssignJob(Job::Woodcutter), &mut ctx()).unwrap();
    assert_eq!(c, citizens(0, 1, 1, 0, 5));
    assert_eq!(
        c.apply_action(&Action::AssignJob(Job::Miner), &mut ctx()),
        Err(IterationError::NotEnaughtIdleWorkers)
    );
    assert_eq!(
        c.apply_action(&Action::DischargeJob(Job::Miner), &mut ctx()),
        Err(IterationError::NoWorkersInJob(Job::Miner))
    );
    let back = c.apply_action(&Action::DischargeJob(Job::Woodcutter), &mut ctx()).unwrap();
    assert_eq!(back, citizens(1, 1, 0, 0, 5));
    assert_eq!(c.count(), back.count());
}

#[test]
fn buildings_raise_capacity() {
    let c = citizens(0, 0, 0, 0, 0);
    let c = c.apply_action(&Action::Build(Buildings::Tent), &mut ctx()).unwrap();
    assert_eq!(c.max_population, 1);
    let c = c.apply_action(&Action::Build(Buildings::WoodenHut), &mut ctx()).unwrap();
    assert_eq!(c.max_population, 4);
    let c = c.apply_action(&Action::Build(Buildings::Barn), &mut ctx()).unwrap();
    assert_eq!(c.max_population, 4);
    assert_eq!(c.apply_action(&Action::Idle, &mut ctx()).unwrap(), c);
    assert!(c.can_apply_action(&Action::RecruitCitizen));
    assert!(!citizens(u64::MAX, 1, 0, 0, 0).can_apply_action(&Action::RecruitCitizen));
}

#[test]
fn land_plots() {
    let land = Land::default();
    assert_eq!(land.total_land, 1000);
    assert_eq!(land.free_land(), 1000);
    let land = land.apply_action(&Action::Build(Buildings::WoodStockpile), &mut ctx()).unwrap();
    assert_eq!(land.wood_stockpiles, 1);
    assert_eq!(land.land_use(), 1);
    assert_eq!(land.free_land(), 999);
    let full = Land { total_land: 2, tents: 1, wooden_huts: 1, barns: 0, wood_stockpiles: 0, stone_stockpiles: 0 };
    assert_eq!(full.free_land(), 0);
    assert_eq!(
        full.apply_action(&Action::Build(Buildings::Barn), &mut ctx()),
        Err(IterationError::NotEnaughtFreeLand)
    );
    assert_eq!(full.apply_action(&Action::Collect(PrimaryResource::Food), &mut ctx()).unwrap(), full);
}

#[test]
fn building_tables() {
    assert_eq!(Buildings::Tent.population_capacity_increase(), 1);
    assert_eq!(Buildings::WoodenHut.population_capacity_increase(), 3);
    assert_eq!(Buildings::StoneStockpile.population_capacity_increase(), 0);
    assert_eq!(
        Buildings::WoodenHut.costs(),
        vec![
            (Resource::Primary(PrimaryResource::Wood), 20),
            (Resource::Secondary(SecondaryResource::Skins), 1)
        ]
    );
    assert_eq!(Buildings::Barn.primary_resource_storage_increase(), Some((PrimaryResource::Food, 100)));
    assert_eq!(Buildings::Tent.primary_resource_storage_increase(), None);
    assert_eq!(Job::Farmer.get_production_rate(), 120);
    assert_eq!(Job::Miner.get_resource_production(), Resource::Primary(PrimaryResource::Stone));
    assert_eq!(PrimaryResource::Wood.get_secondary_resource(), SecondaryResource::Herbs);
}

#[test]
fn log_runs() {
    let log: Vec<LogEntry> = vec![];
    let log = append_log(&log, Action::Idle);
    assert_eq!(log, vec![(Action::Idle, 1)]);
    let log = append_log(&log, Action::Idle);
    assert_eq!(log, vec![(Action::Idle, 2)]);
    let log = append_log(&log, Action::RecruitCitizen);
    assert_eq!(log, vec![(Action::Idle, 2), (Action::RecruitCitizen, 1)]);
    let full = vec![(Action::Idle, u64::MAX)];
    assert!(!log_append_fits(&full, Action::Idle));
    assert!(log_append_fits(&full, Action::RecruitCitizen));
}

#[test]
fn log_rebuild_merges_neighbours() {
    let log: Vec<LogEntry> = vec![(Action::Idle, 5), (Action::Idle, 7)];
    assert_eq!(append_log(&log, Action::Idle), vec![(Action::Idle, 7)]);
}

#[test]
fn messages() {
    assert_eq!(IterationError::NotEnaughtFreeLand.get_message(), "not enauth free land");
    assert_eq!(
        IterationError::NotEnaughtResource(Resource::Special(cliciv::game::resources::SpecialResource::Gold))
            .get_message(),
        "not enauth resources"
    );
    assert_eq!(IterationError::NoWorkersInJob(Job::Farmer).get_message(), "no workers in job");
    assert_eq!(CheckError::HashMismatch.get_message(), "Hash mismatch");
    assert_eq!(
        CheckError::InvalidStateRecreation(1207, IterationError::PopulationLimitReached).get_message(),
        "Invalid state recreation (population limit reached at iteration 1207)"
    );
}

#[test]
fn seed_bytes() {
    let bytes = rng_seed(-2, 0x0102030405060708);
    let mut expected = [0u8; 32];
    expected[0] = 0xfe;
    for b in expected.iter_mut().take(16).skip(1) {
        *b = 0xff;
    }
    for (k, b) in [8u8, 7, 6, 5, 4, 3, 2, 1].iter().enumerate() {
        expected[16 + k] = *b;
    }
    assert_eq!(bytes, expected);
    assert_eq!(rng_seed(0x1234, 0)[..3], [0x34, 0x12, 0]);
}

#[test]
fn secondary_resources_found() {
    let mut rng = get_rng(42, 7);
    let distribution = SecondaryResource::Skins.get_distribution();
    let found = count_successes(&distribution, &mut rng, 1000);
    assert!(found <= 1000);
    assert!(found > 20 && found < 300);
    assert_eq!(count_successes(&distribution, &mut rng, 0), 0);
    let mut again = get_rng(42, 7);
    assert_eq!(count_successes(&distribution, &mut again, 1000), found);
}

#[test]
fn counters_hash_as_write_u64() {
    let c = citizens(1, 2, 3, 4, 10);
    let mut hasher = DefaultHasher::default();
    for x in [1u64, 2, 3, 4, 10] {
        hasher.write_u64(x);
    }
    assert_eq!(c.hash(), hasher.finish());
    let land = Land::default();
    let mut hasher = DefaultHasher::default();
    for x in [1000u64, 0, 0, 0, 0, 0] {
        hasher.write_u64(x);
    }
    assert_eq!(land.hash(), hasher.finish());
}

#[test]
fn chain_hash_as_hasher_writes() {
    let chain = Chain::new(-5);
    let mut hasher = DefaultHasher::default();
    hasher.write_i128(-5);
    hasher.write_u64(0);
    hasher.write_usize(0);
    hasher.write_usize(9);
    hasher.write_u64(77);
    hasher.write_u64(chain.citizens.hash());
    hasher.write_u64(chain.land.hash());
    assert_eq!(chain.hash(9, 77), hasher.finish());
}

fn play(chain: Chain, action: Action, before: u64, after: u64) -> Chain {
    assert!(chain.can_advance(&action));
    let next = chain.advance(&action, before, &mut ctx()).unwrap();
    next.commit(after).unwrap()
}

#[test]
fn committed_chain_replays() {
    let actions = [
        Action::Build(Buildings::Tent),
        Action::RecruitCitizen,
        Action::AssignJob(Job::Farmer),
        Action::Idle,
        Action::Idle,
        Action::Idle,
        Action::Build(Buildings::WoodenHut),
    ];
    let hashes: Vec<u64> = (0..=actions.len() as u64).map(|k| k * 31 + 5).collect();
    let mut chain = Chain::new(43932030939219715774207308070970463251);
    for (k, action) in actions.iter().enumerate() {
        chain = play(chain, *action, hashes[k], hashes[k + 1]);
        let n = chain.iterations;
        assert_eq!(n, k + 1);
        assert!(chain.hash(chain.nonces[n], hashes[k + 1]) <= max_hash(n));
    }
    assert_eq!(chain.nonces.len(), actions.len() + 1);
    assert_eq!(chain.citizens, citizens(0, 1, 0, 0, 4));
    assert_eq!(chain.land.tents, 1);
    assert_eq!(chain.land.wooden_huts, 1);
    assert_eq!(chain.log.len(), 5);
    assert_eq!(chain.log[3], (Action::Idle, 3));

    let mut replayed = chain.replay_base();
    let mut k = 0;
    for (action, times) in chain.log.iter() {
        for _ in 0..*times {
            replayed = replayed.advance(action, hashes[k], &mut ctx()).unwrap();
            k += 1;
        }
    }
    let last = hashes[actions.len()];
    assert_eq!(chain.verify(last, &replayed, last), Ok(()));
    assert_eq!(chain.verify(last, &replayed, last + 1), Err(CheckError::HashMismatch));
}

#[test]
fn failed_iteration_reports_error() {
    let chain = Chain::new(1);
    assert!(chain.can_advance(&Action::RecruitCitizen));
    assert_eq!(
        chain.advance(&Action::RecruitCitizen, 0, &mut ctx()).err(),
        Some(IterationError::PopulationLimitReached)
    );
    let chain = Chain::new(1);
    assert_eq!(chain.prev_iteration_nonce(), 0);
    let nonce = chain.calculate_nonce(3).unwrap();
    assert_eq!(nonce, 0);
}

#[test]
fn distributions_and_generators_are_determined() {
    let expected = rand::distributions::Bernoulli::from_ratio(1, 10).unwrap();
    assert_eq!(SecondaryResource::Skins.get_distribution(), expected);
    assert_eq!(SecondaryResource::Herbs.get_distribution(), expected);
    assert_eq!(SecondaryResource::Ore.get_distribution(), expected);
    let seeded = <rand_chacha::ChaCha20Rng as rand::SeedableRng>::from_seed(rng_seed(9, 4));
    assert!(get_rng(9, 4) == seeded);
    assert!(get_context(9, 4).rng == seeded);
    assert!(get_rng(9, 5) != seeded);
}

#[test]
fn successes_follow_the_draws() {
    let distribution = SecondaryResource::Ore.get_distribution();
    let mut rng = get_rng(3, 3);
    let mut copy = get_rng(3, 3);
    let found = count_successes(&distribution, &mut rng, 500);
    let expected = (0..500).filter(|_| distribution.sample(&mut copy)).count() as u64;
    assert_eq!(found, expected);
    assert!(rng == copy);
}
