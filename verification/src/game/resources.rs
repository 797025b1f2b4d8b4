use rand::distributions::{Bernoulli, BernoulliError, Distribution};
use rand_chacha::ChaCha20Rng;
use vstd::prelude::*;

verus! {

/// Any resource of the game.
#[derive(Clone, Copy, Debug, PartialEq, Eq, Structural)]
pub enum Resource {
    Primary(PrimaryResource),
    Secondary(SecondaryResource),
    Tertiary(TertiaryResource),
    Special(SpecialResource),
}

/// The resources that citizens collect directly.
#[derive(Clone, Copy, Debug, PartialEq, Eq, Structural)]
pub enum PrimaryResource {
    Food,
    Wood,
    Stone,
}

/// By-products found while collecting a primary resource.
#[derive(Clone, Copy, Debug, PartialEq, Eq, Structural)]
pub enum SecondaryResource {
    Skins,
    Herbs,
    Ore,
}

#[derive(Clone, Copy, Debug, PartialEq, Eq, Structural)]
pub enum TertiaryResource {
    Leather,
    Piety,
    Metal,
}

#[derive(Clone, Copy, Debug, PartialEq, Eq, Structural)]
pub enum SpecialResource {
    Gold,
    Corpses,
}

/// The by-product of each primary resource.
pub open spec fn secondary_of(p: PrimaryResource) -> SecondaryResource {
    match p {
        PrimaryResource::Food => SecondaryResource::Skins,
        PrimaryResource::Wood => SecondaryResource::Herbs,
        PrimaryResource::Stone => SecondaryResource::Ore,
    }
}

impl PrimaryResource {
    /// The secondary resource that may be found while collecting `self`.
    pub fn get_secondary_resource(&self) -> (r: SecondaryResource)
        ensures
            r == secondary_of(*self),
    {
        match self {
            PrimaryResource::Food => SecondaryResource::Skins,
            PrimaryResource::Wood => SecondaryResource::Herbs,
            PrimaryResource::Stone => SecondaryResource::Ore,
        }
    }
}

/// Trusted declaration of `rand::distributions::Bernoulli`, kept opaque.
#[verifier::external_type_specification]
#[verifier::external_body]
pub struct ExBernoulli(Bernoulli);

/// Trusted declaration of `rand::distributions::BernoulliError`, kept opaque.
#[verifier::external_type_specification]
#[verifier::external_body]
pub struct ExBernoulliError(BernoulliError);

/// Trusted declaration of `rand_chacha::ChaCha20Rng` (`ChaChaRng`), kept opaque.
#[verifier::external_type_specification]
#[verifier::external_body]
pub struct ExChaCha20Rng(ChaCha20Rng);

/// The distribution that `Bernoulli::from_ratio(numerator, denominator)`
/// builds: a pure function of its arguments.
pub uninterp spec fn ratio_distribution(numerator: u32, denominator: u32) -> Bernoulli;

/// What one draw of `distribution` from a generator in state `rng` gives: the
/// outcome and the generator's next state. The generator is a deterministic
/// pseudo-random one, so both are functions of the distribution and the
/// generator's state.
pub uninterp spec fn bernoulli_draw(distribution: Bernoulli, rng: ChaCha20Rng) -> (
    bool,
    ChaCha20Rng,
);

/// Trusted: `Bernoulli::from_ratio`, which fails exactly when the numerator
/// exceeds the denominator or the denominator is zero, and otherwise builds
/// the distribution that its arguments determine. Its probability is not
/// stated.
#[verifier::external_body]
fn bernoulli_from_ratio(numerator: u32, denominator: u32) -> (r: Result<Bernoulli, BernoulliError>)
    ensures
        r is Ok <==> (denominator != 0 && numerator <= denominator),
        r matches Ok(d) ==> d == ratio_distribution(numerator, denominator),
{
    Bernoulli::from_ratio(numerator, denominator)
}

/// Trusted: `Distribution::<bool>::sample` of a Bernoulli distribution,
/// drawing from `rng`: the outcome and the generator's next state are those
/// that the distribution and the generator's state determine. Which outcome
/// that is, is not stated.
#[verifier::external_body]
fn bernoulli_sample(distribution: &Bernoulli, rng: &mut ChaCha20Rng) -> (r: bool)
    ensures
        (r, *final(rng)) == bernoulli_draw(*distribution, *old(rng)),
{
    distribution.sample(rng)
}

impl SecondaryResource {
    /// The chance of finding one unit of `self` with each unit of its
    /// primary resource: one in ten for every secondary resource.
    pub fn get_distribution(&self) -> (r: Bernoulli)
        ensures
            r == ratio_distribution(1, 10),
    {
        let ratio = match self {
            SecondaryResource::Skins => bernoulli_from_ratio(1, 10),
            SecondaryResource::Herbs => bernoulli_from_ratio(1, 10),
            SecondaryResource::Ore => bernoulli_from_ratio(1, 10),
        };
        ratio.unwrap()
    }
}

/// The number of successes among `n` successive draws of `distribution`
/// from a generator in state `rng`, and the generator's state afterwards.
pub open spec fn successes(distribution: Bernoulli, rng: ChaCha20Rng, n: nat) -> (int, ChaCha20Rng)
    decreases n,
{
    if n == 0 {
        (0, rng)
    } else {
        let (count, before) = successes(distribution, rng, (n - 1) as nat);
        let (outcome, after) = bernoulli_draw(distribution, before);
        (if outcome {
            count + 1
        } else {
            count
        }, after)
    }
}

/// At most `n` of `n` draws succeed.
pub proof fn lemma_successes_at_most(distribution: Bernoulli, rng: ChaCha20Rng, n: nat)
    ensures
        0 <= successes(distribution, rng, n).0 <= n,
    decreases n,
{
    if n > 0 {
        lemma_successes_at_most(distribution, rng, (n - 1) as nat);
    }
}

/// Draws `trials` samples of `distribution` from `rng` and counts the
/// successes: the amount of a secondary resource found while collecting
/// `trials` units of its primary resource.
pub fn count_successes(distribution: &Bernoulli, rng: &mut ChaCha20Rng, trials: usize) -> (r: u64)
    ensures
        (r as int, *final(rng)) == successes(*distribution, *old(rng), trials as nat),
        r <= trials,
{
    let mut successes_so_far: u64 = 0;
    let mut drawn: usize = 0;
    while drawn < trials
        invariant
            drawn <= trials,
            (successes_so_far as int, *rng) == successes(*distribution, *old(rng), drawn as nat),
        decreases trials - drawn,
    {
        proof {
            lemma_successes_at_most(*distribution, *old(rng), drawn as nat);
        }
        if bernoulli_sample(distribution, rng) {
            successes_so_far = successes_so_far + 1;
        }
        drawn = drawn + 1;
    }
    proof {
        lemma_successes_at_most(*distribution, *old(rng), trials as nat);
    }
    successes_so_far
}

} // verus!
