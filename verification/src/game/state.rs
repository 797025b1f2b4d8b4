use rand::SeedableRng;
use rand_chacha::ChaCha20Rng;
use vstd::arithmetic::power2::{lemma2_to64, lemma2_to64_rest, lemma_pow2_unfold, pow2};
use vstd::bits::{lemma_u64_shr_is_div, lemma_usize_shl_is_mul};
use std::collections::hash_map::DefaultHasher;
use std::hash::Hasher;
use vstd::prelude::*;

use crate::game::actions::Action;
use crate::game::citizens::Citizens;
use crate::game::errors::{CheckError, IterationError};
use crate::game::hashing::{
    digest, i128_bytes, le_bytes, lemma_i128_bytes_injective, lemma_u64_bytes_injective,
    lemma_usize_bytes_injective, u64_bytes, usize_bytes, write_i128, write_u64, write_usize,
};
use crate::game::land::{default_land, Land};
use crate::game::log::{
    append_fits, append_log, appended, counts_positive, expand, is_compact, lemma_appended_compact,
    lemma_appended_expands, log_append_fits, widen, LogEntry,
};

verus! {

/// The 32 bytes that seed the random generator of one iteration: the
/// state's seed (16 bytes, two's complement), the previous hash (8 bytes),
/// both least significant byte first, and 8 zero bytes of padding.
pub open spec fn rng_seed_bytes(seed: i128, prev_hash: u64) -> Seq<u8> {
    le_bytes(seed as int, 16) + le_bytes(prev_hash as int, 8) + Seq::new(8, |k: int| 0u8)
}

proof fn lemma_i128_byte_step(x: i128)
    ensures
        (x & 255) as u8 == (x as int % 256) as u8,
        (x >> 8) as int == x as int / 256,
{
    assert((x & 255) as u8 == (x % 256) as u8) by (bit_vector);
    assert(x >> 8 == x / 256) by (bit_vector);
}

proof fn lemma_u64_byte_step(x: u64)
    ensures
        (x & 255) as u8 == (x as int % 256) as u8,
        (x >> 8) as int == x as int / 256,
{
    assert((x & 255) as u8 == (x % 256) as u8) by (bit_vector);
    assert(x >> 8 == x / 256) by (bit_vector);
}

/// The bytes that seed the random generator of an iteration of a state with
/// this seed and previous hash.
pub fn rng_seed(seed: i128, prev_hash: u64) -> (r: [u8; 32])
    ensures
        r@ == rng_seed_bytes(seed, prev_hash),
{
    let mut bytes: [u8; 32] = [0u8; 32];
    let mut rest: i128 = seed;
    let mut k: usize = 0;
    while k < 16
        invariant
            k <= 16,
            bytes@.len() == 32,
            forall|j: int| 16 <= j < 32 ==> bytes@[j] == 0u8,
            le_bytes(seed as int, 16) == bytes@.take(k as int) + le_bytes(
                rest as int,
                (16 - k) as nat,
            ),
        decreases 16 - k,
    {
        proof {
            lemma_i128_byte_step(rest);
        }
        bytes[k] = (rest & 255) as u8;
        rest = rest >> 8;
        k = k + 1;
        assert(bytes@.take(k as int) =~= bytes@.take(k - 1) + seq![bytes@[k - 1]]);
    }
    let mut hash_rest: u64 = prev_hash;
    while k < 24
        invariant
            16 <= k <= 24,
            bytes@.len() == 32,
            forall|j: int| 24 <= j < 32 ==> bytes@[j] == 0u8,
            bytes@.take(16) == le_bytes(seed as int, 16),
            le_bytes(prev_hash as int, 8) == bytes@.subrange(16, k as int) + le_bytes(
                hash_rest as int,
                (24 - k) as nat,
            ),
        decreases 24 - k,
    {
        proof {
            lemma_u64_byte_step(hash_rest);
        }
        let ghost before = bytes@;
        bytes[k] = (hash_rest & 255) as u8;
        hash_rest = hash_rest >> 8;
        k = k + 1;
        assert(bytes@.take(16) =~= before.take(16));
        assert(bytes@.subrange(16, k as int) =~= before.subrange(16, k - 1) + seq![bytes@[k - 1]]);
    }
    assert(bytes@ =~= rng_seed_bytes(seed, prev_hash));
    bytes
}

/// The generator that `ChaCha20Rng::from_seed(seed)` builds: a pure function
/// of the seed.
pub uninterp spec fn seeded_chacha(seed: Seq<u8>) -> ChaCha20Rng;

/// Trusted: `ChaCha20Rng::from_seed` (`SeedableRng`), the generator that
/// `seed` determines. What it then generates is not stated.
#[verifier::external_body]
fn chacha_from_seed(seed: [u8; 32]) -> (r: ChaCha20Rng)
    ensures
        r == seeded_chacha(seed@),
{
    ChaCha20Rng::from_seed(seed)
}

/// The random source of one iteration.
pub struct Context {
    pub rng: ChaCha20Rng,
}

/// The random generator of an iteration of a state with this seed and
/// previous hash, seeded with `rng_seed(seed, prev_hash)`.
pub fn get_rng(seed: i128, prev_hash: u64) -> (r: ChaCha20Rng)
    ensures
        r == seeded_chacha(rng_seed_bytes(seed, prev_hash)),
{
    let bytes = rng_seed(seed, prev_hash);
    chacha_from_seed(bytes)
}

/// The random source of an iteration of a state with this seed and previous
/// hash.
pub fn get_context(seed: i128, prev_hash: u64) -> (r: Context)
    ensures
        r.rng == seeded_chacha(rng_seed_bytes(seed, prev_hash)),
{
    Context { rng: get_rng(seed, prev_hash) }
}

/// The exponent of the smallest power of two that is at least `n`.
pub open spec fn ceil_log2(n: nat) -> nat
    decreases n,
{
    if n <= 1 {
        0
    } else {
        ceil_log2(((n + 1) / 2) as nat) + 1
    }
}

/// `pow2(ceil_log2(n))` is the smallest power of two that is at least `n`.
pub proof fn lemma_ceil_log2(n: nat)
    ensures
        pow2(ceil_log2(n)) >= n,
        ceil_log2(n) == 0 || pow2((ceil_log2(n) - 1) as nat) < n,
    decreases n,
{
    if n > 1 {
        lemma_pow2_unfold(ceil_log2(n));
        let m = ((n + 1) / 2) as nat;
        lemma_ceil_log2(m);
        if ceil_log2(m) > 0 {
            lemma_pow2_unfold(ceil_log2(m));
        } else {
            lemma2_to64();
        }
    } else {
        lemma2_to64();
    }
}

/// A number no greater than `pow2(k)` has a `ceil_log2` no greater than `k`.
pub proof fn lemma_ceil_log2_bound(n: nat, k: nat)
    requires
        n <= pow2(k),
    ensures
        ceil_log2(n) <= k,
    decreases n,
{
    if n > 1 {
        if k == 0 {
            lemma2_to64();
        } else {
            lemma_pow2_unfold(k);
            lemma_ceil_log2_bound(((n + 1) / 2) as nat, (k - 1) as nat);
        }
    }
}

/// `ceil_log2` never decreases.
pub proof fn lemma_ceil_log2_monotone(n: nat, m: nat)
    requires
        n <= m,
    ensures
        ceil_log2(n) <= ceil_log2(m),
{
    lemma_ceil_log2(m);
    lemma_ceil_log2_bound(n, ceil_log2(m));
}

/// Trusted: `usize::next_power_of_two`, the smallest power of two greater
/// than or equal to `x`; it overflows (a panic in debug builds) beyond the
/// largest power of two of a `usize`, which `requires` leaves out.
#[verifier::external_body]
fn next_power_of_two(x: usize) -> (r: usize)
    requires
        x <= usize::MAX / 2 + 1,
    ensures
        r == pow2(ceil_log2(x as nat)),
{
    x.next_power_of_two()
}

/// The largest hash that the nonce of a state after `iterations` iterations
/// may give: all ones, shifted right by the exponent of the smallest power
/// of two that is at least `iterations`.
pub open spec fn max_hash_spec(iterations: nat) -> u64 {
    u64::MAX >> (ceil_log2(iterations) as u64)
}

/// The largest admissible hash is `u64::MAX / 2^e` for the smallest power
/// of two `2^e` that is at least the iteration count, and it never grows as
/// the game goes on.
pub proof fn lemma_max_hash(i: nat, j: nat)
    requires
        i <= j <= pow2(63),
    ensures
        max_hash_spec(i) == u64::MAX as nat / pow2(ceil_log2(i)),
        max_hash_spec(j) <= max_hash_spec(i),
{
    lemma_ceil_log2_monotone(i, j);
    lemma_ceil_log2_bound(j, 63);
    let a = ceil_log2(i) as u64;
    let b = ceil_log2(j) as u64;
    lemma_u64_shr_is_div(u64::MAX, a);
    assert(u64::MAX >> b <= u64::MAX >> a) by (bit_vector)
        requires
            a <= b < 64,
    ;
}

/// The largest power of two of a `usize` is half its range.
proof fn lemma_half_usize()
    ensures
        usize::MAX / 2 + 1 == pow2((usize::BITS - 1) as nat),
{
    lemma2_to64();
    lemma2_to64_rest();
    if usize::BITS == 32 {
        assert(usize::MAX == 0xffff_ffff);
        assert(((usize::BITS - 1) as nat) == 31);
    } else {
        assert(usize::MAX == 0xffff_ffff_ffff_ffff);
        assert(((usize::BITS - 1) as nat) == 63);
    }
}

proof fn lemma_single_bit(big_e: usize, e: usize)
    requires
        big_e < usize::BITS,
        e < usize::BITS,
    ensures
        (((1usize << big_e) >> e) & 1 == 1) <==> e == big_e,
{
    assert((((1usize << big_e) >> e) & 1 == 1) <==> e == big_e) by (bit_vector)
        requires
            big_e < usize::BITS,
            e < usize::BITS,
    ;
}

/// The largest hash that the nonce of a state after `iterations` iterations
/// may give: the work needed to find a nonce doubles each time the
/// iteration count passes a power of two.
pub fn max_hash(iterations: usize) -> (r: u64)
    requires
        iterations <= usize::MAX / 2 + 1,
    ensures
        r == max_hash_spec(iterations as nat),
{
    let next_power = next_power_of_two(iterations);
    let ghost big_e = ceil_log2(iterations as nat);
    proof {
        lemma_half_usize();
        lemma_ceil_log2_bound(iterations as nat, (usize::BITS - 1) as nat);
        lemma_usize_shl_is_mul(1, big_e as usize);
        assert(next_power == 1usize << (big_e as usize));
    }
    let mut exponent: usize = 0;
    while ((next_power >> exponent) & 1) != 1
        invariant
            exponent <= big_e,
            big_e < usize::BITS,
            next_power == 1usize << (big_e as usize),
        decreases big_e - exponent,
    {
        proof {
            lemma_single_bit(big_e as usize, exponent);
        }
        exponent = exponent + 1;
    }
    proof {
        lemma_single_bit(big_e as usize, exponent);
    }
    u64::MAX >> exponent
}

/// The hash-chained part of a game state: everything but the resources.
/// Each iteration hashes the previous state into `prev_hash`; `nonces[i]`
/// is the nonce that the state after iteration `i` was committed with.
#[derive(Clone, Debug)]
pub struct Chain {
    pub seed: i128,
    pub prev_hash: u64,
    pub iterations: usize,
    pub citizens: Citizens,
    pub land: Land,
    pub log: Vec<LogEntry>,
    pub nonces: Vec<usize>,
}

/// A [`Chain`] as a mathematical value.
pub struct ChainView {
    pub seed: i128,
    pub prev_hash: u64,
    pub iterations: usize,
    pub citizens: Citizens,
    pub land: Land,
    pub log: Seq<LogEntry>,
    pub nonces: Seq<usize>,
}

impl View for Chain {
    type V = ChainView;

    open spec fn view(&self) -> ChainView {
        ChainView {
            seed: self.seed,
            prev_hash: self.prev_hash,
            iterations: self.iterations,
            citizens: self.citizens,
            land: self.land,
            log: self.log@,
            nonces: self.nonces@,
        }
    }
}

/// Counts taken back to `u64`.
pub open spec fn narrow(log: Seq<(Action, int)>) -> Seq<LogEntry> {
    log.map_values(|e: (Action, int)| (e.0, e.1 as u64))
}

/// The chain that a new game with this seed starts from.
pub open spec fn initial_chain(seed: i128) -> ChainView {
    ChainView {
        seed,
        prev_hash: 0,
        iterations: 0,
        citizens: Citizens { idle: 0, farmers: 0, woodcutters: 0, miners: 0, max_population: 0 },
        land: Land {
            total_land: 1000,
            tents: 0,
            wooden_huts: 0,
            barns: 0,
            wood_stockpiles: 0,
            stone_stockpiles: 0,
        },
        log: seq![],
        nonces: seq![0usize],
    }
}

impl ChainView {
    /// The writes that hashing the state with `nonce` feeds the default
    /// hasher, given the hash of the state's resources.
    pub open spec fn hash_input(self, nonce: usize, resources_hash: u64) -> Seq<Seq<u8>> {
        seq![
            i128_bytes(self.seed),
            u64_bytes(self.prev_hash),
            usize_bytes(self.iterations),
            usize_bytes(nonce),
            u64_bytes(resources_hash),
            u64_bytes(digest(self.citizens.hash_input())),
            u64_bytes(digest(self.land.hash_input())),
        ]
    }

    /// The hash of the state with `nonce`, given the hash of its resources.
    pub open spec fn hash(self, nonce: usize, resources_hash: u64) -> u64 {
        digest(self.hash_input(nonce, resources_hash))
    }

    /// Whether `nonce` makes the state's hash small enough to commit it.
    pub open spec fn nonce_ok(self, nonce: usize, resources_hash: u64) -> bool {
        self.hash(nonce, resources_hash) <= max_hash_spec(self.iterations as nat)
    }

    /// The inputs on which one more iteration computes without overflow or
    /// an index out of bounds.
    pub open spec fn can_advance(self, action: Action) -> bool {
        &&& self.iterations < self.nonces.len()
        &&& self.citizens.can_apply(action)
        &&& self.citizens.after(action) is Ok ==> {
            &&& self.land.can_apply(action)
            &&& self.land.after(action) is Ok ==> {
                &&& append_fits(self.log, action)
                &&& self.iterations < usize::MAX
            }
        }
    }

    /// One more iteration playing `action`, before its nonce is committed,
    /// given the hash of the resources before the iteration.
    pub open spec fn advanced(self, action: Action, resources_hash: u64) -> Result<
        ChainView,
        IterationError,
    > {
        match self.citizens.after(action) {
            Err(e) => Err(e),
            Ok(citizens) => match self.land.after(action) {
                Err(e) => Err(e),
                Ok(land) => Ok(
                    ChainView {
                        prev_hash: self.hash(self.nonces[self.iterations as int], resources_hash),
                        iterations: (self.iterations + 1) as usize,
                        citizens,
                        land,
                        log: narrow(appended(self.log, action)),
                        ..self
                    },
                ),
            },
        }
    }
}

impl Chain {
    /// The chain of a new game with this seed.
    pub fn new(seed: i128) -> (r: Chain)
        ensures
            r@ == initial_chain(seed),
            r.seed == seed,
            r.prev_hash == 0,
            r.iterations == 0,
            r.citizens.population() == 0,
            r.citizens.max_population == 0,
            r.land == default_land(),
            r.land.total_land == 1000,
            r.land.used() == 0,
            r.log@.len() == 0,
            r.nonces@ == seq![0usize],
    {
        let mut nonces: Vec<usize> = Vec::new();
        nonces.push(0);
        Chain {
            seed,
            prev_hash: 0,
            iterations: 0,
            citizens: Citizens::default(),
            land: Land::default(),
            log: Vec::new(),
            nonces,
        }
    }

    /// The chain that replaying this one starts from: a new game with the
    /// same seed, holding the same nonces.
    pub fn replay_base(&self) -> (r: Chain)
        ensures
            r@ == (ChainView { nonces: self.nonces@, ..initial_chain(self.seed) }),
    {
        let nonces = self.nonces.clone();
        assert(nonces@ =~= self.nonces@);
        Chain { nonces, ..Chain::new(self.seed) }
    }

    /// The nonce that the current state was committed with.
    pub fn prev_iteration_nonce(&self) -> (r: usize)
        requires
            self.iterations < self.nonces@.len(),
        ensures
            r == self.nonces@[self.iterations as int],
    {
        self.nonces[self.iterations]
    }

    /// The default hasher's digest of the seed, previous hash, iteration
    /// count, `nonce`, and the hashes of the resources, citizens and land.
    pub fn hash(&self, nonce: usize, resources_hash: u64) -> (r: u64)
        ensures
            r == self@.hash(nonce, resources_hash),
            r == digest(
                seq![
                    i128_bytes(self.seed),
                    u64_bytes(self.prev_hash),
                    usize_bytes(self.iterations),
                    usize_bytes(nonce),
                    u64_bytes(resources_hash),
                    u64_bytes(digest(self.citizens.hash_input())),
                    u64_bytes(digest(self.land.hash_input())),
                ],
            ),
    {
        let citizens_hash = self.citizens.hash();
        let land_hash = self.land.hash();
        let mut hasher = DefaultHasher::new();
        write_i128(&mut hasher, self.seed);
        write_u64(&mut hasher, self.prev_hash);
        write_usize(&mut hasher, self.iterations);
        write_usize(&mut hasher, nonce);
        write_u64(&mut hasher, resources_hash);
        write_u64(&mut hasher, citizens_hash);
        write_u64(&mut hasher, land_hash);
        assert(hasher@ =~= self@.hash_input(nonce, resources_hash));
        hasher.finish()
    }

    /// The smallest nonce that makes the state's hash small enough, or
    /// `None` when no `usize` does.
    pub fn calculate_nonce(&self, resources_hash: u64) -> (r: Option<usize>)
        requires
            self.iterations <= usize::MAX / 2 + 1,
        ensures
            match r {
                Some(n) => self@.nonce_ok(n, resources_hash) && forall|m: usize|
                    m < n ==> !self@.nonce_ok(m, resources_hash),
                None => forall|m: usize| !self@.nonce_ok(m, resources_hash),
            },
    {
        let max = max_hash(self.iterations);
        let mut nonce: usize = 0;
        loop
            invariant
                max == max_hash_spec(self.iterations as nat),
                forall|m: usize| m < nonce ==> !self@.nonce_ok(m, resources_hash),
            decreases usize::MAX - nonce,
        {
            if self.hash(nonce, resources_hash) <= max {
                return Some(nonce);
            }
            if nonce == usize::MAX {
                return None;
            }
            nonce = nonce + 1;
        }
    }

    /// Commits the current state: appends the smallest nonce that makes its
    /// hash small enough, given the hash of its resources; `None` when no
    /// `usize` nonce does.
    pub fn commit(self, resources_hash: u64) -> (r: Option<Chain>)
        requires
            self.iterations <= usize::MAX / 2 + 1,
        ensures
            match r {
                Some(c) => exists|n: usize|
                    {
                        &&& self@.nonce_ok(n, resources_hash)
                        &&& forall|m: usize| m < n ==> !self@.nonce_ok(m, resources_hash)
                        &&& c@ == ChainView { nonces: self@.nonces.push(n), ..self@ }
                    },
                None => forall|m: usize| !self@.nonce_ok(m, resources_hash),
            },
    {
        match self.calculate_nonce(resources_hash) {
            Some(nonce) => {
                let mut chain = self;
                chain.nonces.push(nonce);
                Some(chain)
            },
            None => None,
        }
    }

    /// Whether one more iteration playing `action` computes without overflow
    /// or an index out of bounds.
    pub fn can_advance(&self, action: &Action) -> (r: bool)
        ensures
            r == self@.can_advance(*action),
    {
        if !(self.iterations < self.nonces.len() && self.citizens.can_apply_action(action)) {
            return false;
        }
        match self.citizens.apply(action) {
            Err(_) => true,
            Ok(_) => {
                if !self.land.can_apply_action(action) {
                    return false;
                }
                match self.land.apply(action) {
                    Err(_) => true,
                    Ok(_) => log_append_fits(&self.log, *action) && self.iterations < usize::MAX,
                }
            },
        }
    }

    /// One more iteration playing `action`, before its nonce is committed:
    /// hashes the current state into `prev_hash` (given the hash of the
    /// current resources), applies the action to the citizens and the land,
    /// and logs it. The random source of the iteration goes unused here.
    pub fn advance(self, action: &Action, resources_hash: u64, ctx: &mut Context) -> (r: Result<
        Chain,
        IterationError,
    >)
        requires
            self@.can_advance(*action),
        ensures
            *final(ctx) == *old(ctx),
            r matches Ok(c) ==> {
                &&& c.prev_hash == self@.hash(self.nonces@[self.iterations as int], resources_hash)
                &&& c.seed == self.seed
                &&& c.iterations == self.iterations + 1
                &&& c.nonces@ == self.nonces@
            },
            match (r, self@.advanced(*action, resources_hash)) {
                (Ok(c), Ok(v)) => c@ == v,
                (Err(e), Err(f)) => e == f,
                _ => false,
            },
    {
        let prev_hash = self.hash(self.prev_iteration_nonce(), resources_hash);
        let citizens = self.citizens.apply_action(action, ctx)?;
        let land = self.land.apply_action(action, ctx)?;
        let log = append_log(&self.log, *action);
        proof {
            lemma_narrow_widen(log@);
        }
        Ok(Chain { prev_hash, iterations: self.iterations + 1, citizens, land, log, ..self })
    }

    /// Compares the hash of this state with that of the state replayed from
    /// its log, each with the nonce it was committed with and the hash of
    /// its resources.
    pub fn verify(&self, resources_hash: u64, replayed: &Chain, replayed_resources_hash: u64) -> (r:
        Result<(), CheckError>)
        requires
            self.iterations < self.nonces@.len(),
            replayed.iterations < replayed.nonces@.len(),
        ensures
            r is Ok <==> self@.hash(self.nonces@[self.iterations as int], resources_hash)
                == replayed@.hash(
                replayed.nonces@[replayed.iterations as int],
                replayed_resources_hash,
            ),
            r is Err ==> r == Err::<(), CheckError>(CheckError::HashMismatch),
    {
        if self.hash(self.prev_iteration_nonce(), resources_hash) == replayed.hash(
            replayed.prev_iteration_nonce(),
            replayed_resources_hash,
        ) {
            Ok(())
        } else {
            Err(CheckError::HashMismatch)
        }
    }
}

/// A log whose counts fit taken back to `u64` is the log itself.
proof fn lemma_narrow_widen(log: Seq<LogEntry>)
    ensures
        narrow(widen(log)) == log,
{
    assert(narrow(widen(log)) =~= log);
}

/// The chain after playing `actions` from `start`, committing each
/// iteration `k` with `nonces[k]`; `hashes[k]` is the hash of the resources
/// before iteration `k`. `None` when an iteration fails or cannot compute.
pub open spec fn run(start: ChainView, actions: Seq<Action>, hashes: Seq<u64>, nonces: Seq<usize>) -> Option<
    ChainView,
>
    decreases actions.len(),
{
    if actions.len() == 0 {
        Some(start)
    } else {
        let k = actions.len() - 1;
        match run(start, actions.drop_last(), hashes, nonces) {
            None => None,
            Some(v) => if v.can_advance(actions[k]) {
                match v.advanced(actions[k], hashes[k]) {
                    Ok(w) => Some(ChainView { nonces: w.nonces.push(nonces[k]), ..w }),
                    Err(_) => None,
                }
            } else {
                None
            },
        }
    }
}

/// The chain after replaying `actions` from `start` without committing:
/// the nonces stay those of `start`.
pub open spec fn replay(start: ChainView, actions: Seq<Action>, hashes: Seq<u64>) -> Option<ChainView>
    decreases actions.len(),
{
    if actions.len() == 0 {
        Some(start)
    } else {
        let k = actions.len() - 1;
        match replay(start, actions.drop_last(), hashes) {
            None => None,
            Some(v) => if v.can_advance(actions[k]) {
                match v.advanced(actions[k], hashes[k]) {
                    Ok(w) => Some(w),
                    Err(_) => None,
                }
            } else {
                None
            },
        }
    }
}

/// The counts of a log that fits, taken to `u64` and back, are unchanged.
proof fn lemma_widen_narrow(log: Seq<(Action, int)>)
    requires
        forall|i: int| 0 <= i < log.len() ==> 0 <= #[trigger] log[i].1 <= u64::MAX,
    ensures
        widen(narrow(log)) == log,
{
    assert(widen(narrow(log)) =~= log);
}

proof fn lemma_run_replays(
    seed: i128,
    actions: Seq<Action>,
    hashes: Seq<u64>,
    nonces: Seq<usize>,
    all_nonces: Seq<usize>,
)
    requires
        run(initial_chain(seed), actions, hashes, nonces) is Some,
        run(initial_chain(seed), actions, hashes, nonces).unwrap().nonces == all_nonces.take(
            run(initial_chain(seed), actions, hashes, nonces).unwrap().nonces.len() as int,
        ),
        run(initial_chain(seed), actions, hashes, nonces).unwrap().nonces.len() <= all_nonces.len(),
    ensures
        ({
            let c = run(initial_chain(seed), actions, hashes, nonces).unwrap();
            &&& c.iterations == actions.len()
            &&& c.nonces.len() == actions.len() + 1
            &&& is_compact(widen(c.log))
            &&& counts_positive(widen(c.log))
            &&& expand(widen(c.log)) == actions
            &&& replay(
                ChainView { nonces: all_nonces, ..initial_chain(seed) },
                actions,
                hashes,
            ) == Some(ChainView { nonces: all_nonces, ..c })
        }),
    decreases actions.len(),
{
    let start = initial_chain(seed);
    let c = run(start, actions, hashes, nonces).unwrap();
    if actions.len() == 0 {
        assert(widen(c.log) =~= seq![]);
        assert(expand(widen(c.log)) =~= actions);
    } else {
        let k = actions.len() - 1;
        let a = actions[k];
        let init = actions.drop_last();
        let v = run(start, init, hashes, nonces).unwrap();
        let w = v.advanced(a, hashes[k])->Ok_0;
        assert(c == ChainView { nonces: w.nonces.push(nonces[k]), ..w });
        assert(v.nonces =~= c.nonces.drop_last());
        assert(v.nonces =~= all_nonces.take(v.nonces.len() as int));
        lemma_run_replays(seed, init, hashes, nonces, all_nonces);
        lemma_appended_compact(v.log, a);
        lemma_appended_expands(v.log, a);
        lemma_widen_narrow(appended(v.log, a));
        let vf = ChainView { nonces: all_nonces, ..v };
        assert(vf.nonces[vf.iterations as int] == v.nonces[v.iterations as int]);
        assert(vf.can_advance(a));
        assert(vf.advanced(a, hashes[k]) == Ok::<ChainView, IterationError>(
            ChainView { nonces: all_nonces, ..w },
        ));
    }
}

/// A chain built by committed iterations from a new game is reproduced by
/// replaying its log from a new game with the same seed and the chain's
/// nonces, given the same hashes of the resources at each iteration: its log
/// lists exactly the actions played, and the replay ends on the same chain,
/// so that `verify` finds the hashes equal.
pub proof fn lemma_replay_reproduces(
    seed: i128,
    actions: Seq<Action>,
    hashes: Seq<u64>,
    nonces: Seq<usize>,
)
    requires
        run(initial_chain(seed), actions, hashes, nonces) is Some,
    ensures
        ({
            let c = run(initial_chain(seed), actions, hashes, nonces).unwrap();
            &&& expand(widen(c.log)) == actions
            &&& c.iterations == actions.len()
            &&& c.iterations < c.nonces.len()
            &&& replay(ChainView { nonces: c.nonces, ..initial_chain(seed) }, expand(widen(c.log)), hashes)
                == Some(c)
        }),
{
    let c = run(initial_chain(seed), actions, hashes, nonces).unwrap();
    assert(c.nonces.take(c.nonces.len() as int) =~= c.nonces);
    lemma_run_replays(seed, actions, hashes, nonces, c.nonces);
    assert(ChainView { nonces: c.nonces, ..c } == c);
}

/// A new game starts with seed `seed`, no previous hash, no iterations, no
/// citizens, the default land (a thousand free plots), an empty log, and the
/// nonce 0 for its starting state.
pub proof fn lemma_new_game(seed: i128)
    ensures
        initial_chain(seed).seed == seed,
        initial_chain(seed).prev_hash == 0,
        initial_chain(seed).iterations == 0,
        initial_chain(seed).citizens.population() == 0,
        initial_chain(seed).citizens.max_population == 0,
        initial_chain(seed).land == default_land(),
        initial_chain(seed).land.total_land - initial_chain(seed).land.used() == 1000,
        initial_chain(seed).log.len() == 0,
        initial_chain(seed).nonces == seq![0usize],
{
}

/// The hash of a state depends on every part of it: states whose hash
/// inputs agree have the same seed, previous hash and iteration count, were
/// hashed with the same nonce and resources hash, and have citizens and land
/// that hash alike.
pub proof fn lemma_hash_input_injective(
    v: ChainView,
    w: ChainView,
    n: usize,
    m: usize,
    r: u64,
    s: u64,
)
    requires
        v.hash_input(n, r) == w.hash_input(m, s),
    ensures
        v.seed == w.seed,
        v.prev_hash == w.prev_hash,
        v.iterations == w.iterations,
        n == m,
        r == s,
        digest(v.citizens.hash_input()) == digest(w.citizens.hash_input()),
        digest(v.land.hash_input()) == digest(w.land.hash_input()),
{
    let a = v.hash_input(n, r);
    let b = w.hash_input(m, s);
    assert(a[0] == b[0] && a[1] == b[1] && a[2] == b[2] && a[3] == b[3]);
    assert(a[4] == b[4] && a[5] == b[5] && a[6] == b[6]);
    lemma_i128_bytes_injective(v.seed, w.seed);
    lemma_u64_bytes_injective(v.prev_hash, w.prev_hash);
    lemma_usize_bytes_injective(v.iterations, w.iterations);
    lemma_usize_bytes_injective(n, m);
    lemma_u64_bytes_injective(r, s);
    lemma_u64_bytes_injective(digest(v.citizens.hash_input()), digest(w.citizens.hash_input()));
    lemma_u64_bytes_injective(digest(v.land.hash_input()), digest(w.land.hash_input()));
}

/// An iteration links the new state to the one before it: the new previous
/// hash is the hash of the state before, taken with the nonce that state was
/// committed with and the hash of its resources, so the seed of the next
/// iteration's random generator depends on it too; seed and nonces stay,
/// and the iteration count grows by one.
pub proof fn lemma_advance_links(v: ChainView, action: Action, resources_hash: u64)
    requires
        v.can_advance(action),
        v.advanced(action, resources_hash) is Ok,
    ensures
        ({
            let w = v.advanced(action, resources_hash)->Ok_0;
            let h = v.hash(v.nonces[v.iterations as int], resources_hash);
            &&& w.prev_hash == h
            &&& rng_seed_bytes(w.seed, w.prev_hash) == rng_seed_bytes(v.seed, h)
            &&& w.seed == v.seed
            &&& w.nonces == v.nonces
            &&& w.iterations == v.iterations + 1
        }),
{
}

/// Iterations from states that hash differently lead to states that hash
/// differently with any nonce and resources hash: the chain carries each
/// state's hash into the next.
pub proof fn lemma_advance_chains(
    v1: ChainView,
    a1: Action,
    r1: u64,
    v2: ChainView,
    a2: Action,
    r2: u64,
    nonce: usize,
    resources_hash: u64,
)
    requires
        v1.can_advance(a1),
        v2.can_advance(a2),
        v1.advanced(a1, r1) is Ok,
        v2.advanced(a2, r2) is Ok,
        v1.hash(v1.nonces[v1.iterations as int], r1) != v2.hash(v2.nonces[v2.iterations as int], r2),
    ensures
        v1.advanced(a1, r1)->Ok_0.hash_input(nonce, resources_hash) != v2.advanced(
            a2,
            r2,
        )->Ok_0.hash_input(nonce, resources_hash),
{
    let w1 = v1.advanced(a1, r1)->Ok_0;
    let w2 = v2.advanced(a2, r2)->Ok_0;
    lemma_advance_links(v1, a1, r1);
    lemma_advance_links(v2, a2, r2);
    if w1.hash_input(nonce, resources_hash) == w2.hash_input(nonce, resources_hash) {
        lemma_hash_input_injective(w1, w2, nonce, nonce, resources_hash, resources_hash);
    }
}

} // verus!
