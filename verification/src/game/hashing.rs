//! Feeding integers to the standard library's default hasher.
//!
//! `Hasher::write_u64`, `write_usize` and `write_i128` feed a hasher the
//! bytes of the integer in the machine's byte order; the functions here do
//! the same through `Hasher::write`, whose effect vstd specifies.
use std::collections::hash_map::DefaultHasher;
use std::hash::Hasher;
use vstd::arithmetic::div_mod::{lemma_fundamental_div_mod, lemma_mod_multiples_basic};
use vstd::arithmetic::power::{lemma_pow_positive, pow};
use vstd::endian::{endianness, Endian};
use vstd::prelude::*;
use vstd::std_specs::hash::DefaultHasherAdditionalSpecFns;

verus! {

/// The `n` least significant bytes of `v`, least significant first
/// (for a negative `v`, those of its two's complement).
pub open spec fn le_bytes(v: int, n: nat) -> Seq<u8>
    decreases n,
{
    if n == 0 {
        seq![]
    } else {
        seq![(v % 256) as u8] + le_bytes(v / 256, (n - 1) as nat)
    }
}

/// The `n` least significant bytes of `v` in the byte order of the machine.
pub open spec fn native_bytes(v: int, n: nat) -> Seq<u8> {
    match endianness() {
        Endian::Little => le_bytes(v, n),
        Endian::Big => le_bytes(v, n).reverse(),
    }
}

/// The number of bytes in a `usize`.
pub open spec fn usize_width() -> nat {
    (usize::BITS / 8) as nat
}

/// What `write_u64(x)` feeds a hasher.
pub open spec fn u64_bytes(x: u64) -> Seq<u8> {
    native_bytes(x as int, 8)
}

/// What `write_usize(x)` feeds a hasher.
pub open spec fn usize_bytes(x: usize) -> Seq<u8> {
    native_bytes(x as int, usize_width())
}

/// What `write_i128(x)` feeds a hasher.
pub open spec fn i128_bytes(x: i128) -> Seq<u8> {
    native_bytes(x as int, 16)
}

/// The value that a fresh `DefaultHasher` finishes with after the given writes.
pub open spec fn digest(writes: Seq<Seq<u8>>) -> u64 {
    DefaultHasher::spec_finish(writes)
}

/// Trusted: `u64::to_ne_bytes`, which returns the memory representation of
/// `x`, its eight bytes in the machine's byte order.
#[verifier::external_body]
fn u64_to_ne_bytes(x: u64) -> (r: [u8; 8])
    ensures
        r@ == u64_bytes(x),
{
    x.to_ne_bytes()
}

/// Trusted: `usize::to_ne_bytes`, which returns the memory representation of
/// `x`, its bytes in the machine's byte order.
#[verifier::external_body]
fn usize_to_ne_bytes(x: usize) -> (r: Vec<u8>)
    ensures
        r@ == usize_bytes(x),
{
    x.to_ne_bytes().to_vec()
}

/// Trusted: `i128::to_ne_bytes`, which returns the memory representation of
/// `x` (two's complement), its sixteen bytes in the machine's byte order.
#[verifier::external_body]
fn i128_to_ne_bytes(x: i128) -> (r: [u8; 16])
    ensures
        r@ == i128_bytes(x),
{
    x.to_ne_bytes()
}

/// Feeds `x` to the hasher as `Hasher::write_u64` does.
pub fn write_u64(hasher: &mut DefaultHasher, x: u64)
    ensures
        final(hasher)@ == old(hasher)@.push(u64_bytes(x)),
{
    let bytes = u64_to_ne_bytes(x);
    hasher.write(bytes.as_slice());
}

/// Feeds `x` to the hasher as `Hasher::write_usize` does.
pub fn write_usize(hasher: &mut DefaultHasher, x: usize)
    ensures
        final(hasher)@ == old(hasher)@.push(usize_bytes(x)),
{
    let bytes = usize_to_ne_bytes(x);
    hasher.write(bytes.as_slice());
}

/// Feeds `x` to the hasher as `Hasher::write_i128` does.
pub fn write_i128(hasher: &mut DefaultHasher, x: i128)
    ensures
        final(hasher)@ == old(hasher)@.push(i128_bytes(x)),
{
    let bytes = i128_to_ne_bytes(x);
    hasher.write(bytes.as_slice());
}

/// The `n` low bytes of an integer are `n` bytes.
pub proof fn lemma_le_bytes_len(v: int, n: nat)
    ensures
        le_bytes(v, n).len() == n,
    decreases n,
{
    if n > 0 {
        lemma_le_bytes_len(v / 256, (n - 1) as nat);
    }
}

/// Integers with the same `n` low bytes differ by a multiple of `256^n`.
pub proof fn lemma_le_bytes_congruent(v: int, w: int, n: nat)
    requires
        le_bytes(v, n) == le_bytes(w, n),
    ensures
        (v - w) % pow(256, n) == 0,
    decreases n,
{
    reveal(pow);
    if n == 0 {
        assert(pow(256, 0) == 1);
    } else {
        let m = (n - 1) as nat;
        let a = v / 256;
        let b = w / 256;
        lemma_le_bytes_len(a, m);
        lemma_le_bytes_len(b, m);
        assert(le_bytes(v, n)[0] == (v % 256) as u8);
        assert(le_bytes(w, n)[0] == (w % 256) as u8);
        assert(le_bytes(v, n)[0] == le_bytes(w, n)[0]);
        assert(((v % 256) as u8) as int == v % 256);
        assert(((w % 256) as u8) as int == w % 256);
        assert(le_bytes(a, m) =~= le_bytes(v, n).subrange(1, n as int));
        assert(le_bytes(b, m) =~= le_bytes(w, n).subrange(1, n as int));
        lemma_le_bytes_congruent(a, b, m);
        let p = pow(256, m);
        lemma_pow_positive(256, m);
        assert(v % 256 == w % 256);
        lemma_fundamental_div_mod(v, 256);
        lemma_fundamental_div_mod(w, 256);
        lemma_fundamental_div_mod(a - b, p);
        let q = (a - b) / p;
        assert(a - b == p * q);
        assert(v - w == 256 * (a - b));
        assert(pow(256, n) == 256 * p);
        assert(v - w == q * (256 * p)) by (nonlinear_arith)
            requires
                v - w == 256 * (a - b),
                a - b == p * q,
        ;
        lemma_mod_multiples_basic(q, 256 * p);
    }
}

/// Two integers of one range of `256^n` values with the same `n` low bytes
/// are equal.
pub proof fn lemma_le_bytes_injective(v: int, w: int, n: nat, low: int)
    requires
        le_bytes(v, n) == le_bytes(w, n),
        low <= v < low + pow(256, n),
        low <= w < low + pow(256, n),
    ensures
        v == w,
{
    lemma_le_bytes_congruent(v, w, n);
    let m = pow(256, n);
    lemma_pow_positive(256, n);
    let d = v - w;
    lemma_fundamental_div_mod(d, m);
    let q = d / m;
    assert(d == m * q);
    assert(q == 0) by (nonlinear_arith)
        requires
            d == m * q,
            -m < d < m,
            m > 0,
    ;
}

/// Two integers of one range of `256^n` values with the same bytes in the
/// machine's order are equal.
pub proof fn lemma_native_bytes_injective(v: int, w: int, n: nat, low: int)
    requires
        native_bytes(v, n) == native_bytes(w, n),
        low <= v < low + pow(256, n),
        low <= w < low + pow(256, n),
    ensures
        v == w,
{
    match endianness() {
        Endian::Little => {},
        Endian::Big => {
            assert(le_bytes(v, n) =~= le_bytes(v, n).reverse().reverse());
            assert(le_bytes(w, n) =~= le_bytes(w, n).reverse().reverse());
        },
    }
    lemma_le_bytes_injective(v, w, n, low);
}

/// Different `u64` values feed a hasher different bytes.
pub proof fn lemma_u64_bytes_injective(x: u64, y: u64)
    ensures
        u64_bytes(x) == u64_bytes(y) ==> x == y,
{
    if u64_bytes(x) == u64_bytes(y) {
        reveal_with_fuel(pow, 9);
        assert(pow(256, 8) == 0x1_0000_0000_0000_0000);
        lemma_native_bytes_injective(x as int, y as int, 8, 0);
    }
}

/// Different `usize` values feed a hasher different bytes.
pub proof fn lemma_usize_bytes_injective(x: usize, y: usize)
    ensures
        usize_bytes(x) == usize_bytes(y) ==> x == y,
{
    if usize_bytes(x) == usize_bytes(y) {
        reveal_with_fuel(pow, 9);
        if usize::BITS == 32 {
            assert(usize_width() == 4);
            assert(usize::MAX == 0xffff_ffff);
            assert(pow(256, 4) == 0x1_0000_0000);
        } else {
            assert(usize_width() == 8);
            assert(usize::MAX == 0xffff_ffff_ffff_ffff);
            assert(pow(256, 8) == 0x1_0000_0000_0000_0000);
        }
        lemma_native_bytes_injective(x as int, y as int, usize_width(), 0);
    }
}

/// Different `i128` values feed a hasher different bytes.
pub proof fn lemma_i128_bytes_injective(x: i128, y: i128)
    ensures
        i128_bytes(x) == i128_bytes(y) ==> x == y,
{
    if i128_bytes(x) == i128_bytes(y) {
        reveal_with_fuel(pow, 17);
        assert(pow(256, 16) == 0x1_0000_0000_0000_0000_0000_0000_0000_0000);
        lemma_native_bytes_injective(
            x as int,
            y as int,
            16,
            -0x8000_0000_0000_0000_0000_0000_0000_0000,
        );
    }
}

} // verus!
