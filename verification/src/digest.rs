//! The trial-value digest: a pure function from a nonce and a fixed initial
//! payload hash to a numeric trial value.
//!
//! The nonce's big-endian byte representation is concatenated with the
//! initial hash bytes, hashed twice with SHA-512, and the first 8 bytes of
//! the final digest, read as a big-endian unsigned integer, are the trial
//! value.

use sha2::Digest;
use vstd::prelude::*;

verus! {

/// What SHA-512 returns on a given input. The digest depends on the input
/// bytes alone, so it can be named; nothing here states the algorithm.
pub uninterp spec fn sha512_of(data: Seq<u8>) -> Seq<u8>;

/// Relies on sha2's `Sha512::digest`: a 64-byte digest, a function of the
/// input bytes alone.
#[verifier::external_body]
fn sha512(data: &[u8]) -> (r: Vec<u8>)
    ensures
        r@ == sha512_of(data@),
        r@.len() == 64,
{
    sha2::Sha512::digest(data).to_vec()
}

/// The minimal big-endian byte representation of `n`: empty for zero,
/// otherwise without leading zero bytes.
pub open spec fn be_bytes_of(n: nat) -> Seq<u8>
    decreases n,
{
    if n == 0 {
        Seq::empty()
    } else {
        be_bytes_of(n / 256).push((n % 256) as u8)
    }
}

/// A nonce's big-endian byte representation: a single zero byte for zero
/// (a number has at least one digit), minimal big-endian otherwise.
pub open spec fn nonce_bytes(n: nat) -> Seq<u8> {
    if n == 0 {
        seq![0u8]
    } else {
        be_bytes_of(n)
    }
}

/// The value of a byte sequence read as a big-endian unsigned integer.
pub open spec fn be_value_of(s: Seq<u8>) -> nat
    decreases s.len(),
{
    if s.len() == 0 {
        0
    } else {
        (be_value_of(s.drop_last()) * 256 + s.last()) as nat
    }
}

/// 256 raised to the power `n`: the number of values `n` bytes can take.
pub open spec fn pow256(n: nat) -> nat
    decreases n,
{
    if n == 0 {
        1
    } else {
        256 * pow256((n - 1) as nat)
    }
}

proof fn lemma_pow256_mono(a: nat, b: nat)
    requires
        a <= b,
    ensures
        pow256(a) <= pow256(b),
    decreases b,
{
    if a < b {
        lemma_pow256_mono(a, (b - 1) as nat);
    }
}

/// A byte sequence's big-endian value is below the count of values its
/// length can take.
proof fn lemma_be_value_bound(s: Seq<u8>)
    ensures
        be_value_of(s) < pow256(s.len()),
    decreases s.len(),
{
    if s.len() > 0 {
        lemma_be_value_bound(s.drop_last());
    }
}

/// The minimal big-endian bytes of `n`, computed as the spec describes them.
fn be_bytes(n: u64) -> (r: Vec<u8>)
    ensures
        r@ == be_bytes_of(n as nat),
    decreases n,
{
    if n == 0 {
        Vec::new()
    } else {
        let mut r = be_bytes(n / 256);
        r.push((n % 256) as u8);
        r
    }
}

/// The big-endian byte representation of a nonce, as it is fed to the hash.
fn nonce_to_bytes(n: u64) -> (r: Vec<u8>)
    ensures
        r@ == nonce_bytes(n as nat),
{
    if n == 0 {
        let mut r: Vec<u8> = Vec::new();
        r.push(0u8);
        assert(r@ =~= nonce_bytes(0));
        r
    } else {
        be_bytes(n)
    }
}

/// Reads the first 8 bytes of `s` as a big-endian unsigned integer.
fn be_u64_prefix(s: &Vec<u8>) -> (v: u64)
    requires
        s@.len() >= 8,
    ensures
        v as nat == be_value_of(s@.take(8)),
{
    let mut v: u64 = 0;
    let mut i: usize = 0;
    while i < 8
        invariant
            0 <= i <= 8,
            s@.len() >= 8,
            v as nat == be_value_of(s@.take(i as int)),
            (v as nat) < pow256(i as nat),
        decreases 8 - i,
    {
        proof {
            assert(s@.take(i + 1).drop_last() =~= s@.take(i as int));
            assert(s@.take(i + 1).last() == s@[i as int]);
            lemma_pow256_mono((i + 1) as nat, 8);
            assert(pow256(8) == 0x1_0000_0000_0000_0000) by {
                reveal_with_fuel(pow256, 9);
            }
        }
        v = v * 256 + (s[i] as u64);
        i = i + 1;
    }
    v
}

/// The trial value for a nonce and an initial payload hash: the first 8
/// bytes of the double SHA-512 digest of the nonce's big-endian bytes
/// followed by the initial hash, read as a big-endian unsigned integer.
pub open spec fn trial_value_of(nonce: u64, initial_hash: Seq<u8>) -> nat {
    be_value_of(sha512_of(sha512_of(nonce_bytes(nonce as nat) + initial_hash)).take(8))
}

impl crate::AsyncPoW {
    /// Computes the trial value for `nonce` under `initial_hash`.
    /// Deterministic and pure: the result is exactly `trial_value_of`.
    pub fn digest(nonce: u64, initial_hash: &Vec<u8>) -> (v: u64)
        ensures
            v as nat == trial_value_of(nonce, initial_hash@),
    {
        let mut input = nonce_to_bytes(nonce);
        input.extend_from_slice(initial_hash.as_slice());
        assert(input@ =~= nonce_bytes(nonce as nat) + initial_hash@);
        let first = sha512(input.as_slice());
        let second = sha512(first.as_slice());
        be_u64_prefix(&second)
    }
}

} // verus!
