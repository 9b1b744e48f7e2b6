//! Deriving genetic material for new items.
//!
//! A fresh genome is the 16-byte Blake2b digest of a payload built from a
//! per-block randomness seed, the caller identity, and an operation
//! sequence number. The derivation is deterministic in these three
//! inputs, which keeps the state machine replayable. Breeding combines
//! two parent genomes under a freshly derived selector mask, bit by bit.

use vstd::prelude::*;

verus! {

broadcast use vstd::array::group_array_axioms;

/// The 16-byte Blake2b digest of `data`, named abstractly: the digest is
/// a function of the input bytes alone.
pub uninterp spec fn blake2_128_of(data: Seq<u8>) -> Seq<u8>;

/// Relies on `sp_io::hashing::blake2_128`: the 128-bit Blake2b digest of
/// the input bytes, a pure function of `data` alone.
#[verifier::external_body]
fn blake2_128(data: &Vec<u8>) -> (r: [u8; 16])
    ensures
        r@ == blake2_128_of(data@),
{
    sp_io::hashing::blake2_128(data.as_slice())
}

/// The byte string hashed to derive a genome: the 32-byte seed, then the
/// caller identity in little-endian form, then the operation nonce in
/// little-endian form.
pub open spec fn payload_of(seed: Seq<u8>, who: u64, nonce: u32) -> Seq<u8> {
    seed + vstd::bytes::spec_u64_to_le_bytes(who) + vstd::bytes::spec_u32_to_le_bytes(nonce)
}

/// The genome derived for caller `who` from `seed` and `nonce`.
pub open spec fn derived_dna(seed: Seq<u8>, who: u64, nonce: u32) -> Seq<u8> {
    blake2_128_of(payload_of(seed, who, nonce))
}

/// A single byte of a child genome: bits are taken from the first parent
/// where the selector bit is set, and from the second parent where it is
/// clear.
pub open spec fn mix_byte(sel: u8, a: u8, b: u8) -> u8 {
    (sel & a) | (!sel & b)
}

/// The full child genome bred from parents `a` and `b` under `sel`.
pub open spec fn mixed_dna(sel: Seq<u8>, a: Seq<u8>, b: Seq<u8>) -> Seq<u8> {
    Seq::new(16, |i: int| mix_byte(sel[i], a[i], b[i]))
}

/// The child genome that breeding by `who` assigns, given the randomness
/// seed, the operation nonce, and the two parent genomes.
pub open spec fn bred_dna(seed: Seq<u8>, who: u64, nonce: u32, a: Seq<u8>, b: Seq<u8>) -> Seq<u8> {
    mixed_dna(derived_dna(seed, who, nonce), a, b)
}

/// Breeding is deterministic: equal seeds, callers, nonces, and parent
/// genomes always give equal child genomes.
pub proof fn lemma_breeding_deterministic(
    seed1: Seq<u8>,
    who1: u64,
    nonce1: u32,
    a1: Seq<u8>,
    b1: Seq<u8>,
    seed2: Seq<u8>,
    who2: u64,
    nonce2: u32,
    a2: Seq<u8>,
    b2: Seq<u8>,
)
    requires
        seed1 == seed2,
        who1 == who2,
        nonce1 == nonce2,
        a1 == a2,
        b1 == b2,
    ensures
        bred_dna(seed1, who1, nonce1, a1, b1) == bred_dna(seed2, who2, nonce2, a2, b2),
{
}

/// Each byte of a child genome is exactly the selector-masked mix of the
/// parents' bytes at that position.
pub proof fn lemma_bred_dna_bytes(seed: Seq<u8>, who: u64, nonce: u32, a: Seq<u8>, b: Seq<u8>)
    ensures
        bred_dna(seed, who, nonce, a, b).len() == 16,
        forall|i: int|
            0 <= i < 16 ==> bred_dna(seed, who, nonce, a, b)[i] == mix_byte(
                derived_dna(seed, who, nonce)[i],
                a[i],
                b[i],
            ),
{
}

/// Derive a genome for caller `who` from the externally supplied
/// randomness seed and operation nonce.
pub fn random_value(who: u64, seed: &[u8; 32], nonce: u32) -> (dna: [u8; 16])
    ensures
        dna@ == derived_dna(seed@, who, nonce),
{
    let mut payload: Vec<u8> = Vec::new();
    let mut i: usize = 0;
    while i < 32
        invariant
            i <= 32,
            payload@ == seed@.subrange(0, i as int),
        decreases 32 - i,
    {
        payload.push(seed[i]);
        i = i + 1;
    }
    proof {
        assert(payload@ =~= seed@);
    }
    let mut who_bytes = vstd::bytes::u64_to_le_bytes(who);
    payload.append(&mut who_bytes);
    let mut nonce_bytes = vstd::bytes::u32_to_le_bytes(nonce);
    payload.append(&mut nonce_bytes);
    blake2_128(&payload)
}

/// Combine two parent genomes under a selector mask, byte by byte.
pub fn mix_dna(selector: &[u8; 16], a: &[u8; 16], b: &[u8; 16]) -> (child: [u8; 16])
    ensures
        child@ == mixed_dna(selector@, a@, b@),
{
    let mut child: [u8; 16] = [0u8; 16];
    let mut i: usize = 0;
    while i < 16
        invariant
            i <= 16,
            forall|j: int| 0 <= j < i ==> child@[j] == mix_byte(selector@[j], a@[j], b@[j]),
        decreases 16 - i,
    {
        child[i] = (selector[i] & a[i]) | (!selector[i] & b[i]);
        i = i + 1;
    }
    proof {
        assert(child@ =~= mixed_dna(selector@, a@, b@));
    }
    child
}

} // verus!
