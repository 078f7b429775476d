//! Addresses, and the derivation of addresses that have no private key.
//!
//! A program-derived address is a hash of a seed sequence and the program's
//! identity that does not lie on the ed25519 curve, so nobody can sign for
//! it. Whether a given seed sequence yields such an address cannot be told in
//! advance; a one-byte bump seed is appended and counted down from 255 until
//! one does.

use vstd::prelude::*;
use vstd::std_specs::cmp::PartialEqSpecImpl;
use anchor_lang::prelude::Pubkey;
use anchor_lang::solana_program::pubkey::PubkeyError;

verus! {

/// The identity of an account or a program: 32 bytes.
#[derive(Clone, Copy, Debug, Eq)]
pub struct Address {
    pub bytes: [u8; 32],
}

impl PartialEq for Address {
    /// Two addresses are equal when all their bytes are.
    fn eq(&self, other: &Address) -> (equal: bool) {
        let mut i: usize = 0;
        while i < 32
            invariant
                i <= 32,
                forall|j: int| 0 <= j < i ==> self.bytes[j] == other.bytes[j],
            decreases 32 - i,
        {
            if self.bytes[i] != other.bytes[i] {
                return false;
            }
            i += 1;
        }
        assert(self@ =~= other@);
        true
    }
}

impl PartialEqSpecImpl for Address {
    open spec fn obeys_eq_spec() -> bool {
        true
    }

    open spec fn eq_spec(&self, other: &Address) -> bool {
        self@ == other@
    }
}

impl View for Address {
    type V = Seq<u8>;

    open spec fn view(&self) -> Seq<u8> {
        self.bytes@
    }
}

impl Address {
    /// The address made of the given bytes.
    pub fn new(bytes: [u8; 32]) -> (address: Address)
        ensures
            address.bytes == bytes,
    {
        Address { bytes }
    }

    /// The bytes of the address as a seed.
    pub fn to_seed(&self) -> (seed: Vec<u8>)
        ensures
            seed@ == self@,
    {
        let mut seed: Vec<u8> = Vec::new();
        let mut i: usize = 0;
        while i < 32
            invariant
                i <= 32,
                seed@ == self@.subrange(0, i as int),
            decreases 32 - i,
        {
            seed.push(self.bytes[i]);
            i += 1;
            assert(seed@ == self@.subrange(0, i as int));
        }
        assert(seed@ == self@);
        seed
    }
}

/// Why a seed sequence yields no address.
#[derive(Clone, Copy, Debug, PartialEq, Eq, Structural)]
pub enum SeedError {
    /// More than 16 seeds, or a seed longer than 32 bytes.
    MaxSeedLengthExceeded,
    /// The hash of the seeds lies on the curve: a private key could exist.
    InvalidSeeds,
    /// The owner given is not allowed to own a derived address.
    IllegalOwner,
}

/// What a seed sequence says to the derivation: each seed as its bytes.
pub open spec fn seeds_view(seeds: &Vec<Vec<u8>>) -> Seq<Seq<u8>> {
    seeds@.map_values(|seed: Vec<u8>| seed@)
}

/// A derivation as the bytes it yields.
pub open spec fn derivation_view(derived: Result<Address, SeedError>) -> Result<Seq<u8>, SeedError> {
    match derived {
        Ok(address) => Ok(address@),
        Err(error) => Err(error),
    }
}

/// The address that `seeds` derive under `program_id`, or why there is none:
/// what `Pubkey::create_program_address` returns. It hashes the seeds in
/// sequence, then the program's identity and a fixed marker, with SHA-256,
/// and yields the hash unless it is a point of the ed25519 curve. The result
/// depends on nothing but the bytes given; nothing more is assumed of it.
pub uninterp spec fn program_address(seeds: Seq<Seq<u8>>, program_id: Seq<u8>) -> Result<
    Seq<u8>,
    SeedError,
>;

/// Whether `seeds` derive exactly `address` under `program_id`.
pub open spec fn derives(seeds: Seq<Seq<u8>>, program_id: Seq<u8>, address: Seq<u8>) -> bool {
    program_address(seeds, program_id) == Ok::<Seq<u8>, SeedError>(address)
}

/// Calls `Pubkey::create_program_address` of `anchor_lang` on the seeds as
/// given, with no bump seed added. Not verified. The contract claims that
/// what comes back is `program_address` of the seeds' bytes and the
/// program's bytes: the derived address by its 32 bytes, or the kind of
/// error, so that equal bytes always give an equal outcome.
#[verifier::external_body]
pub(crate) fn create_program_address(seeds: &Vec<Vec<u8>>, program_id: &Address) -> (derived: Result<
    Address,
    SeedError,
>)
    ensures
        derivation_view(derived) == program_address(seeds_view(seeds), program_id@),
{
    let slices: Vec<&[u8]> = seeds.iter().map(|seed| seed.as_slice()).collect();
    match Pubkey::create_program_address(&slices, &Pubkey::new_from_array(program_id.bytes)) {
        Ok(key) => Ok(Address { bytes: key.to_bytes() }),
        Err(PubkeyError::MaxSeedLengthExceeded) => Err(SeedError::MaxSeedLengthExceeded),
        Err(PubkeyError::InvalidSeeds) => Err(SeedError::InvalidSeeds),
        Err(PubkeyError::IllegalOwner) => Err(SeedError::IllegalOwner),
    }
}

/// What one candidate bump seed tells the search.
#[derive(Clone, Copy, Debug, PartialEq, Eq)]
pub enum Probe {
    /// The candidate derives this address: the search ends with it.
    Found(Address),
    /// The candidate's hash lies on the curve: try the next one.
    Retry,
    /// The seeds cannot derive an address with any bump seed.
    GiveUp,
}

/// Decides how the search goes on after deriving with one candidate bump seed.
pub fn probe(derived: Result<Address, SeedError>) -> (verdict: Probe)
    ensures
        verdict == match derived {
            Ok(address) => Probe::Found(address),
            Err(SeedError::InvalidSeeds) => Probe::Retry,
            Err(_) => Probe::GiveUp,
        },
{
    match derived {
        Ok(address) => Probe::Found(address),
        Err(SeedError::InvalidSeeds) => Probe::Retry,
        Err(_) => Probe::GiveUp,
    }
}

/// The seeds with a bump seed appended as a last seed of one byte.
pub open spec fn with_bump(seeds: Seq<Seq<u8>>, bump: u8) -> Seq<Seq<u8>> {
    seeds.push(seq![bump])
}

/// The search for a bump seed from `bump` downward: the first candidate that
/// derives an address wins; zero is never tried.
pub open spec fn search(seeds: Seq<Seq<u8>>, program_id: Seq<u8>, bump: nat) -> Option<
    (Seq<u8>, u8),
>
    decreases bump,
{
    if bump == 0 || bump > 255 {
        None
    } else {
        match program_address(with_bump(seeds, bump as u8), program_id) {
            Ok(address) => Some((address, bump as u8)),
            Err(SeedError::InvalidSeeds) => search(seeds, program_id, (bump - 1) as nat),
            Err(_) => None,
        }
    }
}

/// The address and bump seed that the search from 255 downward finds.
pub open spec fn found_address(seeds: Seq<Seq<u8>>, program_id: Seq<u8>) -> Option<(Seq<u8>, u8)> {
    search(seeds, program_id, 255)
}

/// A found address and its bump seed, the address as its bytes.
pub open spec fn found_view(found: Option<(Address, u8)>) -> Option<(Seq<u8>, u8)> {
    match found {
        Some((address, bump)) => Some((address@, bump)),
        None => None,
    }
}

/// Copies a seed sequence.
fn copy_seeds(seeds: &Vec<Vec<u8>>) -> (copy: Vec<Vec<u8>>)
    ensures
        seeds_view(&copy) == seeds_view(seeds),
{
    let mut copy: Vec<Vec<u8>> = Vec::new();
    let mut i: usize = 0;
    while i < seeds.len()
        invariant
            i <= seeds.len(),
            copy.len() == i,
            forall|j: int| 0 <= j < i ==> copy[j]@ == seeds[j]@,
        decreases seeds.len() - i,
    {
        let seed = &seeds[i];
        let mut bytes: Vec<u8> = Vec::new();
        let mut k: usize = 0;
        while k < seed.len()
            invariant
                k <= seed.len(),
                bytes@ == seed@.subrange(0, k as int),
            decreases seed.len() - k,
        {
            bytes.push(seed[k]);
            k += 1;
            assert(bytes@ == seed@.subrange(0, k as int));
        }
        assert(bytes@ == seed@);
        copy.push(bytes);
        i += 1;
    }
    assert(seeds_view(&copy) =~= seeds_view(seeds));
    copy
}

/// Finds the address that `seeds` derive under `program_id`, and the bump
/// seed that makes it one: candidates are tried from 255 downward.
pub fn find_address(seeds: &Vec<Vec<u8>>, program_id: &Address) -> (found: Option<(Address, u8)>)
    ensures
        found_view(found) == found_address(seeds_view(seeds), program_id@),
{
    let mut candidate = copy_seeds(seeds);
    let mut bump: u8 = 255;
    while bump > 0
        invariant
            seeds_view(&candidate) == seeds_view(seeds),
            found_address(seeds_view(seeds), program_id@) == search(
                seeds_view(seeds),
                program_id@,
                bump as nat,
            ),
        decreases bump,
    {
        let mut last: Vec<u8> = Vec::new();
        last.push(bump);
        assert(last@ == seq![bump]);
        candidate.push(last);
        assert(seeds_view(&candidate) =~= with_bump(seeds_view(seeds), bump));
        let derived = create_program_address(&candidate, program_id);
        candidate.pop();
        assert(seeds_view(&candidate) =~= seeds_view(seeds));
        match probe(derived) {
            Probe::Found(address) => {
                return Some((address, bump));
            },
            Probe::Retry => {},
            Probe::GiveUp => {
                return None;
            },
        }
        bump -= 1;
    }
    None
}

/// A found bump seed reproduces the found address: deriving with the seeds
/// and that bump seed appended yields the same address again.
pub proof fn lemma_found_is_reproducible(seeds: Seq<Seq<u8>>, program_id: Seq<u8>)
    ensures
        found_address(seeds, program_id) matches Some((address, bump)) ==> bump >= 1 && derives(
            with_bump(seeds, bump),
            program_id,
            address,
        ),
{
    lemma_search_is_reproducible(seeds, program_id, 255);
}

/// The search, from any starting candidate, ends on a bump seed that derives
/// the address it reports.
proof fn lemma_search_is_reproducible(seeds: Seq<Seq<u8>>, program_id: Seq<u8>, from: nat)
    ensures
        search(seeds, program_id, from) matches Some((address, bump)) ==> 1 <= bump <= from
            && derives(with_bump(seeds, bump), program_id, address),
    decreases from,
{
    if 0 < from <= 255 {
        lemma_search_is_reproducible(seeds, program_id, (from - 1) as nat);
    }
}

} // verus!
