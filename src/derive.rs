//! Derived addresses: the seeds that tie each record and vault to its owner,
//! and the derivation itself, which the ledger platform's address library
//! computes.
use crate::address::Address;
use crate::bytes::u64_bytes;
use crate::constants::{
    packet_tag, seed_prefix, treasury_seed, treasury_tag, treasury_vault_seed, treasury_vault_tag,
    vault_seed, vault_tag,
};
use crate::error::{ProgramError, RedPacketError};
use vstd::bytes::u64_to_le_bytes;
use vstd::prelude::*;

verus! {

/// The address that `seeds` derive under `program_id`, if one exists (the
/// hash must lie off the curve).
pub uninterp spec fn program_address(seeds: Seq<Seq<u8>>, program_id: Seq<u8>) -> Option<Seq<u8>>;

/// The address and bump that a search from bump 255 downwards finds for
/// `seeds` under `program_id`, if any.
pub uninterp spec fn found_program_address(seeds: Seq<Seq<u8>>, program_id: Seq<u8>) -> Option<(Seq<u8>, u8)>;

/// Relies on `solana_address::Address::create_program_address`: hashes the
/// seeds with the program id and fails where the result lies on the curve or
/// the seeds exceed the limits; it depends on its arguments alone.
#[verifier::external_body]
pub(crate) fn create_program_address(seeds: &Vec<Vec<u8>>, program_id: &Address) -> (r: Option<Address>)
    ensures
        match r {
            Some(a) => program_address(seed_views(seeds@), program_id@) == Some(a@),
            None => program_address(seed_views(seeds@), program_id@) is None,
        },
{
    let refs: Vec<&[u8]> = seeds.iter().map(|s| s.as_slice()).collect();
    let program = solana_address::Address::new_from_array(program_id.bytes);
    match solana_address::Address::create_program_address(&refs, &program) {
        Ok(a) => Some(Address { bytes: a.to_bytes() }),
        Err(_) => None,
    }
}

/// Relies on `solana_address::Address::try_find_program_address`: tries
/// bumps from 255 down and returns the first for which
/// `create_program_address` on the seeds followed by that bump succeeds.
#[verifier::external_body]
pub(crate) fn try_find_program_address(seeds: &Vec<Vec<u8>>, program_id: &Address) -> (r: Option<(Address, u8)>)
    ensures
        match r {
            Some((a, bump)) => {
                &&& found_program_address(seed_views(seeds@), program_id@) == Some((a@, bump))
                &&& program_address(seed_views(seeds@).push(seq![bump]), program_id@) == Some(a@)
            },
            None => found_program_address(seed_views(seeds@), program_id@) is None,
        },
{
    let refs: Vec<&[u8]> = seeds.iter().map(|s| s.as_slice()).collect();
    let program = solana_address::Address::new_from_array(program_id.bytes);
    match solana_address::Address::try_find_program_address(&refs, &program) {
        Some((a, bump)) => Some((Address { bytes: a.to_bytes() }, bump)),
        None => None,
    }
}

/// The byte strings of a list of seeds.
pub open spec fn seed_views(s: Seq<Vec<u8>>) -> Seq<Seq<u8>> {
    s.map_values(|v: Vec<u8>| v@)
}

/// Seeds of a packet record: tag, creator, nonce (little-endian).
pub open spec fn packet_seeds(creator: Seq<u8>, id: u64) -> Seq<Seq<u8>> {
    seq![packet_tag(), creator, u64_bytes(id)]
}

/// Seeds of a packet's vault.
pub open spec fn vault_seeds(creator: Seq<u8>, id: u64) -> Seq<Seq<u8>> {
    seq![vault_tag(), creator, u64_bytes(id)]
}

/// Seeds of the treasury of an asset.
pub open spec fn treasury_seeds(mint: Seq<u8>) -> Seq<Seq<u8>> {
    seq![treasury_tag(), mint]
}

/// Seeds of the token vault of an asset's treasury.
pub open spec fn treasury_vault_seeds(mint: Seq<u8>) -> Seq<Seq<u8>> {
    seq![treasury_vault_tag(), mint]
}

/// Seeds followed by a bump byte.
pub open spec fn with_bump(seeds: Seq<Seq<u8>>, bump: u8) -> Seq<Seq<u8>> {
    seeds.push(seq![bump])
}

fn seeds3(a: Vec<u8>, b: Vec<u8>, c: Vec<u8>) -> (r: Vec<Vec<u8>>)
    ensures
        seed_views(r@) == seq![a@, b@, c@],
{
    let mut r: Vec<Vec<u8>> = Vec::new();
    r.push(a);
    r.push(b);
    r.push(c);
    assert(seed_views(r@) =~= seq![a@, b@, c@]);
    r
}

fn seeds2(a: Vec<u8>, b: Vec<u8>) -> (r: Vec<Vec<u8>>)
    ensures
        seed_views(r@) == seq![a@, b@],
{
    let mut r: Vec<Vec<u8>> = Vec::new();
    r.push(a);
    r.push(b);
    assert(seed_views(r@) =~= seq![a@, b@]);
    r
}

/// Appends the bump byte to a list of seeds.
pub fn push_bump(seeds: &mut Vec<Vec<u8>>, bump: u8)
    ensures
        seed_views(final(seeds)@) == with_bump(seed_views(old(seeds)@), bump),
{
    let ghost s0 = seed_views(seeds@);
    let b = vec![bump];
    assert(b@ =~= seq![bump]);
    seeds.push(b);
    assert(seed_views(seeds@) =~= with_bump(s0, bump));
}

pub fn packet_seed_list(creator: &Address, id: u64) -> (r: Vec<Vec<u8>>)
    ensures
        seed_views(r@) == packet_seeds(creator@, id),
{
    seeds3(seed_prefix(), creator.to_vec(), u64_to_le_bytes(id))
}

pub fn vault_seed_list(creator: &Address, id: u64) -> (r: Vec<Vec<u8>>)
    ensures
        seed_views(r@) == vault_seeds(creator@, id),
{
    seeds3(vault_seed(), creator.to_vec(), u64_to_le_bytes(id))
}

pub fn treasury_seed_list(mint: &Address) -> (r: Vec<Vec<u8>>)
    ensures
        seed_views(r@) == treasury_seeds(mint@),
{
    seeds2(treasury_seed(), mint.to_vec())
}

pub fn treasury_vault_seed_list(mint: &Address) -> (r: Vec<Vec<u8>>)
    ensures
        seed_views(r@) == treasury_vault_seeds(mint@),
{
    seeds2(treasury_vault_seed(), mint.to_vec())
}

/// The supplied address is the one that `seeds` derive under `program`.
pub open spec fn derives(seeds: Seq<Seq<u8>>, program: Seq<u8>, address: Seq<u8>) -> bool {
    program_address(seeds, program) == Some(address)
}

/// Re-derives an address and compares it with the one supplied.
pub fn check_derived(seeds: &Vec<Vec<u8>>, program_id: &Address, expected: &Address) -> (r: Result<(), ProgramError>)
    ensures
        r is Ok <==> derives(seed_views(seeds@), program_id@, expected@),
        r is Err ==> r == Err::<(), ProgramError>(ProgramError::Custom(RedPacketError::InvalidPDA)),
{
    match create_program_address(seeds, program_id) {
        Some(a) => {
            if a.same_as(expected) {
                Ok(())
            } else {
                Err(ProgramError::Custom(RedPacketError::InvalidPDA))
            }
        },
        None => Err(ProgramError::Custom(RedPacketError::InvalidPDA)),
    }
}

/// Finds the address and bump of a derivation, searching from bump 255
/// down; `None` where no bump gives an address off the curve.
pub fn find_program_address(seeds: &Vec<Vec<u8>>, program_id: &Address) -> (r: Option<(Address, u8)>)
    ensures
        match r {
            Some((a, bump)) => {
                &&& found_program_address(seed_views(seeds@), program_id@) == Some((a@, bump))
                &&& derives(with_bump(seed_views(seeds@), bump), program_id@, a@)
            },
            None => found_program_address(seed_views(seeds@), program_id@) is None,
        },
{
    try_find_program_address(seeds, program_id)
}

/// An address and bump found off-chain pass the re-derivation that every
/// handler performs with the same seeds and that bump.
pub proof fn lemma_found_address_checks(seeds: Seq<Seq<u8>>, program: Seq<u8>, address: Seq<u8>, bump: u8)
    requires
        found_program_address(seeds, program) == Some((address, bump)),
        program_address(seeds.push(seq![bump]), program) == Some(address),
    ensures
        derives(with_bump(seeds, bump), program, address),
{
}

} // verus!
