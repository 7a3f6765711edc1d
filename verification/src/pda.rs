use anchor_lang::prelude::Pubkey;
use vstd::bytes::{spec_u64_to_le_bytes, u64_to_le_bytes};
use vstd::prelude::*;

use crate::state::Address;

verus! {

/// The address that `Pubkey::create_program_address` derives from `seeds` under
/// `program_id`, or `None` where it returns an error.
pub uninterp spec fn created_program_address(seeds: Seq<Seq<u8>>, program_id: Seq<u8>) -> Option<Seq<u8>>;

/// The address and bump seed that `Pubkey::try_find_program_address` finds for
/// `seeds` under `program_id`, or `None` where it finds none.
pub uninterp spec fn found_program_address(seeds: Seq<Seq<u8>>, program_id: Seq<u8>) -> Option<(Seq<u8>, u8)>;

/// The byte strings that a vector of seeds holds.
pub open spec fn seed_views(seeds: Seq<Vec<u8>>) -> Seq<Seq<u8>> {
    Seq::new(seeds.len(), |i: int| seeds[i]@)
}

/// At most sixteen seeds, none longer than thirty-two bytes.
pub open spec fn seeds_within_limits(seeds: Seq<Seq<u8>>) -> bool {
    &&& seeds.len() <= 16
    &&& forall|i: int| 0 <= i < seeds.len() ==> #[trigger] seeds[i].len() <= 32
}

/// Calls `Pubkey::create_program_address`. The contract names its result
/// (`created_program_address`) and states the one check its source makes before
/// hashing: too many or too long seeds give an error. What the hash and the
/// curve check compute is left unsaid.
#[verifier::external_body]
fn create_program_address(seeds: &Vec<Vec<u8>>, program_id: &Address) -> (r: Option<Address>)
    ensures
        match r {
            Some(a) => created_program_address(seed_views(seeds@), program_id@) == Some(a@),
            None => created_program_address(seed_views(seeds@), program_id@) is None,
        },
        !seeds_within_limits(seed_views(seeds@)) ==> r is None,
{
    let slices: Vec<&[u8]> = seeds.iter().map(|s| s.as_slice()).collect();
    match Pubkey::create_program_address(&slices, &Pubkey::new_from_array(program_id.bytes)) {
        Ok(key) => Some(Address { bytes: key.to_bytes() }),
        Err(_) => None,
    }
}

/// Calls `Pubkey::try_find_program_address`. The contract names its result
/// (`found_program_address`) and states what its source shows of a found pair:
/// the address is what `create_program_address` gives for the seeds followed by
/// the one-byte bump seed, and the bump is the highest from 255 down to 1 that gives
/// an address (every higher bump gives none). Why the search may find nothing
/// (no bump works, or the seeds break the limits) is left unsaid.
#[verifier::external_body]
fn find_program_address(seeds: &Vec<Vec<u8>>, program_id: &Address) -> (r: Option<(Address, u8)>)
    ensures
        match r {
            Some(found) => found_program_address(seed_views(seeds@), program_id@) == Some((found.0@, found.1)),
            None => found_program_address(seed_views(seeds@), program_id@) is None,
        },
        r matches Some(found) ==> created_program_address(
            seed_views(seeds@).push(seq![found.1]),
            program_id@,
        ) == Some(found.0@),
        r matches Some(found) ==> found.1 >= 1 && forall|b: u8|
            found.1 < b ==> #[trigger] created_program_address(seed_views(seeds@).push(seq![b]), program_id@)
                is None,
{
    let slices: Vec<&[u8]> = seeds.iter().map(|s| s.as_slice()).collect();
    match Pubkey::try_find_program_address(&slices, &Pubkey::new_from_array(program_id.bytes)) {
        Some((key, bump)) => Some((Address { bytes: key.to_bytes() }, bump)),
        None => None,
    }
}

/// The first seed of every escrow address: the bytes of "escrow".
pub open spec fn escrow_tag() -> Seq<u8> {
    seq![101u8, 115u8, 99u8, 114u8, 111u8, 119u8]
}

/// The seeds of an escrow's address: the tag, the maker's address and the
/// little-endian bytes of the maker's seed number.
pub open spec fn escrow_seeds(maker: Seq<u8>, seed: u64) -> Seq<Seq<u8>> {
    seq![escrow_tag(), maker, spec_u64_to_le_bytes(seed)]
}

/// The escrow's seeds followed by its bump seed: what the escrow signs with.
pub open spec fn escrow_signer_seeds(maker: Seq<u8>, seed: u64, bump: u8) -> Seq<Seq<u8>> {
    escrow_seeds(maker, seed).push(seq![bump])
}

/// `address` is the escrow address of `maker` and `seed` with bump seed `bump`.
pub open spec fn is_escrow_address(
    address: Seq<u8>,
    maker: Seq<u8>,
    seed: u64,
    bump: u8,
    program_id: Seq<u8>,
) -> bool {
    created_program_address(escrow_signer_seeds(maker, seed, bump), program_id) == Some(address)
}

/// `bump` is the highest bump seed that gives `maker` and `seed` an escrow address:
/// no higher bump gives one.
pub open spec fn is_canonical_escrow_bump(maker: Seq<u8>, seed: u64, bump: u8, program_id: Seq<u8>) -> bool {
    &&& bump >= 1
    &&& forall|b: u8| bump < b ==> #[trigger] created_program_address(escrow_signer_seeds(maker, seed, b), program_id) is None
}

/// The seeds of an associated token address: wallet, token program, mint.
pub open spec fn associated_token_seeds(wallet: Seq<u8>, mint: Seq<u8>, token_program: Seq<u8>) -> Seq<Seq<u8>> {
    seq![wallet, token_program, mint]
}

/// `address` is the associated token address of `wallet` for `mint`.
pub open spec fn is_associated_token_address(
    address: Seq<u8>,
    wallet: Seq<u8>,
    mint: Seq<u8>,
    token_program: Seq<u8>,
    associated_token_program: Seq<u8>,
) -> bool {
    found_program_address(associated_token_seeds(wallet, mint, token_program), associated_token_program)
        matches Some(found) && found.0 == address
}

/// The tag seed of escrow addresses, as bytes.
pub fn escrow_seed_tag() -> (v: Vec<u8>)
    ensures
        v@ == escrow_tag(),
{
    let v: Vec<u8> = vec![101u8, 115u8, 99u8, 114u8, 111u8, 119u8];
    assert(v@ =~= escrow_tag());
    v
}

/// The seeds of the escrow address of `maker` and `seed`.
pub fn escrow_seeds_of(maker: &Address, seed: u64) -> (s: Vec<Vec<u8>>)
    ensures
        seed_views(s@) == escrow_seeds(maker@, seed),
{
    let mut s: Vec<Vec<u8>> = Vec::new();
    s.push(escrow_seed_tag());
    s.push(maker.to_seed());
    s.push(u64_to_le_bytes(seed));
    assert(seed_views(s@) =~= escrow_seeds(maker@, seed));
    s
}

/// The seeds the escrow of `maker` and `seed` signs with, given its bump seed.
pub fn escrow_signer_seeds_of(maker: &Address, seed: u64, bump: u8) -> (s: Vec<Vec<u8>>)
    ensures
        seed_views(s@) == escrow_signer_seeds(maker@, seed, bump),
{
    let mut s = escrow_seeds_of(maker, seed);
    let ghost before = s@;
    let bump_seed: Vec<u8> = vec![bump];
    assert(bump_seed@ =~= seq![bump]);
    s.push(bump_seed);
    assert(seed_views(s@) =~= seed_views(before).push(seq![bump]));
    s
}

/// Whether `address` is the escrow address of `maker` and `seed` with bump seed `bump`.
pub fn check_escrow_address(
    address: &Address,
    maker: &Address,
    seed: u64,
    bump: u8,
    program_id: &Address,
) -> (b: bool)
    ensures
        b == is_escrow_address(address@, maker@, seed, bump, program_id@),
{
    let seeds = escrow_signer_seeds_of(maker, seed, bump);
    match create_program_address(&seeds, program_id) {
        Some(derived) => derived.same(address),
        None => false,
    }
}

/// The escrow address of `maker` and `seed`, with the bump seed that the search finds.
pub fn find_escrow_address(maker: &Address, seed: u64, program_id: &Address) -> (r: Option<(Address, u8)>)
    ensures
        match r {
            Some(found) => found_program_address(escrow_seeds(maker@, seed), program_id@) == Some(
                (found.0@, found.1),
            ),
            None => found_program_address(escrow_seeds(maker@, seed), program_id@) is None,
        },
        r matches Some(found) ==> is_escrow_address(found.0@, maker@, seed, found.1, program_id@),
        r matches Some(found) ==> is_canonical_escrow_bump(maker@, seed, found.1, program_id@),
{
    let seeds = escrow_seeds_of(maker, seed);
    let r = find_program_address(&seeds, program_id);
    proof {
        if r is Some {
            let bump = r.unwrap().1;
            assert forall|b: u8| bump < b implies #[trigger] created_program_address(
                escrow_signer_seeds(maker@, seed, b),
                program_id@,
            ) is None by {
                assert(escrow_signer_seeds(maker@, seed, b) == seed_views(seeds@).push(seq![b]));
            }
        }
    }
    r
}

/// Whether `address` is the associated token address of `wallet` for `mint`.
pub fn check_associated_token_address(
    address: &Address,
    wallet: &Address,
    mint: &Address,
    token_program: &Address,
    associated_token_program: &Address,
) -> (b: bool)
    ensures
        b == is_associated_token_address(
            address@,
            wallet@,
            mint@,
            token_program@,
            associated_token_program@,
        ),
{
    let mut seeds: Vec<Vec<u8>> = Vec::new();
    seeds.push(wallet.to_seed());
    seeds.push(token_program.to_seed());
    seeds.push(mint.to_seed());
    assert(seed_views(seeds@) =~= associated_token_seeds(wallet@, mint@, token_program@));
    match find_program_address(&seeds, associated_token_program) {
        Some(found) => found.0.same(address),
        None => false,
    }
}

} // verus!
