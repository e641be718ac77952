//! Where records live: the storage location of a record is derived from a
//! namespace and the identities the record belongs to, so that independent
//! callers arrive at the same location without coordination.

use vstd::prelude::*;
use crate::identity::Pubkey;
use crate::records::{EscrowAccount, StreetwearAsset};

verus! {

/// The location and addressing proof that the derivation yields for the
/// given seeds under the given program, or `None` where it yields none.
pub uninterp spec fn program_address(seeds: Seq<Seq<u8>>, program_id: Seq<u8>) -> Option<
    (Seq<u8>, u8),
>;

/// The seeds as sequences of bytes.
pub open spec fn seed_views(seeds: Seq<Vec<u8>>) -> Seq<Seq<u8>> {
    Seq::new(seeds.len(), |i: int| seeds[i]@)
}

/// A derived location as sequences of bytes.
pub open spec fn location_view(found: Option<(Pubkey, u8)>) -> Option<(Seq<u8>, u8)> {
    match found {
        Some((address, bump)) => Some((address@, bump)),
        None => None,
    }
}

/// The namespace of asset records: the bytes of `asset`.
pub open spec fn asset_namespace() -> Seq<u8> {
    seq![97u8, 115u8, 115u8, 101u8, 116u8]
}

/// The namespace of escrow records: the bytes of `escrow`.
pub open spec fn escrow_namespace() -> Seq<u8> {
    seq![101u8, 115u8, 99u8, 114u8, 111u8, 119u8]
}

/// The seeds of a record: its namespace, then the holder, then the
/// certificate.
pub open spec fn record_seeds(namespace: Seq<u8>, holder: Pubkey, mint: Pubkey) -> Seq<Seq<u8>> {
    seq![namespace, holder@, mint@]
}

/// Calls `Pubkey::try_find_program_address` of solana-program, as
/// anchor-lang re-exports it. Believed of it: what it returns depends on the
/// seeds and the program alone, so it is the derivation named
/// `program_address` on these arguments. Nothing is believed of which
/// location that is.
#[verifier::external_body]
fn find_program_address(seeds: &Vec<Vec<u8>>, program_id: &Pubkey) -> (found: Option<(Pubkey, u8)>)
    ensures
        location_view(found) == program_address(seed_views(seeds@), program_id@),
{
    let parts: Vec<&[u8]> = seeds.iter().map(|seed| seed.as_slice()).collect();
    let program = anchor_lang::prelude::Pubkey::new_from_array(program_id.bytes);
    match anchor_lang::prelude::Pubkey::try_find_program_address(&parts, &program) {
        Some((address, bump)) => Some((Pubkey { bytes: address.to_bytes() }, bump)),
        None => None,
    }
}

/// The bytes of an identity as a seed.
fn key_seed(key: &Pubkey) -> (seed: Vec<u8>)
    ensures
        seed@ == key@,
{
    let mut seed: Vec<u8> = Vec::new();
    let mut i: usize = 0;
    while i < 32
        invariant
            i <= 32,
            seed@.len() == i,
            forall|j: int| 0 <= j < i ==> seed@[j] == key.bytes[j],
        decreases 32 - i,
    {
        seed.push(key.bytes[i]);
        i += 1;
    }
    proof {
        assert(seed@ =~= key@);
    }
    seed
}

/// Derives the location of the record of `holder` and `mint` in the
/// namespace.
fn record_address(namespace: Vec<u8>, program_id: &Pubkey, holder: &Pubkey, mint: &Pubkey) -> (found:
    Option<(Pubkey, u8)>)
    ensures
        location_view(found) == program_address(
            record_seeds(namespace@, *holder, *mint),
            program_id@,
        ),
{
    let mut seeds: Vec<Vec<u8>> = Vec::new();
    seeds.push(namespace);
    seeds.push(key_seed(holder));
    seeds.push(key_seed(mint));
    proof {
        assert(seed_views(seeds@) =~= record_seeds(namespace@, *holder, *mint));
    }
    find_program_address(&seeds, program_id)
}

/// The location of the asset record of `owner` and `mint`, with its
/// addressing proof: the derivation in the asset namespace.
pub fn asset_address(program_id: &Pubkey, owner: &Pubkey, mint: &Pubkey) -> (found: Option<
    (Pubkey, u8),
>)
    ensures
        location_view(found) == program_address(
            record_seeds(asset_namespace(), *owner, *mint),
            program_id@,
        ),
{
    let mut namespace: Vec<u8> = Vec::new();
    namespace.push(97u8);
    namespace.push(115u8);
    namespace.push(115u8);
    namespace.push(101u8);
    namespace.push(116u8);
    proof {
        assert(namespace@ =~= asset_namespace());
    }
    record_address(namespace, program_id, owner, mint)
}

/// The location of the escrow record of `seller` and `mint`, with its
/// addressing proof: the derivation in the escrow namespace.
pub fn escrow_address(program_id: &Pubkey, seller: &Pubkey, mint: &Pubkey) -> (found: Option<
    (Pubkey, u8),
>)
    ensures
        location_view(found) == program_address(
            record_seeds(escrow_namespace(), *seller, *mint),
            program_id@,
        ),
{
    let mut namespace: Vec<u8> = Vec::new();
    namespace.push(101u8);
    namespace.push(115u8);
    namespace.push(99u8);
    namespace.push(114u8);
    namespace.push(111u8);
    namespace.push(119u8);
    proof {
        assert(namespace@ =~= escrow_namespace());
    }
    record_address(namespace, program_id, seller, mint)
}

/// Whether a derivation found exactly the location `address` with the
/// addressing proof `bump`.
pub fn is_location(found: Option<(Pubkey, u8)>, address: &Pubkey, bump: u8) -> (r: bool)
    ensures
        r == (found == Some((*address, bump))),
        r == (location_view(found) == Some((address@, bump))),
{
    match found {
        Some((derived, proof_byte)) => derived.same(address) && proof_byte == bump,
        None => false,
    }
}

/// Whether `address` is where the asset record belongs: the location
/// derived from its owner and certificate, with the addressing proof that
/// the record carries.
pub fn asset_is_at(program_id: &Pubkey, asset: &StreetwearAsset, address: &Pubkey) -> (r: bool)
    ensures
        r == (program_address(
            record_seeds(asset_namespace(), asset.owner, asset.mint),
            program_id@,
        ) == Some((address@, asset.bump))),
{
    let found = asset_address(program_id, &asset.owner, &asset.mint);
    is_location(found, address, asset.bump)
}

/// Whether `address` is where the escrow record belongs: the location
/// derived from its seller and certificate, with the addressing proof that
/// the record carries.
pub fn escrow_is_at(program_id: &Pubkey, escrow: &EscrowAccount, address: &Pubkey) -> (r: bool)
    ensures
        r == (program_address(
            record_seeds(escrow_namespace(), escrow.seller, escrow.nft_mint),
            program_id@,
        ) == Some((address@, escrow.bump))),
{
    let found = escrow_address(program_id, &escrow.seller, &escrow.nft_mint);
    is_location(found, address, escrow.bump)
}

} // verus!
