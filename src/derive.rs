use crate::address::Address;
use mpl_token_metadata::accounts::Metadata;
use solana_program::pubkey::Pubkey;
use vstd::prelude::*;

verus! {

/// What the ledger derives from the seeds `[tag, key]` under `program`:
/// the program-derived address and its bump seed, or nothing when no bump
/// seed gives an address off the curve.
pub uninterp spec fn program_address_of(tag: Seq<u8>, key: Seq<u8>, program: Seq<u8>) -> Option<
    (Seq<u8>, u8),
>;

/// The address at which the metadata registry keeps the record of `mint`,
/// or nothing when no bump seed gives an address off the curve.
pub uninterp spec fn metadata_address_of(mint: Seq<u8>) -> Option<Seq<u8>>;

/// The view of a derived address and its bump seed.
pub open spec fn derived_view(r: Option<(Address, u8)>) -> Option<(Seq<u8>, u8)> {
    match r {
        Some((a, b)) => Some((a@, b)),
        None => None,
    }
}

/// Relies on `solana_program::pubkey::Pubkey::try_find_program_address`
/// with the seeds `[tag, key]`: its result depends on the seeds and the
/// program id alone, and it returns `None` instead of panicking when no
/// bump seed works.
#[verifier::external_body]
pub(crate) fn try_find_program_address(tag: &[u8], key: &Address, program: &Address) -> (r:
    Option<(Address, u8)>)
    ensures
        derived_view(r) == program_address_of(tag@, key@, program@),
{
    let program_id = Pubkey::new_from_array(program.bytes);
    Pubkey::try_find_program_address(&[tag, &key.bytes], &program_id).map(
        |(a, b)| (Address { bytes: a.to_bytes() }, b),
    )
}

/// Relies on `solana_program::pubkey::Pubkey::try_find_program_address`
/// with the metadata registry's published seeds (`Metadata::PREFIX`, the
/// registry's program id, the mint) under the registry's program id, the
/// derivation that `mpl_token_metadata`'s `Metadata::find_pda` performs. The
/// result depends on the mint alone, and is `None` instead of a panic when
/// no bump seed works.
#[verifier::external_body]
pub(crate) fn find_metadata_address(mint: &Address) -> (r: Option<Address>)
    ensures
        match r {
            Some(a) => metadata_address_of(mint@) == Some(a@),
            None => metadata_address_of(mint@) is None,
        },
{
    let registry = mpl_token_metadata::ID;
    Pubkey::try_find_program_address(&[Metadata::PREFIX, registry.as_ref(), &mint.bytes], &registry)
        .map(|(address, _bump)| Address { bytes: address.to_bytes() })
}

} // verus!
