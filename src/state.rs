use crate::address::Address;
use vstd::prelude::*;

verus! {

/// Namespace tag of the configuration record's derived address: the bytes
/// of "config".
pub open spec fn config_seed_spec() -> Seq<u8> {
    seq![99u8, 111u8, 110u8, 102u8, 105u8, 103u8]
}

/// The bytes of "config", the configuration record's namespace tag.
pub fn config_seed() -> (r: [u8; 6])
    ensures
        r@ == config_seed_spec(),
{
    let r: [u8; 6] = [99u8, 111u8, 110u8, 102u8, 105u8, 103u8];
    assert(r@ =~= config_seed_spec());
    r
}

/// Longest metadata URI the registry accepts, in bytes.
pub const MAX_URI_LEN: usize = 200;

/// Longest token name the registry accepts, in bytes.
pub const MAX_NAME_LEN: usize = 32;

/// Longest token symbol the registry accepts, in bytes.
pub const MAX_SYMBOL_LEN: usize = 10;

/// Largest decimals value a token may have.
pub const MAX_DECIMALS: u8 = 9;

/// Length of a string in bytes, as UTF-8 encodes it.
pub open spec fn byte_len(s: Seq<char>) -> nat {
    vstd::utf8::encode_utf8(s).len()
}

/// Why an operation was refused.
#[derive(Clone, Copy, Debug, PartialEq, Eq)]
pub enum TbCoinError {
    MetadataUriTooLong,
    NameTooLong,
    SymbolTooLong,
    Unauthorized,
    InvalidMint,
    InvalidTokenAccount,
    InvalidDecimals,
    InvalidMetadataAccount,
    /// An account already stands at the address to be created.
    AccountInUse,
    /// No bump seed yields a derived address for these seeds.
    AddressDerivationFailed,
    /// No account is known at a supplied address.
    AccountNotFound,
    /// The signer of a mint is not the token's own mint authority, so the
    /// token ledger refuses the signature.
    MintAuthorityMismatch,
    /// A balance or a supply would exceed the largest `u64`.
    Overflow,
    /// The source holds fewer units than the transfer moves.
    InsufficientFunds,
}

/// The configuration record: binds an administrator to one token.
#[derive(Clone, Debug)]
pub struct Config {
    pub admin: Address,
    pub mint: Address,
    pub decimals: u8,
    pub bump: u8,
    pub metadata_uri: String,
}

/// A token as the ledger records it.
#[derive(Clone, Copy, Debug, PartialEq, Eq)]
pub struct MintAccount {
    pub address: Address,
    pub decimals: u8,
    pub supply: u64,
    pub mint_authority: Address,
    pub freeze_authority: Address,
}

/// A holding account: a balance of one token owned by one identity.
#[derive(Clone, Copy, Debug, PartialEq, Eq)]
pub struct TokenAccount {
    pub address: Address,
    pub mint: Address,
    pub owner: Address,
    pub amount: u64,
}

/// A request to the token ledger to create `amount` new units in `to`.
#[derive(Clone, Copy, Debug, PartialEq, Eq)]
pub struct MintTo {
    pub mint: Address,
    pub to: Address,
    pub authority: Address,
    pub amount: u64,
}

/// A request to the token ledger to move `amount` units from `from` to `to`.
#[derive(Clone, Copy, Debug, PartialEq, Eq)]
pub struct Transfer {
    pub from: Address,
    pub to: Address,
    pub authority: Address,
    pub amount: u64,
}

/// A request to the metadata registry to create the record of a token.
/// Creators, collection and uses are left empty; the record is mutable and
/// the update authority signs.
#[derive(Clone, Debug)]
pub struct CreateMetadataRequest {
    pub metadata: Address,
    pub mint: Address,
    pub mint_authority: Address,
    pub payer: Address,
    pub update_authority: Address,
    pub name: String,
    pub symbol: String,
    pub uri: String,
    pub seller_fee_basis_points: u16,
    pub update_authority_is_signer: bool,
    pub is_mutable: bool,
}

} // verus!
