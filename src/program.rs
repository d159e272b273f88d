use crate::address::Address;
use crate::derive::{find_metadata_address, metadata_address_of};
use crate::state::{
    byte_len, Config, CreateMetadataRequest, MintAccount, MintTo, TbCoinError, TokenAccount,
    Transfer, MAX_DECIMALS, MAX_NAME_LEN, MAX_SYMBOL_LEN, MAX_URI_LEN,
};
use vstd::prelude::*;

verus! {

/// Byte length of a string, proved equal to the length of its UTF-8 encoding.
pub fn str_byte_len(s: &String) -> (r: usize)
    ensures
        r == byte_len(s@),
{
    s.as_str().as_bytes().len()
}

/// Accounts of the configuration's creation: the caller, who becomes the
/// administrator; the token; and the bump seed of the record's derived
/// address.
#[derive(Clone, Copy, Debug)]
pub struct InitializeConfig {
    pub admin: Address,
    pub mint: MintAccount,
    pub config_bump: u8,
}

/// Accounts of a token's creation.
#[derive(Clone, Copy, Debug)]
pub struct CreateMint {
    pub payer: Address,
    pub mint_authority: Address,
    pub mint: Address,
}

/// Accounts of a holding account's creation.
#[derive(Clone, Copy, Debug)]
pub struct CreateAssociatedTokenAccount {
    pub payer: Address,
    pub owner: Address,
    pub mint: MintAccount,
    pub token_account: Address,
}

/// Accounts of a mint: the token's configuration, the token, the holding
/// account that receives the units and the identity that signs.
#[derive(Clone, Debug)]
pub struct MintTokens {
    pub config: Config,
    pub mint: Address,
    pub destination: TokenAccount,
    pub mint_authority: Address,
}

/// Accounts of a transfer between two holding accounts.
#[derive(Clone, Copy, Debug)]
pub struct TransferTokens {
    pub source: TokenAccount,
    pub destination: TokenAccount,
    pub authority: Address,
}

/// Accounts of the creation of a token's metadata record.
#[derive(Clone, Debug)]
pub struct CreateMetadata {
    pub config: Config,
    pub mint: Address,
    pub metadata: Address,
    pub mint_authority: Address,
    pub payer: Address,
    pub update_authority: Address,
}

/// The first precondition of the configuration's creation that fails.
pub open spec fn initialize_config_error(
    ctx: InitializeConfig,
    metadata_uri: Seq<char>,
    decimals: u8,
) -> Option<TbCoinError> {
    if byte_len(metadata_uri) > MAX_URI_LEN {
        Some(TbCoinError::MetadataUriTooLong)
    } else if decimals > MAX_DECIMALS || ctx.mint.decimals != decimals {
        Some(TbCoinError::InvalidDecimals)
    } else {
        None
    }
}

/// Validates the creation of a token's configuration and returns the
/// record: the caller as administrator, the token, its decimals, the bump
/// seed and the default metadata URI.
pub fn initialize_config(ctx: &InitializeConfig, metadata_uri: String, decimals: u8) -> (r:
    Result<Config, TbCoinError>)
    ensures
        match r {
            Ok(c) => initialize_config_error(*ctx, metadata_uri@, decimals) is None && c.admin
                == ctx.admin && c.mint == ctx.mint.address && c.decimals == decimals && c.bump
                == ctx.config_bump && c.metadata_uri@ == metadata_uri@,
            Err(e) => initialize_config_error(*ctx, metadata_uri@, decimals) == Some(e),
        },
{
    if str_byte_len(&metadata_uri) > MAX_URI_LEN {
        return Err(TbCoinError::MetadataUriTooLong);
    }
    if decimals > MAX_DECIMALS {
        return Err(TbCoinError::InvalidDecimals);
    }
    if ctx.mint.decimals != decimals {
        return Err(TbCoinError::InvalidDecimals);
    }
    Ok(
        Config {
            admin: ctx.admin,
            mint: ctx.mint.address,
            decimals,
            bump: ctx.config_bump,
            metadata_uri,
        },
    )
}

/// Validates the creation of a token and returns it: no units yet, and the
/// chosen authority both mints and freezes.
pub fn create_mint(ctx: &CreateMint, decimals: u8) -> (r: Result<MintAccount, TbCoinError>)
    ensures
        decimals > MAX_DECIMALS ==> r == Err::<MintAccount, TbCoinError>(
            TbCoinError::InvalidDecimals,
        ),
        decimals <= MAX_DECIMALS ==> r == Ok::<MintAccount, TbCoinError>(MintAccount {
            address: ctx.mint,
            decimals,
            supply: 0,
            mint_authority: ctx.mint_authority,
            freeze_authority: ctx.mint_authority,
        }),
{
    if decimals > MAX_DECIMALS {
        return Err(TbCoinError::InvalidDecimals);
    }
    Ok(
        MintAccount {
            address: ctx.mint,
            decimals,
            supply: 0,
            mint_authority: ctx.mint_authority,
            freeze_authority: ctx.mint_authority,
        },
    )
}

/// Returns the new, empty holding account of `ctx.owner` for `ctx.mint`.
pub fn create_associated_token_account(ctx: &CreateAssociatedTokenAccount) -> (r: TokenAccount)
    ensures
        r == (TokenAccount {
            address: ctx.token_account,
            mint: ctx.mint.address,
            owner: ctx.owner,
            amount: 0,
        }),
{
    TokenAccount { address: ctx.token_account, mint: ctx.mint.address, owner: ctx.owner, amount: 0 }
}

/// The first precondition of a mint that fails.
pub open spec fn mint_tokens_error(ctx: MintTokens) -> Option<TbCoinError> {
    if ctx.config.admin@ != ctx.mint_authority@ {
        Some(TbCoinError::Unauthorized)
    } else if ctx.config.mint@ != ctx.mint@ {
        Some(TbCoinError::InvalidMint)
    } else if ctx.destination.mint@ != ctx.mint@ {
        Some(TbCoinError::InvalidTokenAccount)
    } else {
        None
    }
}

/// Checks that the signer is the administrator and that the token and the
/// destination belong to the configuration, and returns the request that
/// mints `amount` units into the destination.
pub fn mint_tokens(ctx: &MintTokens, amount: u64) -> (r: Result<MintTo, TbCoinError>)
    ensures
        match r {
            Ok(m) => mint_tokens_error(*ctx) is None && m == (MintTo {
                mint: ctx.mint,
                to: ctx.destination.address,
                authority: ctx.mint_authority,
                amount,
            }),
            Err(e) => mint_tokens_error(*ctx) == Some(e),
        },
{
    if !ctx.config.admin.same_as(&ctx.mint_authority) {
        return Err(TbCoinError::Unauthorized);
    }
    if !ctx.config.mint.same_as(&ctx.mint) {
        return Err(TbCoinError::InvalidMint);
    }
    if !ctx.destination.mint.same_as(&ctx.mint) {
        return Err(TbCoinError::InvalidTokenAccount);
    }
    Ok(
        MintTo {
            mint: ctx.mint,
            to: ctx.destination.address,
            authority: ctx.mint_authority,
            amount,
        },
    )
}

/// The first precondition of a transfer that fails.
pub open spec fn transfer_tokens_error(ctx: TransferTokens) -> Option<TbCoinError> {
    if ctx.source.owner@ != ctx.authority@ {
        Some(TbCoinError::Unauthorized)
    } else if ctx.source.mint@ != ctx.destination.mint@ {
        Some(TbCoinError::InvalidTokenAccount)
    } else {
        None
    }
}

/// Checks that the signer owns the source and that both accounts hold the
/// same token, and returns the request that moves `amount` units.
pub fn transfer_tokens(ctx: &TransferTokens, amount: u64) -> (r: Result<Transfer, TbCoinError>)
    ensures
        match r {
            Ok(t) => transfer_tokens_error(*ctx) is None && t == (Transfer {
                from: ctx.source.address,
                to: ctx.destination.address,
                authority: ctx.authority,
                amount,
            }),
            Err(e) => transfer_tokens_error(*ctx) == Some(e),
        },
{
    if !ctx.source.owner.same_as(&ctx.authority) {
        return Err(TbCoinError::Unauthorized);
    }
    if !ctx.source.mint.same_as(&ctx.destination.mint) {
        return Err(TbCoinError::InvalidTokenAccount);
    }
    Ok(
        Transfer {
            from: ctx.source.address,
            to: ctx.destination.address,
            authority: ctx.authority,
            amount,
        },
    )
}

/// The URI a metadata record gets: the explicit one, else the default.
pub open spec fn resolved_uri(uri: Option<Seq<char>>, default: Seq<char>) -> Seq<char> {
    match uri {
        Some(u) => u,
        None => default,
    }
}

/// The view of an optional string.
pub open spec fn opt_view(uri: Option<String>) -> Option<Seq<char>> {
    match uri {
        Some(u) => Some(u@),
        None => None,
    }
}

/// The first precondition of a metadata creation that fails, when the
/// registry places the token's record at `expected`.
pub open spec fn create_metadata_error(
    ctx: CreateMetadata,
    expected: Seq<u8>,
    name: Seq<char>,
    symbol: Seq<char>,
    uri: Option<Seq<char>>,
) -> Option<TbCoinError> {
    if byte_len(name) > MAX_NAME_LEN {
        Some(TbCoinError::NameTooLong)
    } else if byte_len(symbol) > MAX_SYMBOL_LEN {
        Some(TbCoinError::SymbolTooLong)
    } else if byte_len(resolved_uri(uri, ctx.config.metadata_uri@)) > MAX_URI_LEN {
        Some(TbCoinError::MetadataUriTooLong)
    } else if ctx.config.admin@ != ctx.update_authority@ || ctx.config.admin@
        != ctx.mint_authority@ {
        Some(TbCoinError::Unauthorized)
    } else if ctx.config.mint@ != ctx.mint@ {
        Some(TbCoinError::InvalidMint)
    } else if expected != ctx.metadata@ {
        Some(TbCoinError::InvalidMetadataAccount)
    } else {
        None
    }
}

/// The registry request that a metadata creation yields once it is valid.
pub open spec fn metadata_request_matches(
    q: CreateMetadataRequest,
    ctx: CreateMetadata,
    name: Seq<char>,
    symbol: Seq<char>,
    uri: Option<Seq<char>>,
    seller_fee_basis_points: u16,
) -> bool {
    &&& q.metadata == ctx.metadata
    &&& q.mint == ctx.mint
    &&& q.mint_authority == ctx.mint_authority
    &&& q.payer == ctx.payer
    &&& q.update_authority == ctx.update_authority
    &&& q.name@ == name
    &&& q.symbol@ == symbol
    &&& q.uri@ == resolved_uri(uri, ctx.config.metadata_uri@)
    &&& q.seller_fee_basis_points == seller_fee_basis_points
    &&& q.update_authority_is_signer
    &&& q.is_mutable
}

/// Validates a metadata creation against `expected`, the address at which
/// the registry places the token's record, and returns the registry request.
pub fn create_metadata_at(
    ctx: &CreateMetadata,
    expected: &Address,
    name: String,
    symbol: String,
    uri: Option<String>,
    seller_fee_basis_points: u16,
) -> (r: Result<CreateMetadataRequest, TbCoinError>)
    ensures
        match r {
            Ok(q) => create_metadata_error(*ctx, expected@, name@, symbol@, opt_view(uri))
                is None && metadata_request_matches(
                q,
                *ctx,
                name@,
                symbol@,
                opt_view(uri),
                seller_fee_basis_points,
            ),
            Err(e) => create_metadata_error(*ctx, expected@, name@, symbol@, opt_view(uri))
                == Some(e),
        },
{
    if str_byte_len(&name) > MAX_NAME_LEN {
        return Err(TbCoinError::NameTooLong);
    }
    if str_byte_len(&symbol) > MAX_SYMBOL_LEN {
        return Err(TbCoinError::SymbolTooLong);
    }
    let metadata_uri = match uri {
        Some(u) => u,
        None => ctx.config.metadata_uri.clone(),
    };
    if str_byte_len(&metadata_uri) > MAX_URI_LEN {
        return Err(TbCoinError::MetadataUriTooLong);
    }
    if !ctx.config.admin.same_as(&ctx.update_authority) {
        return Err(TbCoinError::Unauthorized);
    }
    if !ctx.config.admin.same_as(&ctx.mint_authority) {
        return Err(TbCoinError::Unauthorized);
    }
    if !ctx.config.mint.same_as(&ctx.mint) {
        return Err(TbCoinError::InvalidMint);
    }
    if !expected.same_as(&ctx.metadata) {
        return Err(TbCoinError::InvalidMetadataAccount);
    }
    Ok(
        CreateMetadataRequest {
            metadata: ctx.metadata,
            mint: ctx.mint,
            mint_authority: ctx.mint_authority,
            payer: ctx.payer,
            update_authority: ctx.update_authority,
            name,
            symbol,
            uri: metadata_uri,
            seller_fee_basis_points,
            update_authority_is_signer: true,
            is_mutable: true,
        },
    )
}

/// Derives the address of the token's metadata record by the registry's own
/// scheme, checks the creation against it and returns the registry request.
/// Fails when the derivation finds no address.
pub fn create_metadata(
    ctx: &CreateMetadata,
    name: String,
    symbol: String,
    uri: Option<String>,
    seller_fee_basis_points: u16,
) -> (r: Result<CreateMetadataRequest, TbCoinError>)
    ensures
        match metadata_address_of(ctx.mint@) {
            None => r == Err::<CreateMetadataRequest, TbCoinError>(
                TbCoinError::AddressDerivationFailed,
            ),
            Some(expected) => match r {
                Ok(q) => create_metadata_error(*ctx, expected, name@, symbol@, opt_view(uri))
                    is None && metadata_request_matches(
                    q,
                    *ctx,
                    name@,
                    symbol@,
                    opt_view(uri),
                    seller_fee_basis_points,
                ),
                Err(e) => create_metadata_error(*ctx, expected, name@, symbol@, opt_view(uri))
                    == Some(e),
            },
        },
{
    let expected = match find_metadata_address(&ctx.mint) {
        Some(a) => a,
        None => return Err(TbCoinError::AddressDerivationFailed),
    };
    create_metadata_at(ctx, &expected, name, symbol, uri, seller_fee_basis_points)
}

} // verus!
