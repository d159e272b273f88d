use crate::address::Address;
use crate::derive::metadata_address_of;
use crate::ledger::{initialize_config_outcome, mint_tokens_outcome, Ledger};
use crate::program::{
    create_metadata_error, metadata_request_matches, mint_tokens_error, resolved_uri,
    transfer_tokens_error, CreateMetadata, MintTokens, TransferTokens,
};
use crate::state::{byte_len, CreateMetadataRequest, TbCoinError, MAX_NAME_LEN, MAX_SYMBOL_LEN, MAX_URI_LEN};
use vstd::prelude::*;

verus! {

/// A token has at most one configuration record: any two records of the
/// same token stand at the same address, the one derived from the token.
pub proof fn one_config_per_token(l: Ledger, a1: Seq<u8>, a2: Seq<u8>)
    requires
        l.wf(),
        l.configs@.contains_key(a1),
        l.configs@.contains_key(a2),
        l.configs@[a1].mint@ == l.configs@[a2].mint@,
    ensures
        a1 == a2,
{
}

/// Once the configuration record of a token has been created, a second
/// creation for the same token is refused, whoever asks and with whatever
/// arguments.
pub proof fn second_initialize_config_fails(
    l0: Ledger,
    l1: Ledger,
    l2: Ledger,
    mint: Seq<u8>,
    admin1: Address,
    uri1: Seq<char>,
    decimals1: u8,
    r1: Result<Address, TbCoinError>,
    admin2: Address,
    uri2: Seq<char>,
    decimals2: u8,
    r2: Result<Address, TbCoinError>,
)
    requires
        initialize_config_outcome(l0, l1, admin1, mint, uri1, decimals1, r1),
        r1 is Ok,
        initialize_config_outcome(l1, l2, admin2, mint, uri2, decimals2, r2),
    ensures
        r2 == Err::<Address, TbCoinError>(TbCoinError::AccountInUse),
{
    let a = l0.config_address_of(mint)->Some_0.0;
    assert(l1.configs@.contains_key(a));
}

/// A mint signed by anyone but the administrator of the configuration
/// record is refused as unauthorized, and no balance or supply changes.
pub proof fn mint_by_non_admin_refused(
    pre: Ledger,
    post: Ledger,
    config: Seq<u8>,
    mint: Address,
    destination: Seq<u8>,
    mint_authority: Address,
    amount: u64,
    r: Result<(), TbCoinError>,
)
    requires
        mint_tokens_outcome(pre, post, config, mint, destination, mint_authority, amount, r),
        pre.configs@.contains_key(config),
        pre.accounts@.contains_key(destination),
        pre.mints@.contains_key(mint@),
        pre.configs@[config].admin@ != mint_authority@,
    ensures
        r == Err::<(), TbCoinError>(TbCoinError::Unauthorized),
        post.accounts@ == pre.accounts@,
        post.mints@ == pre.mints@,
{
}

/// A mint that passes every check of the configuration record but is signed
/// by someone other than the token's own mint authority is refused by the
/// token ledger, and no balance or supply changes.
pub proof fn mint_by_foreign_authority_refused(
    pre: Ledger,
    post: Ledger,
    config: Seq<u8>,
    mint: Address,
    destination: Seq<u8>,
    mint_authority: Address,
    amount: u64,
    r: Result<(), TbCoinError>,
)
    requires
        mint_tokens_outcome(pre, post, config, mint, destination, mint_authority, amount, r),
        pre.configs@.contains_key(config),
        pre.accounts@.contains_key(destination),
        pre.mints@.contains_key(mint@),
        mint_tokens_error(
            MintTokens {
                config: pre.configs@[config],
                mint,
                destination: pre.accounts@[destination],
                mint_authority,
            },
        ) is None,
        pre.mints@[mint@].mint_authority@ != mint_authority@,
    ensures
        r == Err::<(), TbCoinError>(TbCoinError::MintAuthorityMismatch),
        post.accounts@ == pre.accounts@,
        post.mints@ == pre.mints@,
{
}

/// A mint by the administrator, of the configured token, into a holding
/// account of another token is refused as an invalid token account.
pub proof fn mint_into_foreign_account_refused(ctx: MintTokens)
    requires
        ctx.config.admin@ == ctx.mint_authority@,
        ctx.config.mint@ == ctx.mint@,
        ctx.destination.mint@ != ctx.mint@,
    ensures
        mint_tokens_error(ctx) == Some(TbCoinError::InvalidTokenAccount),
{
}

/// A transfer signed by anyone but the source's owner is refused as
/// unauthorized; one by the owner between accounts of different tokens is
/// refused as an invalid token account.
pub proof fn transfer_guard(ctx: TransferTokens)
    ensures
        ctx.source.owner@ != ctx.authority@ ==> transfer_tokens_error(ctx) == Some(
            TbCoinError::Unauthorized,
        ),
        ctx.source.owner@ == ctx.authority@ && ctx.source.mint@ != ctx.destination.mint@
            ==> transfer_tokens_error(ctx) == Some(TbCoinError::InvalidTokenAccount),
{
}

/// A metadata creation that names a record address other than the one the
/// registry derives from the token always fails; when every other check
/// passes, so when the legitimate administrator signs, it fails as an
/// invalid metadata account.
pub proof fn metadata_address_mismatch_refused(
    ctx: CreateMetadata,
    expected: Seq<u8>,
    name: Seq<char>,
    symbol: Seq<char>,
    uri: Option<Seq<char>>,
)
    requires
        metadata_address_of(ctx.mint@) == Some(expected),
        ctx.metadata@ != expected,
    ensures
        create_metadata_error(ctx, expected, name, symbol, uri) is Some,
        byte_len(name) <= MAX_NAME_LEN && byte_len(symbol) <= MAX_SYMBOL_LEN && byte_len(
            resolved_uri(uri, ctx.config.metadata_uri@),
        ) <= MAX_URI_LEN && ctx.config.admin@ == ctx.update_authority@ && ctx.config.admin@
            == ctx.mint_authority@ && ctx.config.mint@ == ctx.mint@ ==> create_metadata_error(
            ctx,
            expected,
            name,
            symbol,
            uri,
        ) == Some(TbCoinError::InvalidMetadataAccount),
{
}

/// Without an explicit URI, the metadata record carries the configuration's
/// default URI verbatim.
pub proof fn metadata_uri_defaults_to_config(
    q: CreateMetadataRequest,
    ctx: CreateMetadata,
    name: Seq<char>,
    symbol: Seq<char>,
    seller_fee_basis_points: u16,
)
    requires
        metadata_request_matches(q, ctx, name, symbol, None, seller_fee_basis_points),
    ensures
        q.uri@ == ctx.config.metadata_uri@,
{
}

} // verus!
