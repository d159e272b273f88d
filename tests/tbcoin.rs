use mpl_token_metadata::accounts::Metadata;
use solana_program::pubkey::Pubkey;
use tbcoin::{
    create_metadata, create_metadata_at, create_mint, initialize_config, mint_tokens,
    transfer_tokens, Address, Config, CreateMetadata, CreateMint, InitializeConfig, Ledger,
    MetadataAccounts, MintAccount, MintTokens, TbCoinError, TokenAccount, TransferTokens,
};

fn addr(n: u8) -> Address {
    Address::new([n; 32])
}

fn metadata_address(mint: &Address) -> Address {
    let (a, _) = Metadata::find_pda(&Pubkey::new_from_array(mint.bytes));
    Address::new(a.to_bytes())
}

#[test]
fn metadata_address_matches_registry_derivation() {
    // The request built through the library names the address the registry
    // itself derives for the mint.
    for n in [0u8, 7, 10, 255] {
        let mint = addr(n);
        let expected = metadata_address(&mint);
        assert_ne!(expected, mint);
        let ctx = CreateMetadata {
            config: config(addr(ADMIN), mint, "u"),
            mint,
            metadata: expected,
            mint_authority: addr(ADMIN),
            payer: addr(ADMIN),
            update_authority: addr(ADMIN),
        };
        let q = create_metadata(&ctx, "TB".to_string(), "TB".to_string(), None, 0).unwrap();
        assert_eq!(q.metadata, expected);
    }
}

fn config_address(program: &Address, mint: &Address) -> (Address, u8) {
    let (a, b) = Pubkey::find_program_address(
        &[b"config", &mint.bytes],
        &Pubkey::new_from_array(program.bytes),
    );
    (Address::new(a.to_bytes()), b)
}

fn mint_account(address: Address, decimals: u8) -> MintAccount {
    MintAccount {
        address,
        decimals,
        supply: 0,
        mint_authority: addr(1),
        freeze_authority: addr(1),
    }
}

fn config(admin: Address, mint: Address, uri: &str) -> Config {
    Config { admin, mint, decimals: 9, bump: 255, metadata_uri: uri.to_string() }
}

const PROGRAM: u8 = 200;
const ADMIN: u8 = 1;
const MINT_X: u8 = 10;
const MINT_Y: u8 = 11;
const ALICE: u8 = 20;
const BOB: u8 = 21;
const ACCOUNT_A: u8 = 30;
const ACCOUNT_B: u8 = 31;
const ACCOUNT_Y: u8 = 32;

/// A ledger with tokens X (9 decimals) and Y (6 decimals), accounts A of
/// Alice and B of Bob for X, and an account of Alice for Y.
fn setup() -> Ledger {
    let mut l = Ledger::new(addr(PROGRAM));
    let cx = CreateMint { payer: addr(ADMIN), mint_authority: addr(ADMIN), mint: addr(MINT_X) };
    assert_eq!(l.create_mint(&cx, 9), Ok(()));
    let cy = CreateMint { payer: addr(ADMIN), mint_authority: addr(ADMIN), mint: addr(MINT_Y) };
    assert_eq!(l.create_mint(&cy, 6), Ok(()));
    let x = addr(MINT_X);
    let y = addr(MINT_Y);
    assert_eq!(l.create_associated_token_account(&addr(ADMIN), &addr(ALICE), &x, &addr(ACCOUNT_A)), Ok(()));
    assert_eq!(l.create_associated_token_account(&addr(ADMIN), &addr(BOB), &x, &addr(ACCOUNT_B)), Ok(()));
    assert_eq!(l.create_associated_token_account(&addr(ADMIN), &addr(ALICE), &y, &addr(ACCOUNT_Y)), Ok(()));
    l
}

fn metadata_accounts(mint: Address, metadata: Address, signer: Address) -> MetadataAccounts {
    MetadataAccounts {
        mint,
        metadata,
        mint_authority: signer,
        payer: signer,
        update_authority: signer,
    }
}

#[test]
fn initialize_config_rejects_ten_decimals() {
    let mut l = setup();
    assert_eq!(
        l.initialize_config(&addr(ADMIN), &addr(MINT_X), "u".to_string(), 10),
        Err(TbCoinError::InvalidDecimals)
    );
    let ctx = InitializeConfig { admin: addr(ADMIN), mint: mint_account(addr(MINT_X), 10), config_bump: 7 };
    assert_eq!(initialize_config(&ctx, "u".to_string(), 10).unwrap_err(), TbCoinError::InvalidDecimals);
}

#[test]
fn initialize_config_accepts_nine_matching_decimals() {
    let mut l = setup();
    let r = l.initialize_config(&addr(ADMIN), &addr(MINT_X), "u".to_string(), 9);
    let (expected, bump) = config_address(&addr(PROGRAM), &addr(MINT_X));
    assert_eq!(r, Ok(expected));
    let c = l.config(&expected).unwrap();
    assert_eq!(c.admin, addr(ADMIN));
    assert_eq!(c.mint, addr(MINT_X));
    assert_eq!(c.decimals, 9);
    assert_eq!(c.bump, bump);
    assert_eq!(c.metadata_uri, "u");
}

#[test]
fn initialize_config_rejects_mismatched_decimals() {
    let mut l = setup();
    assert_eq!(
        l.initialize_config(&addr(ADMIN), &addr(MINT_Y), "u".to_string(), 9),
        Err(TbCoinError::InvalidDecimals)
    );
    let ctx = InitializeConfig { admin: addr(ADMIN), mint: mint_account(addr(MINT_Y), 6), config_bump: 7 };
    assert_eq!(initialize_config(&ctx, "u".to_string(), 9).unwrap_err(), TbCoinError::InvalidDecimals);
}

#[test]
fn initialize_config_uri_length_limit() {
    let mut l = setup();
    assert_eq!(
        l.initialize_config(&addr(ADMIN), &addr(MINT_X), "a".repeat(201), 9),
        Err(TbCoinError::MetadataUriTooLong)
    );
    assert!(l.initialize_config(&addr(ADMIN), &addr(MINT_X), "a".repeat(200), 9).is_ok());
}

#[test]
fn initialize_config_counts_bytes_not_chars() {
    let ctx = InitializeConfig { admin: addr(ADMIN), mint: mint_account(addr(MINT_X), 9), config_bump: 7 };
    // 101 two-byte characters: 202 bytes.
    assert_eq!(
        initialize_config(&ctx, "é".repeat(101), 9).unwrap_err(),
        TbCoinError::MetadataUriTooLong
    );
    assert!(initialize_config(&ctx, "é".repeat(100), 9).is_ok());
}

#[test]
fn second_initialize_config_fails() {
    let mut l = setup();
    assert!(l.initialize_config(&addr(ADMIN), &addr(MINT_X), "u".to_string(), 9).is_ok());
    assert_eq!(
        l.initialize_config(&addr(ALICE), &addr(MINT_X), "v".to_string(), 9),
        Err(TbCoinError::AccountInUse)
    );
    let (expected, _) = config_address(&addr(PROGRAM), &addr(MINT_X));
    assert_eq!(l.config(&expected).unwrap().admin, addr(ADMIN));
}

#[test]
fn initialize_config_unknown_mint() {
    let mut l = setup();
    assert_eq!(
        l.initialize_config(&addr(ADMIN), &addr(99), "u".to_string(), 9),
        Err(TbCoinError::AccountNotFound)
    );
}

#[test]
fn config_address_is_derived_from_the_token() {
    let mut l = setup();
    let a = l.initialize_config(&addr(ADMIN), &addr(MINT_X), "u".to_string(), 9).unwrap();
    assert_ne!(a, addr(MINT_X));
    assert_ne!(a, addr(PROGRAM));
    let mut other = Ledger::new(addr(PROGRAM + 1));
    let cx = CreateMint { payer: addr(ADMIN), mint_authority: addr(ADMIN), mint: addr(MINT_X) };
    other.create_mint(&cx, 9).unwrap();
    let b = other.initialize_config(&addr(ADMIN), &addr(MINT_X), "u".to_string(), 9).unwrap();
    assert_ne!(a, b);
}

#[test]
fn create_mint_decimals() {
    let ctx = CreateMint { payer: addr(1), mint_authority: addr(2), mint: addr(3) };
    assert_eq!(create_mint(&ctx, 10), Err(TbCoinError::InvalidDecimals));
    let m = create_mint(&ctx, 0).unwrap();
    assert_eq!(m, MintAccount { address: addr(3), decimals: 0, supply: 0, mint_authority: addr(2), freeze_authority: addr(2) });
    let mut l = setup();
    assert_eq!(l.create_mint(&CreateMint { payer: addr(1), mint_authority: addr(2), mint: addr(MINT_X) }, 9), Err(TbCoinError::AccountInUse));
}

#[test]
fn create_token_account_errors() {
    let mut l = setup();
    assert_eq!(
        l.create_associated_token_account(&addr(ADMIN), &addr(BOB), &addr(99), &addr(40)),
        Err(TbCoinError::AccountNotFound)
    );
    assert_eq!(
        l.create_associated_token_account(&addr(ADMIN), &addr(BOB), &addr(MINT_X), &addr(ACCOUNT_A)),
        Err(TbCoinError::AccountInUse)
    );
    assert_eq!(l.balance(&addr(ACCOUNT_A)), Some(0));
    assert_eq!(l.balance(&addr(40)), None);
}

#[test]
fn mint_by_non_admin_is_unauthorized() {
    let mut l = setup();
    let c = l.initialize_config(&addr(ADMIN), &addr(MINT_X), "u".to_string(), 9).unwrap();
    assert_eq!(
        l.mint_tokens(&c, &addr(MINT_X), &addr(ACCOUNT_A), &addr(ALICE), 5),
        Err(TbCoinError::Unauthorized)
    );
    assert_eq!(l.balance(&addr(ACCOUNT_A)), Some(0));
}

#[test]
fn mint_into_foreign_account_is_invalid() {
    let mut l = setup();
    let c = l.initialize_config(&addr(ADMIN), &addr(MINT_X), "u".to_string(), 9).unwrap();
    assert_eq!(
        l.mint_tokens(&c, &addr(MINT_X), &addr(ACCOUNT_Y), &addr(ADMIN), 5),
        Err(TbCoinError::InvalidTokenAccount)
    );
    assert_eq!(l.balance(&addr(ACCOUNT_Y)), Some(0));
}

#[test]
fn mint_of_other_token_is_invalid_mint() {
    let mut l = setup();
    let c = l.initialize_config(&addr(ADMIN), &addr(MINT_X), "u".to_string(), 9).unwrap();
    assert_eq!(
        l.mint_tokens(&c, &addr(MINT_Y), &addr(ACCOUNT_Y), &addr(ADMIN), 5),
        Err(TbCoinError::InvalidMint)
    );
}

#[test]
fn mint_unknown_accounts() {
    let mut l = setup();
    let c = l.initialize_config(&addr(ADMIN), &addr(MINT_X), "u".to_string(), 9).unwrap();
    assert_eq!(
        l.mint_tokens(&addr(77), &addr(MINT_X), &addr(ACCOUNT_A), &addr(ADMIN), 5),
        Err(TbCoinError::AccountNotFound)
    );
    assert_eq!(
        l.mint_tokens(&c, &addr(MINT_X), &addr(77), &addr(ADMIN), 5),
        Err(TbCoinError::AccountNotFound)
    );
}

#[test]
fn mint_by_admin_who_is_not_mint_authority() {
    let mut l = setup();
    let z = addr(12);
    let cz = CreateMint { payer: addr(ADMIN), mint_authority: addr(ALICE), mint: z };
    assert_eq!(l.create_mint(&cz, 9), Ok(()));
    assert_eq!(l.create_associated_token_account(&addr(ADMIN), &addr(BOB), &z, &addr(33)), Ok(()));
    let c = l.initialize_config(&addr(ADMIN), &z, "u".to_string(), 9).unwrap();
    assert_eq!(
        l.mint_tokens(&c, &z, &addr(33), &addr(ADMIN), 5),
        Err(TbCoinError::MintAuthorityMismatch)
    );
    assert_eq!(l.balance(&addr(33)), Some(0));
    // The token's mint authority is not the configuration's admin either.
    assert_eq!(l.mint_tokens(&c, &z, &addr(33), &addr(ALICE), 5), Err(TbCoinError::Unauthorized));
}

#[test]
fn mint_overflow() {
    let mut l = setup();
    let c = l.initialize_config(&addr(ADMIN), &addr(MINT_X), "u".to_string(), 9).unwrap();
    assert_eq!(l.mint_tokens(&c, &addr(MINT_X), &addr(ACCOUNT_A), &addr(ADMIN), u64::MAX), Ok(()));
    assert_eq!(
        l.mint_tokens(&c, &addr(MINT_X), &addr(ACCOUNT_B), &addr(ADMIN), 1),
        Err(TbCoinError::Overflow)
    );
    assert_eq!(l.balance(&addr(ACCOUNT_A)), Some(u64::MAX));
    assert_eq!(l.balance(&addr(ACCOUNT_B)), Some(0));
}

#[test]
fn mint_tokens_request() {
    let ctx = MintTokens {
        config: config(addr(ADMIN), addr(MINT_X), "u"),
        mint: addr(MINT_X),
        destination: TokenAccount { address: addr(ACCOUNT_A), mint: addr(MINT_X), owner: addr(ALICE), amount: 0 },
        mint_authority: addr(ADMIN),
    };
    let m = mint_tokens(&ctx, 42).unwrap();
    assert_eq!(m.to, addr(ACCOUNT_A));
    assert_eq!(m.mint, addr(MINT_X));
    assert_eq!(m.authority, addr(ADMIN));
    assert_eq!(m.amount, 42);
}

#[test]
fn transfer_guards() {
    let a = TokenAccount { address: addr(ACCOUNT_A), mint: addr(MINT_X), owner: addr(ALICE), amount: 10 };
    let b = TokenAccount { address: addr(ACCOUNT_B), mint: addr(MINT_X), owner: addr(BOB), amount: 0 };
    let y = TokenAccount { address: addr(ACCOUNT_Y), mint: addr(MINT_Y), owner: addr(BOB), amount: 0 };
    let by_bob = TransferTokens { source: a, destination: b, authority: addr(BOB) };
    assert_eq!(transfer_tokens(&by_bob, 1), Err(TbCoinError::Unauthorized));
    let cross = TransferTokens { source: a, destination: y, authority: addr(ALICE) };
    assert_eq!(transfer_tokens(&cross, 1), Err(TbCoinError::InvalidTokenAccount));
    let ok = TransferTokens { source: a, destination: b, authority: addr(ALICE) };
    let t = transfer_tokens(&ok, 3).unwrap();
    assert_eq!((t.from, t.to, t.authority, t.amount), (addr(ACCOUNT_A), addr(ACCOUNT_B), addr(ALICE), 3));
}

#[test]
fn transfer_errors_on_ledger() {
    let mut l = setup();
    let c = l.initialize_config(&addr(ADMIN), &addr(MINT_X), "u".to_string(), 9).unwrap();
    l.mint_tokens(&c, &addr(MINT_X), &addr(ACCOUNT_A), &addr(ADMIN), 10).unwrap();
    assert_eq!(l.transfer_tokens(&addr(ACCOUNT_A), &addr(ACCOUNT_B), &addr(BOB), 1), Err(TbCoinError::Unauthorized));
    assert_eq!(l.transfer_tokens(&addr(ACCOUNT_A), &addr(ACCOUNT_Y), &addr(ALICE), 1), Err(TbCoinError::InvalidTokenAccount));
    assert_eq!(l.transfer_tokens(&addr(ACCOUNT_A), &addr(ACCOUNT_B), &addr(ALICE), 11), Err(TbCoinError::InsufficientFunds));
    assert_eq!(l.transfer_tokens(&addr(ACCOUNT_A), &addr(77), &addr(ALICE), 1), Err(TbCoinError::AccountNotFound));
    assert_eq!(l.transfer_tokens(&addr(ACCOUNT_A), &addr(ACCOUNT_A), &addr(ALICE), 4), Ok(()));
    assert_eq!(l.balance(&addr(ACCOUNT_A)), Some(10));
    assert_eq!(l.balance(&addr(ACCOUNT_B)), Some(0));
}

fn metadata_ctx(signer: Address, metadata: Address) -> CreateMetadata {
    CreateMetadata {
        config: config(addr(ADMIN), addr(MINT_X), "https://x/meta.json"),
        mint: addr(MINT_X),
        metadata,
        mint_authority: signer,
        payer: signer,
        update_authority: signer,
    }
}

#[test]
fn metadata_wrong_address_is_refused() {
    let expected = metadata_address(&addr(MINT_X));
    let wrong = addr(66);
    assert_ne!(expected, wrong);
    let ctx = metadata_ctx(addr(ADMIN), wrong);
    assert_eq!(
        create_metadata(&ctx, "TB".to_string(), "TB".to_string(), None, 500).unwrap_err(),
        TbCoinError::InvalidMetadataAccount
    );
    let mut l = setup();
    let c = l.initialize_config(&addr(ADMIN), &addr(MINT_X), "u".to_string(), 9).unwrap();
    assert_eq!(
        l.create_metadata(&c, &metadata_accounts(addr(MINT_X), addr(MINT_X), addr(ADMIN)), "TB".to_string(), "TB".to_string(), None, 500),
        Err(TbCoinError::InvalidMetadataAccount)
    );
    assert!(l.metadata_record(&addr(MINT_X)).is_none());
}

#[test]
fn metadata_default_uri() {
    let expected = metadata_address(&addr(MINT_X));
    let ctx = metadata_ctx(addr(ADMIN), expected);
    let q = create_metadata(&ctx, "TB".to_string(), "TB".to_string(), None, 500).unwrap();
    assert_eq!(q.uri, "https://x/meta.json");
    let q = create_metadata(&ctx, "TB".to_string(), "TB".to_string(), Some("https://y".to_string()), 500).unwrap();
    assert_eq!(q.uri, "https://y");
    assert_eq!(q.metadata, expected);
    assert!(q.is_mutable && q.update_authority_is_signer);
}

#[test]
fn metadata_errors() {
    let expected = metadata_address(&addr(MINT_X));
    let ctx = metadata_ctx(addr(ADMIN), expected);
    let s = |t: &str| t.to_string();
    assert_eq!(create_metadata_at(&ctx, &expected, "n".repeat(33), s("TB"), None, 0).unwrap_err(), TbCoinError::NameTooLong);
    assert!(create_metadata_at(&ctx, &expected, "n".repeat(32), s("TB"), None, 0).is_ok());
    assert_eq!(create_metadata_at(&ctx, &expected, s("TB"), "s".repeat(11), None, 0).unwrap_err(), TbCoinError::SymbolTooLong);
    assert!(create_metadata_at(&ctx, &expected, s("TB"), "s".repeat(10), None, 0).is_ok());
    assert_eq!(create_metadata_at(&ctx, &expected, s("TB"), s("TB"), Some("u".repeat(201)), 0).unwrap_err(), TbCoinError::MetadataUriTooLong);
    let other = metadata_ctx(addr(ALICE), expected);
    assert_eq!(create_metadata_at(&other, &expected, s("TB"), s("TB"), None, 0).unwrap_err(), TbCoinError::Unauthorized);
    let mut half = metadata_ctx(addr(ADMIN), expected);
    half.mint_authority = addr(ALICE);
    assert_eq!(create_metadata_at(&half, &expected, s("TB"), s("TB"), None, 0).unwrap_err(), TbCoinError::Unauthorized);
    let mut wrong_mint = metadata_ctx(addr(ADMIN), expected);
    wrong_mint.mint = addr(MINT_Y);
    assert_eq!(create_metadata_at(&wrong_mint, &expected, s("TB"), s("TB"), None, 0).unwrap_err(), TbCoinError::InvalidMint);
}

#[test]
fn metadata_address_is_not_the_mint() {
    let expected = metadata_address(&addr(MINT_X));
    assert_ne!(expected, addr(MINT_X));
    // Handing the mint's own address as the record address is refused.
    let ctx = metadata_ctx(addr(ADMIN), addr(MINT_X));
    assert_eq!(
        create_metadata(&ctx, "TB".to_string(), "TB".to_string(), None, 0).unwrap_err(),
        TbCoinError::InvalidMetadataAccount
    );
}

#[test]
fn end_to_end() {
    let mut l = setup();
    let c = l
        .initialize_config(&addr(ADMIN), &addr(MINT_X), "https://x/meta.json".to_string(), 9)
        .unwrap();
    assert_eq!(l.mint_tokens(&c, &addr(MINT_X), &addr(ACCOUNT_A), &addr(ADMIN), 1_000_000), Ok(()));
    assert_eq!(l.balance(&addr(ACCOUNT_A)), Some(1_000_000));
    assert_eq!(l.transfer_tokens(&addr(ACCOUNT_A), &addr(ACCOUNT_B), &addr(ALICE), 400_000), Ok(()));
    assert_eq!(l.balance(&addr(ACCOUNT_A)), Some(600_000));
    assert_eq!(l.balance(&addr(ACCOUNT_B)), Some(400_000));
    let md = metadata_address(&addr(MINT_X));
    let accounts = metadata_accounts(addr(MINT_X), md, addr(ADMIN));
    assert_eq!(l.create_metadata(&c, &accounts, "TB".to_string(), "TB".to_string(), None, 500), Ok(()));
    let record = l.metadata_record(&md).unwrap();
    assert_eq!(record.uri, "https://x/meta.json");
    assert_eq!(record.name, "TB");
    assert_eq!(record.symbol, "TB");
    assert_eq!(record.seller_fee_basis_points, 500);
    assert_eq!(
        l.create_metadata(&c, &accounts, "TB".to_string(), "TB".to_string(), None, 500),
        Err(TbCoinError::AccountInUse)
    );
}
