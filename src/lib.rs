//! Issuance and management of a single fungible token: the configuration
//! record that binds an administrator to a token, the authorization checks
//! that guard every privileged operation, and the deterministic addresses
//! that pin records to the token they describe.
pub mod address;
pub mod derive;
pub mod state;
pub mod program;
pub mod table;
pub mod ledger;
pub mod laws;

pub use address::Address;
pub use ledger::{Ledger, MetadataAccounts};
pub use program::{
    create_associated_token_account, create_metadata, create_metadata_at, create_mint,
    initialize_config, mint_tokens, transfer_tokens, CreateAssociatedTokenAccount,
    CreateMetadata, CreateMint, InitializeConfig, MintTokens, TransferTokens,
};
pub use state::{
    Config, CreateMetadataRequest, MintAccount, MintTo, TbCoinError, TokenAccount, Transfer,
};
