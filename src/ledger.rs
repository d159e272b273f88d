use crate::address::Address;
use crate::derive::{program_address_of, try_find_program_address};
use crate::program::{
    create_associated_token_account, create_metadata, create_metadata_error, create_mint,
    initialize_config, initialize_config_error, metadata_request_matches, mint_tokens,
    mint_tokens_error, opt_view, transfer_tokens, transfer_tokens_error, CreateAssociatedTokenAccount,
    CreateMetadata, CreateMint, InitializeConfig, MintTokens, TransferTokens,
};
use crate::derive::metadata_address_of;
use crate::state::{
    config_seed, config_seed_spec, Config, CreateMetadataRequest, MintAccount, TbCoinError,
    TokenAccount, MAX_DECIMALS,
};
use crate::table::Table;
use vstd::prelude::*;

verus! {

/// An in-memory ledger that runs the token's operations: its tokens, holding
/// accounts, configuration records and metadata records, each keyed by
/// address.
pub struct Ledger {
    pub program_id: Address,
    pub mints: Table<MintAccount>,
    pub accounts: Table<TokenAccount>,
    pub configs: Table<Config>,
    pub records: Table<CreateMetadataRequest>,
}

/// A copy of a configuration record, field for field.
pub fn copy_config(c: &Config) -> (r: Config)
    ensures
        r == *c,
{
    Config {
        admin: c.admin,
        mint: c.mint,
        decimals: c.decimals,
        bump: c.bump,
        metadata_uri: c.metadata_uri.clone(),
    }
}

/// `t` with its balance replaced by `amount`.
pub open spec fn with_amount(t: TokenAccount, amount: u64) -> TokenAccount {
    TokenAccount { address: t.address, mint: t.mint, owner: t.owner, amount }
}

/// `m` with its supply replaced by `supply`.
pub open spec fn with_supply(m: MintAccount, supply: u64) -> MintAccount {
    MintAccount {
        address: m.address,
        decimals: m.decimals,
        supply,
        mint_authority: m.mint_authority,
        freeze_authority: m.freeze_authority,
    }
}

/// The identities a metadata creation names besides its configuration
/// record: the token, the record's address, and the signers.
#[derive(Clone, Copy, Debug)]
pub struct MetadataAccounts {
    pub mint: Address,
    pub metadata: Address,
    pub mint_authority: Address,
    pub payer: Address,
    pub update_authority: Address,
}

impl MetadataAccounts {
    /// The accounts of a metadata creation under the record `config`.
    pub open spec fn with_config(self, config: Config) -> CreateMetadata {
        CreateMetadata {
            config,
            mint: self.mint,
            metadata: self.metadata,
            mint_authority: self.mint_authority,
            payer: self.payer,
            update_authority: self.update_authority,
        }
    }
}

/// What a creation of the configuration record of `mint` returns, and what
/// it makes of the record table, from `pre` to `post`.
pub open spec fn initialize_config_outcome(
    pre: Ledger,
    post: Ledger,
    admin: Address,
    mint: Seq<u8>,
    metadata_uri: Seq<char>,
    decimals: u8,
    r: Result<Address, TbCoinError>,
) -> bool {
    &&& post.program_id == pre.program_id
    &&& r is Err ==> post.configs == pre.configs
    &&& match pre.config_address_of(mint) {
        None => r == Err::<Address, TbCoinError>(TbCoinError::AddressDerivationFailed),
        Some((a, b)) => if pre.configs@.contains_key(a) {
            r == Err::<Address, TbCoinError>(TbCoinError::AccountInUse)
        } else if !pre.mints@.contains_key(mint) {
            r == Err::<Address, TbCoinError>(TbCoinError::AccountNotFound)
        } else {
            match initialize_config_error(
                InitializeConfig {
                    admin,
                    mint: pre.mints@[mint],
                    config_bump: b,
                },
                metadata_uri,
                decimals,
            ) {
                Some(e) => r == Err::<Address, TbCoinError>(e),
                None => r matches Ok(ra) && ra@ == a && post.configs@ == pre.configs@.insert(a, post.configs@[a]) && post.configs@[a].admin
                    == admin && post.configs@[a].mint == pre.mints@[mint].address
                    && post.configs@[a].decimals == decimals
                    && post.configs@[a].bump == b
                    && post.configs@[a].metadata_uri@ == metadata_uri,
            }
        },
    }
}

/// What a mint of `amount` units of `mint` into `destination` returns, and
/// what it makes of tokens and balances, from `pre` to `post`.
pub open spec fn mint_tokens_outcome(
    pre: Ledger,
    post: Ledger,
    config: Seq<u8>,
    mint: Address,
    destination: Seq<u8>,
    mint_authority: Address,
    amount: u64,
    r: Result<(), TbCoinError>,
) -> bool {
    &&& r is Err ==> post.mints == pre.mints && post.accounts == pre.accounts
    &&& !pre.configs@.contains_key(config) || !pre.accounts@.contains_key(
        destination,
    ) || !pre.mints@.contains_key(mint@) ==> r == Err::<(), TbCoinError>(
        TbCoinError::AccountNotFound,
    )
    &&& pre.configs@.contains_key(config) && pre.accounts@.contains_key(
        destination,
    ) && pre.mints@.contains_key(mint@) ==> {
        let ctx = MintTokens {
            config: pre.configs@[config],
            mint,
            destination: pre.accounts@[destination],
            mint_authority,
        };
        let supply = pre.mints@[mint@].supply;
        let balance = pre.accounts@[destination].amount;
        match mint_tokens_error(ctx) {
            Some(e) => r == Err::<(), TbCoinError>(e),
            None => if mint_authority@ != pre.mints@[mint@].mint_authority@ {
                r == Err::<(), TbCoinError>(TbCoinError::MintAuthorityMismatch)
            } else if supply + amount > u64::MAX || balance + amount > u64::MAX {
                r == Err::<(), TbCoinError>(TbCoinError::Overflow)
            } else {
                &&& r is Ok
                &&& post.mints@ == pre.mints@.insert(
                    mint@,
                    with_supply(pre.mints@[mint@], (supply + amount) as u64),
                )
                &&& post.accounts@ == pre.accounts@.insert(
                    destination,
                    with_amount(
                        pre.accounts@[destination],
                        (balance + amount) as u64,
                    ),
                )
            },
        }
    }
}

impl Ledger {
    /// Every table is well formed, and each token and holding account is
    /// stored under its own address.
    pub open spec fn wf(&self) -> bool {
        &&& self.mints.wf()
        &&& self.accounts.wf()
        &&& self.configs.wf()
        &&& self.records.wf()
        &&& forall|k: Seq<u8>| #[trigger]
            self.mints@.contains_key(k) ==> self.mints@[k].address@ == k
        &&& forall|k: Seq<u8>| #[trigger]
            self.accounts@.contains_key(k) ==> self.accounts@[k].address@ == k
        &&& forall|k: Seq<u8>| #[trigger]
            self.configs@.contains_key(k) ==> self.config_address_of(self.configs@[k].mint@)
                == Some((k, self.configs@[k].bump))
    }

    /// Where the configuration record of `mint` is derived to stand.
    pub open spec fn config_address_of(&self, mint: Seq<u8>) -> Option<(Seq<u8>, u8)> {
        program_address_of(config_seed_spec(), mint, self.program_id@)
    }

    /// An empty ledger for the program `program_id`.
    pub fn new(program_id: Address) -> (r: Ledger)
        ensures
            r.wf(),
            r.program_id == program_id,
            r.mints@.is_empty(),
            r.accounts@.is_empty(),
            r.configs@.is_empty(),
            r.records@.is_empty(),
    {
        Ledger {
            program_id,
            mints: Table::new(),
            accounts: Table::new(),
            configs: Table::new(),
            records: Table::new(),
        }
    }

    /// Creates the token `ctx.mint` with `decimals`.
    pub fn create_mint(&mut self, ctx: &CreateMint, decimals: u8) -> (r: Result<(), TbCoinError>)
        requires
            old(self).wf(),
        ensures
            final(self).wf(),
            final(self).program_id == old(self).program_id,
            final(self).accounts == old(self).accounts,
            final(self).configs == old(self).configs,
            final(self).records == old(self).records,
            decimals > MAX_DECIMALS ==> r == Err::<(), TbCoinError>(TbCoinError::InvalidDecimals),
            decimals <= MAX_DECIMALS && old(self).mints@.contains_key(ctx.mint@) ==> r == Err::<
                (),
                TbCoinError,
            >(TbCoinError::AccountInUse),
            decimals <= MAX_DECIMALS && !old(self).mints@.contains_key(ctx.mint@) ==> r is Ok,
            r is Ok ==> final(self).mints@ == old(self).mints@.insert(
                ctx.mint@,
                MintAccount {
                    address: ctx.mint,
                    decimals,
                    supply: 0,
                    mint_authority: ctx.mint_authority,
                    freeze_authority: ctx.mint_authority,
                },
            ),
            r is Err ==> final(self).mints == old(self).mints,
    {
        let m = match create_mint(ctx, decimals) {
            Ok(m) => m,
            Err(e) => return Err(e),
        };
        if self.mints.contains(&ctx.mint) {
            return Err(TbCoinError::AccountInUse);
        }
        self.mints.insert(ctx.mint, m);
        Ok(())
    }

    /// Creates the empty holding account `token_account` of `owner` for the
    /// token `mint`.
    pub fn create_associated_token_account(
        &mut self,
        payer: &Address,
        owner: &Address,
        mint: &Address,
        token_account: &Address,
    ) -> (r: Result<(), TbCoinError>)
        requires
            old(self).wf(),
        ensures
            final(self).wf(),
            final(self).program_id == old(self).program_id,
            final(self).mints == old(self).mints,
            final(self).configs == old(self).configs,
            final(self).records == old(self).records,
            !old(self).mints@.contains_key(mint@) ==> r == Err::<(), TbCoinError>(
                TbCoinError::AccountNotFound,
            ),
            old(self).mints@.contains_key(mint@) && old(self).accounts@.contains_key(
                token_account@,
            ) ==> r == Err::<(), TbCoinError>(TbCoinError::AccountInUse),
            old(self).mints@.contains_key(mint@) && !old(self).accounts@.contains_key(
                token_account@,
            ) ==> r is Ok,
            r is Ok ==> final(self).accounts@ == old(self).accounts@.insert(
                token_account@,
                TokenAccount {
                    address: *token_account,
                    mint: old(self).mints@[mint@].address,
                    owner: *owner,
                    amount: 0,
                },
            ),
            r is Err ==> final(self).accounts == old(self).accounts,
    {
        let m = match self.mints.get(mint) {
            Some(m) => *m,
            None => return Err(TbCoinError::AccountNotFound),
        };
        if self.accounts.contains(token_account) {
            return Err(TbCoinError::AccountInUse);
        }
        let ctx = CreateAssociatedTokenAccount {
            payer: *payer,
            owner: *owner,
            mint: m,
            token_account: *token_account,
        };
        let t = create_associated_token_account(&ctx);
        self.accounts.insert(*token_account, t);
        Ok(())
    }

    /// Creates the configuration record of the token `mint`, with `admin` as
    /// its administrator, at the address derived from the token, and returns
    /// that address.
    pub fn initialize_config(
        &mut self,
        admin: &Address,
        mint: &Address,
        metadata_uri: String,
        decimals: u8,
    ) -> (r: Result<Address, TbCoinError>)
        requires
            old(self).wf(),
        ensures
            final(self).wf(),
            final(self).program_id == old(self).program_id,
            final(self).mints == old(self).mints,
            final(self).accounts == old(self).accounts,
            final(self).records == old(self).records,
            r is Err ==> final(self).configs == old(self).configs,
            initialize_config_outcome(*old(self), *final(self), *admin, mint@, metadata_uri@, decimals, r),
    {
        let seed = config_seed();
        let (address, bump) = match try_find_program_address(&seed, mint, &self.program_id) {
            Some(found) => found,
            None => return Err(TbCoinError::AddressDerivationFailed),
        };
        if self.configs.contains(&address) {
            return Err(TbCoinError::AccountInUse);
        }
        let m = match self.mints.get(mint) {
            Some(m) => *m,
            None => return Err(TbCoinError::AccountNotFound),
        };
        let ctx = InitializeConfig { admin: *admin, mint: m, config_bump: bump };
        let config = match initialize_config(&ctx, metadata_uri, decimals) {
            Ok(c) => c,
            Err(e) => return Err(e),
        };
        self.configs.insert(address, config);
        Ok(address)
    }

    /// Mints `amount` units of `mint` into `destination`, on the authority
    /// of `mint_authority`, under the configuration record at `config`.
    pub fn mint_tokens(
        &mut self,
        config: &Address,
        mint: &Address,
        destination: &Address,
        mint_authority: &Address,
        amount: u64,
    ) -> (r: Result<(), TbCoinError>)
        requires
            old(self).wf(),
        ensures
            final(self).wf(),
            final(self).program_id == old(self).program_id,
            final(self).configs == old(self).configs,
            final(self).records == old(self).records,
            r is Err ==> final(self).mints == old(self).mints && final(self).accounts == old(
                self,
            ).accounts,
            mint_tokens_outcome(
                *old(self),
                *final(self),
                config@,
                *mint,
                destination@,
                *mint_authority,
                amount,
                r,
            ),
    {
        let cfg = match self.configs.get(config) {
            Some(c) => copy_config(c),
            None => return Err(TbCoinError::AccountNotFound),
        };
        let dest = match self.accounts.get(destination) {
            Some(t) => *t,
            None => return Err(TbCoinError::AccountNotFound),
        };
        let m = match self.mints.get(mint) {
            Some(m) => *m,
            None => return Err(TbCoinError::AccountNotFound),
        };
        let ctx = MintTokens {
            config: cfg,
            mint: *mint,
            destination: dest,
            mint_authority: *mint_authority,
        };
        let request = match mint_tokens(&ctx, amount) {
            Ok(q) => q,
            Err(e) => return Err(e),
        };
        if !request.authority.same_as(&m.mint_authority) {
            return Err(TbCoinError::MintAuthorityMismatch);
        }
        let supply = match m.supply.checked_add(request.amount) {
            Some(s) => s,
            None => return Err(TbCoinError::Overflow),
        };
        let balance = match dest.amount.checked_add(request.amount) {
            Some(b) => b,
            None => return Err(TbCoinError::Overflow),
        };
        self.mints.set(
            mint,
            MintAccount {
                address: m.address,
                decimals: m.decimals,
                supply,
                mint_authority: m.mint_authority,
                freeze_authority: m.freeze_authority,
            },
        );
        self.accounts.set(
            destination,
            TokenAccount { address: dest.address, mint: dest.mint, owner: dest.owner, amount: balance },
        );
        Ok(())
    }
    /// Moves `amount` units from `source` to `destination` on the authority
    /// of `authority`. A transfer from an account to itself changes nothing.
    pub fn transfer_tokens(
        &mut self,
        source: &Address,
        destination: &Address,
        authority: &Address,
        amount: u64,
    ) -> (r: Result<(), TbCoinError>)
        requires
            old(self).wf(),
        ensures
            final(self).wf(),
            final(self).program_id == old(self).program_id,
            final(self).mints == old(self).mints,
            final(self).configs == old(self).configs,
            final(self).records == old(self).records,
            r is Err ==> final(self).accounts == old(self).accounts,
            !old(self).accounts@.contains_key(source@) || !old(self).accounts@.contains_key(
                destination@,
            ) ==> r == Err::<(), TbCoinError>(TbCoinError::AccountNotFound),
            old(self).accounts@.contains_key(source@) && old(self).accounts@.contains_key(
                destination@,
            ) ==> {
                let from = old(self).accounts@[source@];
                let to = old(self).accounts@[destination@];
                let ctx = TransferTokens { source: from, destination: to, authority: *authority };
                match transfer_tokens_error(ctx) {
                    Some(e) => r == Err::<(), TbCoinError>(e),
                    None => if from.amount < amount {
                        r == Err::<(), TbCoinError>(TbCoinError::InsufficientFunds)
                    } else if source@ == destination@ {
                        r is Ok && final(self).accounts@ == old(self).accounts@
                    } else if to.amount + amount > u64::MAX {
                        r == Err::<(), TbCoinError>(TbCoinError::Overflow)
                    } else {
                        &&& r is Ok
                        &&& final(self).accounts@ == old(self).accounts@.insert(
                            source@,
                            with_amount(from, (from.amount - amount) as u64),
                        ).insert(destination@, with_amount(to, (to.amount + amount) as u64))
                    },
                }
            },
    {
        let from = match self.accounts.get(source) {
            Some(t) => *t,
            None => return Err(TbCoinError::AccountNotFound),
        };
        let to = match self.accounts.get(destination) {
            Some(t) => *t,
            None => return Err(TbCoinError::AccountNotFound),
        };
        let ctx = TransferTokens { source: from, destination: to, authority: *authority };
        let request = match transfer_tokens(&ctx, amount) {
            Ok(q) => q,
            Err(e) => return Err(e),
        };
        if from.amount < request.amount {
            return Err(TbCoinError::InsufficientFunds);
        }
        if source.same_as(destination) {
            return Ok(());
        }
        let credited = match to.amount.checked_add(request.amount) {
            Some(b) => b,
            None => return Err(TbCoinError::Overflow),
        };
        self.accounts.set(
            source,
            TokenAccount {
                address: from.address,
                mint: from.mint,
                owner: from.owner,
                amount: from.amount - request.amount,
            },
        );
        self.accounts.set(
            destination,
            TokenAccount { address: to.address, mint: to.mint, owner: to.owner, amount: credited },
        );
        Ok(())
    }

    /// Creates the metadata record of the token `mint` at `metadata`, after
    /// the checks of `create_metadata` against the configuration record at
    /// `config`.
    pub fn create_metadata(
        &mut self,
        config: &Address,
        accounts: &MetadataAccounts,
        name: String,
        symbol: String,
        uri: Option<String>,
        seller_fee_basis_points: u16,
    ) -> (r: Result<(), TbCoinError>)
        requires
            old(self).wf(),
        ensures
            final(self).wf(),
            final(self).program_id == old(self).program_id,
            final(self).mints == old(self).mints,
            final(self).accounts == old(self).accounts,
            final(self).configs == old(self).configs,
            r is Err ==> final(self).records == old(self).records,
            !old(self).configs@.contains_key(config@) || !old(self).mints@.contains_key(
                accounts.mint@,
            ) ==> r == Err::<(), TbCoinError>(TbCoinError::AccountNotFound),
            old(self).configs@.contains_key(config@) && old(self).mints@.contains_key(
                accounts.mint@,
            ) ==> {
                let ctx = accounts.with_config(old(self).configs@[config@]);
                match metadata_address_of(ctx.mint@) {
                    None => r == Err::<(), TbCoinError>(TbCoinError::AddressDerivationFailed),
                    Some(expected) => match create_metadata_error(
                        ctx,
                        expected,
                        name@,
                        symbol@,
                        opt_view(uri),
                    ) {
                        Some(e) => r == Err::<(), TbCoinError>(e),
                        None => if old(self).records@.contains_key(ctx.metadata@) {
                            r == Err::<(), TbCoinError>(TbCoinError::AccountInUse)
                        } else {
                            &&& r is Ok
                            &&& final(self).records@ == old(self).records@.insert(
                                ctx.metadata@,
                                final(self).records@[ctx.metadata@],
                            )
                            &&& metadata_request_matches(
                                final(self).records@[ctx.metadata@],
                                ctx,
                                name@,
                                symbol@,
                                opt_view(uri),
                                seller_fee_basis_points,
                            )
                        },
                    },
                }
            },
    {
        let cfg = match self.configs.get(config) {
            Some(c) => copy_config(c),
            None => return Err(TbCoinError::AccountNotFound),
        };
        if !self.mints.contains(&accounts.mint) {
            return Err(TbCoinError::AccountNotFound);
        }
        let ctx = CreateMetadata {
            config: cfg,
            mint: accounts.mint,
            metadata: accounts.metadata,
            mint_authority: accounts.mint_authority,
            payer: accounts.payer,
            update_authority: accounts.update_authority,
        };
        let request = match create_metadata(&ctx, name, symbol, uri, seller_fee_basis_points) {
            Ok(q) => q,
            Err(e) => return Err(e),
        };
        if self.records.contains(&ctx.metadata) {
            return Err(TbCoinError::AccountInUse);
        }
        self.records.insert(ctx.metadata, request);
        Ok(())
    }

    /// The balance of the holding account at `account`, if there is one.
    pub fn balance(&self, account: &Address) -> (r: Option<u64>)
        requires
            self.wf(),
        ensures
            match r {
                Some(b) => self.accounts@.contains_key(account@) && b == self.accounts@[account@].amount,
                None => !self.accounts@.contains_key(account@),
            },
    {
        match self.accounts.get(account) {
            Some(t) => Some(t.amount),
            None => None,
        }
    }

    /// The configuration record at `address`, if there is one.
    pub fn config(&self, address: &Address) -> (r: Option<&Config>)
        requires
            self.wf(),
        ensures
            match r {
                Some(c) => self.configs@.contains_key(address@) && *c == self.configs@[address@],
                None => !self.configs@.contains_key(address@),
            },
    {
        self.configs.get(address)
    }

    /// The metadata record at `address`, if there is one.
    pub fn metadata_record(&self, address: &Address) -> (r: Option<&CreateMetadataRequest>)
        requires
            self.wf(),
        ensures
            match r {
                Some(q) => self.records@.contains_key(address@) && *q == self.records@[address@],
                None => !self.records@.contains_key(address@),
            },
    {
        self.records.get(address)
    }
}

} // verus!
