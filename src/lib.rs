//! aSOL: an aggregate of Solana stake pools. Deposits of any registered
//! pool's token mint aSOL in proportion to the SOL value they add.
use vstd::prelude::*;

pub mod account_validators;
pub mod accounting;
pub mod pool;
pub mod snapshot;
pub mod state;
pub mod types;

use crate::account_validators::pool_registered;
use crate::accounting::{Accountant, SyncAll, TokenAccount};
use crate::pool::{snapshot_matches, sync_and_mint_matches};
use crate::snapshot::Snapshot;
use crate::state::{
    AccountingMethod, Aggregate, ErrorCode, Pubkey, StakePool, StakePoolMeta, StakePoolStats,
};
use crate::types::ASOL;

verus! {

/// Number of lamports in one SOL.
pub const LAMPORTS_PER_SOL: u64 = 1_000_000_000;

/// Number of decimals in lamports.
pub const LAMPORTS_DECIMALS: u8 = 9;

/// The minimum amount of liquidity in the pool for the "exact calculation" of SOL/ASOL price to be used.
/// If the amount of SOL in the pool is at most this number, the price of ASOL is pegged to 1 SOL.
pub const MIN_LIQUIDITY_FOR_EXACT_CALCULATION: u64 = LAMPORTS_PER_SOL;

/// A token mint.
#[derive(Clone, Copy, Debug, Default, PartialEq, Eq)]
pub struct Mint {
    /// The address of the mint.
    pub key: Pubkey,
    /// Total supply of the token.
    pub supply: u64,
    /// Number of decimals of the token.
    pub decimals: u8,
}

/// A crate token: the token account that holds the aggregate's reserves.
#[derive(Clone, Copy, Debug, Default, PartialEq, Eq)]
pub struct CrateToken {
    /// The address of the crate token.
    pub key: Pubkey,
    /// The mint of the crate token.
    pub mint: Pubkey,
}

/// Well-known addresses the program checks accounts against.
#[derive(Clone, Copy, Debug, Default, PartialEq, Eq)]
pub struct KnownAddresses {
    /// Withdraw authority of the redeem-in-kind program.
    pub redeem_in_kind_withdraw_authority: Pubkey,
    /// The Solido (Lido) state account.
    pub solido_account: Pubkey,
    /// The Marinade main state account.
    pub marinade_state: Pubkey,
    /// The mint of Lido stSOL.
    pub lido_stsol_mint: Pubkey,
    /// The mint of Marinade mSOL.
    pub marinade_msol_mint: Pubkey,
}

/// Accounts for [new_aggregate].
#[derive(Clone, Debug, Default)]
pub struct NewAggregate {
    /// The aggregate being created.
    pub aggregate: Aggregate,
    /// Mint of the crate token.
    pub crate_mint: Mint,
    /// The crate token.
    pub crate_token: Pubkey,
    /// The redeem-in-kind withdraw authority.
    pub redeem_in_kind: Pubkey,
    /// The first curator and curator setter.
    pub admin: Pubkey,
}

/// Accounts for [add_stake_pool].
#[derive(Clone, Debug, Default)]
pub struct AddStakePool {
    /// Address of the aggregate.
    pub aggregate_key: Pubkey,
    /// The aggregate.
    pub aggregate: Aggregate,
    /// The stake pool being created.
    pub stake_pool: StakePool,
    /// Mint of the stake pool.
    pub mint: Mint,
    /// The signer, who must be the curator.
    pub curator: Pubkey,
}

/// Accounts for [set_curator].
#[derive(Clone, Debug, Default)]
pub struct SetCurator {
    /// The aggregate.
    pub aggregate: Aggregate,
    /// The signer, who must be the curator setter.
    pub curator_setter: Pubkey,
    /// The next curator.
    pub next_curator: Pubkey,
}

/// Accounts for minting aSOL.
#[derive(Clone, Debug, Default)]
pub struct MintASol {
    /// Address of the aggregate.
    pub aggregate_key: Pubkey,
    /// The aggregate.
    pub aggregate: Aggregate,
    /// The stake pool deposited into.
    pub stake_pool: StakePool,
    /// The aggregate's reserve of the stake pool's tokens.
    pub stake_pool_tokens: TokenAccount,
    /// The crate token.
    pub crate_token: CrateToken,
    /// Mint of the crate token.
    pub crate_mint: Mint,
    /// The depositor.
    pub depositor: Pubkey,
    /// The depositor's stake pool tokens.
    pub depositor_source: TokenAccount,
    /// Where the minted aSOL goes.
    pub mint_destination: TokenAccount,
}

/// Accounts for syncing every stake pool, then minting.
#[derive(Clone, Debug, Default)]
pub struct SyncAndMint {
    /// The accounts of the mint.
    pub mint_asol: MintASol,
    /// The state of every supported stake pool.
    pub sync: SyncAll,
}

/// Provisions a new aggregate SOL: records its crate token, its bump and the
/// admin as both curator and curator setter.
pub fn new_aggregate(ctx: &mut NewAggregate, known: &KnownAddresses, agg_bump: u8) -> (r: Result<
    (),
    ErrorCode,
>)
    ensures
        r == (if old(ctx).redeem_in_kind@ != known.redeem_in_kind_withdraw_authority@ {
            Err(ErrorCode::KeyMismatch)
        } else if old(ctx).crate_mint.supply != 0 || old(ctx).crate_mint.decimals
            != LAMPORTS_DECIMALS {
            Err(ErrorCode::InvariantFailed)
        } else {
            Ok::<(), ErrorCode>(())
        }),
        r is Err ==> *final(ctx) == *old(ctx),
        r is Ok ==> {
            &&& final(ctx).aggregate.crate_token == old(ctx).crate_token
            &&& final(ctx).aggregate.bump == agg_bump
            &&& final(ctx).aggregate.curator == old(ctx).admin
            &&& final(ctx).aggregate.curator_setter == old(ctx).admin
            &&& final(ctx).aggregate.stake_pools == old(ctx).aggregate.stake_pools
            &&& final(ctx).aggregate.latest_snapshot == old(ctx).aggregate.latest_snapshot
            &&& final(ctx).aggregate.latest_snapshot_ts == old(ctx).aggregate.latest_snapshot_ts
            &&& final(ctx).crate_mint == old(ctx).crate_mint
            &&& final(ctx).crate_token == old(ctx).crate_token
            &&& final(ctx).redeem_in_kind == old(ctx).redeem_in_kind
            &&& final(ctx).admin == old(ctx).admin
        },
{
    ctx.validate(known)?;
    ctx.aggregate.crate_token = ctx.crate_token;
    ctx.aggregate.bump = agg_bump;
    ctx.aggregate.curator = ctx.admin;
    ctx.aggregate.curator_setter = ctx.admin;
    Ok(())
}

/// Adds a new stake pool to an aggregate: the curator registers a mint that
/// is not registered yet, and the pool's state starts with zero statistics.
pub fn add_stake_pool(ctx: &mut AddStakePool, bump: u8, accounting_method: AccountingMethod) -> (r:
    Result<(), ErrorCode>)
    ensures
        r == (if old(ctx).curator@ != old(ctx).aggregate.curator@ {
            Err(ErrorCode::UnauthorizedNotCurator)
        } else if pool_registered(old(ctx).aggregate.stake_pools@, old(ctx).mint.key) {
            Err(ErrorCode::PoolAlreadyAdded)
        } else {
            Ok::<(), ErrorCode>(())
        }),
        r is Err ==> *final(ctx) == *old(ctx),
        r is Ok ==> {
            &&& final(ctx).aggregate.stake_pools@ == old(ctx).aggregate.stake_pools@.push(
                StakePoolMeta { mint: old(ctx).mint.key, accounting_method },
            )
            &&& final(ctx).stake_pool.aggregate == old(ctx).aggregate_key
            &&& final(ctx).stake_pool.mint == old(ctx).mint.key
            &&& final(ctx).stake_pool.bump == bump
            &&& final(ctx).stake_pool.accounting_method == accounting_method
            &&& final(ctx).stake_pool.stats.total_amount_deposited == 0
            &&& final(ctx).stake_pool.stats.total_amount_minted.amount == 0
            &&& final(ctx).stake_pool.latest_snapshot == old(ctx).stake_pool.latest_snapshot
            &&& final(ctx).aggregate.crate_token == old(ctx).aggregate.crate_token
            &&& final(ctx).aggregate.bump == old(ctx).aggregate.bump
            &&& final(ctx).aggregate.curator == old(ctx).aggregate.curator
            &&& final(ctx).aggregate.curator_setter == old(ctx).aggregate.curator_setter
            &&& final(ctx).aggregate.latest_snapshot == old(ctx).aggregate.latest_snapshot
            &&& final(ctx).aggregate.latest_snapshot_ts == old(ctx).aggregate.latest_snapshot_ts
            &&& final(ctx).aggregate_key == old(ctx).aggregate_key
            &&& final(ctx).mint == old(ctx).mint
            &&& final(ctx).curator == old(ctx).curator
        },
{
    ctx.validate()?;
    ctx.stake_pool.aggregate = ctx.aggregate_key;
    ctx.stake_pool.mint = ctx.mint.key;
    ctx.stake_pool.bump = bump;
    ctx.stake_pool.accounting_method = accounting_method;
    ctx.stake_pool.stats = StakePoolStats { total_amount_deposited: 0, total_amount_minted: ASOL::from(0) };
    ctx.aggregate.stake_pools.push(StakePoolMeta { mint: ctx.mint.key, accounting_method });
    Ok(())
}

/// Sets the curator: only the curator setter may.
pub fn set_curator(ctx: &mut SetCurator) -> (r: Result<(), ErrorCode>)
    ensures
        r == (if old(ctx).aggregate.curator_setter@ != old(ctx).curator_setter@ {
            Err(ErrorCode::UnauthorizedNotCuratorSetter)
        } else {
            Ok::<(), ErrorCode>(())
        }),
        r is Err ==> *final(ctx) == *old(ctx),
        r is Ok ==> {
            &&& final(ctx).aggregate.curator == old(ctx).next_curator
            &&& final(ctx).aggregate.curator_setter == old(ctx).aggregate.curator_setter
            &&& final(ctx).aggregate.crate_token == old(ctx).aggregate.crate_token
            &&& final(ctx).aggregate.bump == old(ctx).aggregate.bump
            &&& final(ctx).aggregate.stake_pools == old(ctx).aggregate.stake_pools
            &&& final(ctx).aggregate.latest_snapshot == old(ctx).aggregate.latest_snapshot
            &&& final(ctx).aggregate.latest_snapshot_ts == old(ctx).aggregate.latest_snapshot_ts
            &&& final(ctx).curator_setter == old(ctx).curator_setter
            &&& final(ctx).next_curator == old(ctx).next_curator
        },
{
    ctx.validate()?;
    ctx.aggregate.curator = ctx.next_curator;
    Ok(())
}

/// Mints aSOL from Lido stSOL, after checking the accounts.
pub fn mint_lido(ctx: &mut SyncAndMint, known: &KnownAddresses, deposit_amount: u64, now: i64) -> (r:
    Result<ASOL, ErrorCode>)
    ensures
        !old(ctx).spec_valid(*known) ==> r == Err::<ASOL, ErrorCode>(ErrorCode::KeyMismatch)
            && *final(ctx) == *old(ctx),
        old(ctx).spec_valid(*known) ==> sync_and_mint_matches(
            r,
            *old(ctx),
            *final(ctx),
            Accountant::Lido(old(ctx).sync.lido),
            deposit_amount,
            now,
        ),
{
    ctx.validate(known)?;
    ctx.sync_and_mint_lido(deposit_amount, now)
}

/// Mints aSOL from Marinade mSOL, after checking the accounts.
pub fn mint_marinade(ctx: &mut SyncAndMint, known: &KnownAddresses, deposit_amount: u64, now: i64) -> (r:
    Result<ASOL, ErrorCode>)
    ensures
        !old(ctx).spec_valid(*known) ==> r == Err::<ASOL, ErrorCode>(ErrorCode::KeyMismatch)
            && *final(ctx) == *old(ctx),
        old(ctx).spec_valid(*known) ==> sync_and_mint_matches(
            r,
            *old(ctx),
            *final(ctx),
            Accountant::Marinade(old(ctx).sync.marinade),
            deposit_amount,
            now,
        ),
{
    ctx.validate(known)?;
    ctx.sync_and_mint_marinade(deposit_amount, now)
}

/// Builds a fresh snapshot of the aggregate, changing nothing.
pub fn print_aggregate_info(ctx: &SyncAndMint) -> (r: Result<Snapshot, ErrorCode>)
    ensures
        snapshot_matches(
            r,
            ctx.mint_asol.aggregate.stake_pools@,
            ctx.sync,
            ctx.mint_asol.crate_mint.supply,
        ),
{
    ctx.build_snapshot()
}

} // verus!
