use asol::accounting::{Accountant, SyncAll, SyncLido, SyncMarinade, TokenAccount};
use asol::snapshot::{Snapshot, StakePoolSnapshot};
use asol::state::{
    AccountingMethod, Aggregate, ErrorCode, Pubkey, StakePool, StakePoolMeta, StakePoolStats,
};
use asol::types::{checked_mul_div, ASOL, SOL};
use asol::{
    add_stake_pool, mint_lido, mint_marinade, new_aggregate, print_aggregate_info, set_curator,
    AddStakePool, CrateToken, KnownAddresses, Mint, MintASol, NewAggregate, SetCurator,
    SyncAndMint,
};

fn key(b: u8) -> Pubkey {
    Pubkey::new_from_array([b; 32])
}

const LIDO_MINT: u8 = 7;
const MARINADE_MINT: u8 = 11;
const CRATE_TOKEN: u8 = 30;
const CRATE_MINT: u8 = 31;
const AGGREGATE: u8 = 40;
const DEPOSITOR: u8 = 50;

fn known() -> KnownAddresses {
    KnownAddresses {
        redeem_in_kind_withdraw_authority: key(3),
        solido_account: key(1),
        marinade_state: key(2),
        lido_stsol_mint: key(LIDO_MINT),
        marinade_msol_mint: key(MARINADE_MINT),
    }
}

fn reserve(k: u8, mint: u8, amount: u64) -> TokenAccount {
    TokenAccount { key: key(k), mint: key(mint), owner: key(CRATE_TOKEN), amount }
}

fn sync() -> SyncAll {
    SyncAll {
        marinade: SyncMarinade {
            marinade: key(2),
            msol_price: 1 << 32,
            marinade_stake_pool_tokens: reserve(21, MARINADE_MINT, 1_000_000_000),
        },
        lido: SyncLido {
            lido: key(1),
            sol_balance: 1_100,
            st_sol_supply: 1_000,
            lido_stake_pool_tokens: reserve(20, LIDO_MINT, 2_000_000_000),
        },
    }
}

fn aggregate() -> Aggregate {
    Aggregate {
        crate_token: key(CRATE_TOKEN),
        bump: 254,
        curator: key(60),
        curator_setter: key(61),
        stake_pools: vec![
            StakePoolMeta { mint: key(LIDO_MINT), accounting_method: AccountingMethod::Lido },
            StakePoolMeta {
                mint: key(MARINADE_MINT),
                accounting_method: AccountingMethod::Marinade,
            },
        ],
        ..Default::default()
    }
}

fn ctx(pool_mint: u8, reserves: TokenAccount) -> SyncAndMint {
    SyncAndMint {
        mint_asol: MintASol {
            aggregate_key: key(AGGREGATE),
            aggregate: aggregate(),
            stake_pool: StakePool {
                aggregate: key(AGGREGATE),
                mint: key(pool_mint),
                ..Default::default()
            },
            stake_pool_tokens: reserves,
            crate_token: CrateToken { key: key(CRATE_TOKEN), mint: key(CRATE_MINT) },
            crate_mint: Mint { key: key(CRATE_MINT), supply: 3_000_000_000, decimals: 9 },
            depositor: key(DEPOSITOR),
            depositor_source: TokenAccount {
                key: key(51),
                mint: key(pool_mint),
                owner: key(DEPOSITOR),
                amount: 5_000_000,
            },
            mint_destination: TokenAccount {
                key: key(52),
                mint: key(CRATE_MINT),
                owner: key(DEPOSITOR),
                amount: 0,
            },
        },
        sync: sync(),
    }
}

fn lido_ctx() -> SyncAndMint {
    ctx(LIDO_MINT, sync().lido.lido_stake_pool_tokens)
}

fn marinade_ctx() -> SyncAndMint {
    ctx(MARINADE_MINT, sync().marinade.marinade_stake_pool_tokens)
}

fn pool_snap(mint: u8, balance: u64, price: u64) -> StakePoolSnapshot {
    StakePoolSnapshot { pool_mint: key(mint), pool_balance: balance, sol_for_1e9: SOL::from(price) }
}

#[test]
fn mul_div_floors_and_checks() {
    assert_eq!(checked_mul_div(7, 10, 3), Some(23));
    assert_eq!(checked_mul_div(7, 10, 0), None);
    assert_eq!(checked_mul_div(u64::MAX, 2, 1), None);
    assert_eq!(checked_mul_div(u64::MAX, u64::MAX, u64::MAX), Some(u64::MAX));
}

#[test]
fn checked_mul_asol_scales() {
    let r = SOL::from(1_100_000).checked_mul_asol(ASOL::from(3_000_000_000), SOL::from(3_300_000_000));
    assert_eq!(r, Some(ASOL::from(1_000_000)));
    assert_eq!(SOL::from(5).checked_mul_asol(ASOL::from(5), SOL::from(0)), None);
    assert_eq!(SOL::from(u64::MAX).checked_mul_asol(ASOL::from(3), SOL::from(2)), None);
}

#[test]
fn pool_balance_sol_overflow() {
    let snap = pool_snap(1, u64::MAX, u64::MAX);
    assert_eq!(snap.pool_balance_sol(), None);
    let snap = pool_snap(1, 3, 2_500_000_000);
    assert_eq!(snap.pool_balance_sol(), Some(7));
}

#[test]
fn marinade_value_uses_fixed_point_price() {
    let m = SyncMarinade { msol_price: 3 << 31, ..Default::default() };
    assert_eq!(m.sol_value(1_000), Ok(SOL::from(1_500)));
    assert_eq!(m.sol_value(3), Ok(SOL::from(4)));
    let m = SyncMarinade { msol_price: u64::MAX, ..Default::default() };
    assert_eq!(m.sol_value(u64::MAX), Err(ErrorCode::IntegerOverflow));
}

#[test]
fn lido_value_uses_exchange_rate() {
    let l = SyncLido { sol_balance: 1_100, st_sol_supply: 1_000, ..Default::default() };
    assert_eq!(l.sol_value(1_000_000), Ok(SOL::from(1_100_000)));
    let l = SyncLido { sol_balance: 1_100, st_sol_supply: 0, ..Default::default() };
    assert_eq!(l.sol_value(10), Err(ErrorCode::IntegerOverflow));
}

#[test]
fn accountant_dispatches_by_method() {
    let s = sync();
    assert_eq!(s.accountant(AccountingMethod::Lido).method(), AccountingMethod::Lido);
    assert_eq!(s.accountant(AccountingMethod::Marinade).method(), AccountingMethod::Marinade);
    assert_eq!(s.accountant(AccountingMethod::Lido).sol_value(10), Ok(SOL::from(11)));
    assert_eq!(
        s.accountant(AccountingMethod::Marinade).crate_reserves().mint,
        key(MARINADE_MINT)
    );
}

#[test]
fn try_from_accountant_checks_mint() {
    let s = sync();
    let meta = StakePoolMeta { mint: key(LIDO_MINT), accounting_method: AccountingMethod::Lido };
    let snap = StakePoolSnapshot::try_from_accountant(&meta, &Accountant::Lido(s.lido)).unwrap();
    assert_eq!(snap, pool_snap(LIDO_MINT, 2_000_000_000, 1_100_000_000));
    let wrong = StakePoolSnapshot::try_from_accountant(&meta, &Accountant::Marinade(s.marinade));
    assert_eq!(wrong, Err(ErrorCode::KeyMismatch));
}

#[test]
fn build_snapshot_sums_pool_values() {
    let snap = lido_ctx().build_snapshot().unwrap();
    assert_eq!(snap.balance_sol, SOL::from(3_200_000_000));
    assert_eq!(snap.supply, ASOL::from(3_000_000_000));
    assert_eq!(
        snap.stake_pools,
        vec![
            pool_snap(LIDO_MINT, 2_000_000_000, 1_100_000_000),
            pool_snap(MARINADE_MINT, 1_000_000_000, 1_000_000_000),
        ]
    );
    let sum: u64 = snap.stake_pools.iter().map(|p| p.pool_balance_sol().unwrap()).sum();
    assert_eq!(snap.balance_sol.amount, sum);
}

#[test]
fn build_snapshot_total_ignores_pool_order() {
    let mut c = lido_ctx();
    c.mint_asol.aggregate.stake_pools.reverse();
    let snap = c.build_snapshot().unwrap();
    assert_eq!(snap.balance_sol, SOL::from(3_200_000_000));
    assert_eq!(snap.stake_pools[0].pool_mint, key(MARINADE_MINT));
}

#[test]
fn build_snapshot_of_no_pools_is_empty() {
    let mut c = lido_ctx();
    c.mint_asol.aggregate.stake_pools = vec![];
    let snap = c.build_snapshot().unwrap();
    assert_eq!(snap.balance_sol, SOL::from(0));
    assert!(snap.stake_pools.is_empty());
}

#[test]
fn build_snapshot_rejects_mismatched_pool() {
    let mut c = lido_ctx();
    c.mint_asol.aggregate.stake_pools[1].mint = key(99);
    assert_eq!(c.build_snapshot(), Err(ErrorCode::KeyMismatch));
}

#[test]
fn build_snapshot_rejects_zero_lido_supply() {
    let mut c = lido_ctx();
    c.sync.lido.st_sol_supply = 0;
    assert_eq!(c.build_snapshot(), Err(ErrorCode::IntegerOverflow));
}

#[test]
fn build_snapshot_rejects_total_overflow() {
    let mut c = lido_ctx();
    c.sync.lido.lido_stake_pool_tokens.amount = u64::MAX;
    c.sync.marinade.marinade_stake_pool_tokens.amount = u64::MAX;
    assert_eq!(c.build_snapshot(), Err(ErrorCode::IntegerOverflow));
}

#[test]
fn print_aggregate_info_changes_nothing() {
    let c = lido_ctx();
    let snap = print_aggregate_info(&c).unwrap();
    assert_eq!(snap.balance_sol, SOL::from(3_200_000_000));
    assert_eq!(c.mint_asol.aggregate, aggregate());
}

#[test]
fn mint_lido_mints_proportionally() {
    let mut c = lido_ctx();
    let r = mint_lido(&mut c, &known(), 1_000_000, 1_700_000_000);
    // value 1_100_000, minted floor(1_100_000 * 3e9 / 3.2e9)
    assert_eq!(r, Ok(ASOL::from(1_031_250)));
    let pool = &c.mint_asol.stake_pool;
    assert_eq!(pool.stats.total_amount_deposited, 1_000_000);
    assert_eq!(pool.stats.total_amount_minted, ASOL::from(1_031_250));
    assert_eq!(pool.latest_snapshot.aggregate_balance_sol, SOL::from(3_200_000_000));
    assert_eq!(pool.latest_snapshot.aggregate_supply, ASOL::from(3_000_000_000));
    assert_eq!(pool.latest_snapshot.snapshot, pool_snap(LIDO_MINT, 2_000_000_000, 1_100_000_000));
    assert_eq!(pool.latest_snapshot.snapshot_ts, 1_700_000_000);
    assert_eq!(c.mint_asol.aggregate.latest_snapshot.balance_sol, SOL::from(3_200_000_000));
    assert_eq!(c.mint_asol.aggregate.latest_snapshot.stake_pools.len(), 2);
    assert_eq!(c.mint_asol.aggregate.latest_snapshot_ts, 1_700_000_000);
}

#[test]
fn mint_marinade_mints_proportionally() {
    let mut c = marinade_ctx();
    let r = mint_marinade(&mut c, &known(), 3_200_000, 5);
    assert_eq!(r, Ok(ASOL::from(3_000_000)));
    assert_eq!(c.mint_asol.stake_pool.stats.total_amount_deposited, 3_200_000);
}

#[test]
fn mint_rejects_invalid_accounts() {
    let mut c = lido_ctx();
    c.mint_asol.depositor_source.owner = key(77);
    let before = c.clone();
    assert_eq!(mint_lido(&mut c, &known(), 1_000, 5), Err(ErrorCode::KeyMismatch));
    assert_eq!(c.mint_asol.stake_pool, before.mint_asol.stake_pool);
    let mut c = lido_ctx();
    c.sync.marinade.marinade = key(78);
    assert_eq!(mint_lido(&mut c, &known(), 1_000, 5), Err(ErrorCode::KeyMismatch));
}

#[test]
fn zero_deposit_is_a_no_op() {
    let mut c = lido_ctx();
    let r = c.sync_and_mint_lido(0, 5);
    assert_eq!(r, Ok(ASOL::from(0)));
    assert_eq!(c.mint_asol.stake_pool, lido_ctx().mint_asol.stake_pool);
    assert_eq!(c.mint_asol.aggregate, aggregate());
}

#[test]
fn dust_deposit_mints_nothing() {
    let mut c = lido_ctx();
    // value 1, minted floor(3e9 / 3.2e9) = 0
    let r = c.sync_and_mint_lido(1, 5);
    assert_eq!(r, Ok(ASOL::from(0)));
    assert_eq!(c.mint_asol.stake_pool.stats, StakePoolStats::default());
    assert_eq!(c.mint_asol.aggregate.latest_snapshot_ts, 0);
}

#[test]
fn mint_for_unknown_pool_fails() {
    let mut m = lido_ctx().mint_asol;
    let snapshot = Snapshot {
        balance_sol: SOL::from(0),
        supply: ASOL::from(0),
        stake_pools: vec![pool_snap(MARINADE_MINT, 1, 1)],
    };
    let minter = Accountant::Lido(sync().lido);
    assert_eq!(m.mint_asol(&snapshot, &minter, 0, 5), Err(ErrorCode::PoolNotFoundInSnapshot));
    assert_eq!(m.mint_asol(&snapshot, &minter, 10, 5), Err(ErrorCode::PoolNotFoundInSnapshot));
}

#[test]
fn mint_pegs_below_floor() {
    let mut m = lido_ctx().mint_asol;
    let snapshot = Snapshot {
        balance_sol: SOL::from(1_000_000_000),
        supply: ASOL::from(1),
        stake_pools: vec![pool_snap(LIDO_MINT, 1, 1)],
    };
    let minter = Accountant::Lido(sync().lido);
    assert_eq!(m.mint_asol(&snapshot, &minter, 1_000, 9), Ok(ASOL::from(1_100)));
    assert_eq!(m.stake_pool.latest_snapshot.snapshot, pool_snap(LIDO_MINT, 1, 1));
}

#[test]
fn mint_uses_first_matching_pool() {
    let mut m = lido_ctx().mint_asol;
    let snapshot = Snapshot {
        balance_sol: SOL::from(10),
        supply: ASOL::from(10),
        stake_pools: vec![
            pool_snap(MARINADE_MINT, 1, 1),
            pool_snap(LIDO_MINT, 2, 2),
            pool_snap(LIDO_MINT, 3, 3),
        ],
    };
    let minter = Accountant::Lido(sync().lido);
    assert_eq!(m.mint_asol(&snapshot, &minter, 100, 9), Ok(ASOL::from(110)));
    assert_eq!(m.stake_pool.latest_snapshot.snapshot, pool_snap(LIDO_MINT, 2, 2));
}

#[test]
fn mint_rejects_stats_overflow() {
    let mut m = lido_ctx().mint_asol;
    m.stake_pool.stats.total_amount_deposited = u64::MAX;
    let before = m.stake_pool;
    let snapshot = Snapshot {
        balance_sol: SOL::from(0),
        supply: ASOL::from(0),
        stake_pools: vec![pool_snap(LIDO_MINT, 1, 1)],
    };
    let minter = Accountant::Lido(sync().lido);
    assert_eq!(m.mint_asol(&snapshot, &minter, 1, 9), Err(ErrorCode::IntegerOverflow));
    assert_eq!(m.stake_pool, before);
}

#[test]
fn mint_rejects_share_overflow() {
    let mut m = lido_ctx().mint_asol;
    let snapshot = Snapshot {
        balance_sol: SOL::from(1_000_000_001),
        supply: ASOL::from(u64::MAX),
        stake_pools: vec![pool_snap(LIDO_MINT, 1, 1)],
    };
    let minter = Accountant::Lido(sync().lido);
    assert_eq!(m.mint_asol(&snapshot, &minter, 1_000_000_000, 9), Err(ErrorCode::IntegerOverflow));
}

#[test]
fn larger_deposits_never_mint_less() {
    let snapshot = Snapshot {
        balance_sol: SOL::from(3_300_000_000),
        supply: ASOL::from(3_000_000_000),
        stake_pools: vec![pool_snap(LIDO_MINT, 1, 1)],
    };
    let minter = Accountant::Lido(sync().lido);
    let mut last = 0;
    for d in [0u64, 1, 2, 10, 11, 999, 1_000, 1_000_000, 1_000_001] {
        let mut m = lido_ctx().mint_asol;
        let minted = m.mint_asol(&snapshot, &minter, d, 9).unwrap().amount;
        assert!(minted >= last);
        last = minted;
    }
}

#[test]
fn minted_shares_round_down() {
    let snapshot = Snapshot {
        balance_sol: SOL::from(3_000_000_007),
        supply: ASOL::from(1_000_000_000),
        stake_pools: vec![pool_snap(MARINADE_MINT, 1, 1)],
    };
    let minter = Accountant::Marinade(sync().marinade);
    let mut m = marinade_ctx().mint_asol;
    let minted = m.mint_asol(&snapshot, &minter, 1_000, 9).unwrap().amount as u128;
    assert_eq!(minted, 333);
    assert!(minted * 3_000_000_007 <= 1_000 * 1_000_000_000);
    assert!(1_000 * 1_000_000_000 < (minted + 1) * 3_000_000_007);
}

#[test]
fn new_aggregate_sets_curators() {
    let mut c = NewAggregate {
        crate_mint: Mint { key: key(CRATE_MINT), supply: 0, decimals: 9 },
        crate_token: key(CRATE_TOKEN),
        redeem_in_kind: key(3),
        admin: key(60),
        ..Default::default()
    };
    assert_eq!(new_aggregate(&mut c, &known(), 253), Ok(()));
    assert_eq!(c.aggregate.crate_token, key(CRATE_TOKEN));
    assert_eq!(c.aggregate.bump, 253);
    assert_eq!(c.aggregate.curator, key(60));
    assert_eq!(c.aggregate.curator_setter, key(60));
    assert!(c.aggregate.stake_pools.is_empty());
}

#[test]
fn new_aggregate_checks_accounts() {
    let good = NewAggregate {
        crate_mint: Mint { key: key(CRATE_MINT), supply: 0, decimals: 9 },
        redeem_in_kind: key(3),
        ..Default::default()
    };
    let mut c = good.clone();
    c.redeem_in_kind = key(4);
    assert_eq!(new_aggregate(&mut c, &known(), 1), Err(ErrorCode::KeyMismatch));
    let mut c = good.clone();
    c.crate_mint.supply = 1;
    assert_eq!(new_aggregate(&mut c, &known(), 1), Err(ErrorCode::InvariantFailed));
    let mut c = good.clone();
    c.crate_mint.decimals = 6;
    assert_eq!(new_aggregate(&mut c, &known(), 1), Err(ErrorCode::InvariantFailed));
    assert_eq!(c.aggregate.bump, 0);
}

fn add_ctx(mint: u8, curator: u8) -> AddStakePool {
    AddStakePool {
        aggregate_key: key(AGGREGATE),
        aggregate: Aggregate { curator: key(60), ..Default::default() },
        stake_pool: StakePool::default(),
        mint: Mint { key: key(mint), supply: 10, decimals: 9 },
        curator: key(curator),
    }
}

#[test]
fn add_stake_pool_registers_pool() {
    let mut c = add_ctx(LIDO_MINT, 60);
    assert_eq!(add_stake_pool(&mut c, 200, AccountingMethod::Lido), Ok(()));
    assert_eq!(
        c.aggregate.stake_pools,
        vec![StakePoolMeta { mint: key(LIDO_MINT), accounting_method: AccountingMethod::Lido }]
    );
    assert_eq!(c.stake_pool.aggregate, key(AGGREGATE));
    assert_eq!(c.stake_pool.mint, key(LIDO_MINT));
    assert_eq!(c.stake_pool.bump, 200);
    assert_eq!(c.stake_pool.accounting_method, AccountingMethod::Lido);
    assert_eq!(c.stake_pool.stats, StakePoolStats::default());
}

#[test]
fn add_stake_pool_requires_curator() {
    let mut c = add_ctx(LIDO_MINT, 61);
    assert_eq!(
        add_stake_pool(&mut c, 200, AccountingMethod::Lido),
        Err(ErrorCode::UnauthorizedNotCurator)
    );
    assert!(c.aggregate.stake_pools.is_empty());
}

#[test]
fn add_stake_pool_rejects_duplicate() {
    let mut c = add_ctx(LIDO_MINT, 60);
    add_stake_pool(&mut c, 200, AccountingMethod::Lido).unwrap();
    c.stake_pool = StakePool::default();
    assert_eq!(
        add_stake_pool(&mut c, 201, AccountingMethod::Marinade),
        Err(ErrorCode::PoolAlreadyAdded)
    );
    assert_eq!(c.aggregate.stake_pools.len(), 1);
    assert_eq!(c.stake_pool, StakePool::default());
}

#[test]
fn set_curator_requires_curator_setter() {
    let mut c = SetCurator {
        aggregate: Aggregate { curator: key(60), curator_setter: key(61), ..Default::default() },
        curator_setter: key(60),
        next_curator: key(62),
    };
    assert_eq!(set_curator(&mut c), Err(ErrorCode::UnauthorizedNotCuratorSetter));
    assert_eq!(c.aggregate.curator, key(60));
    c.curator_setter = key(61);
    assert_eq!(set_curator(&mut c), Ok(()));
    assert_eq!(c.aggregate.curator, key(62));
    assert_eq!(c.aggregate.curator_setter, key(61));
}

#[test]
fn default_accounting_method_is_marinade() {
    assert_eq!(AccountingMethod::default(), AccountingMethod::Marinade);
}

#[test]
fn conversions_to_u128() {
    assert_eq!(SOL::from(5).to_u128(), 5u128);
    assert_eq!(ASOL::from(6).to_u128(), 6u128);
    assert_eq!(u128::from(SOL::from(7)), 7u128);
    assert_eq!(u128::from(ASOL::from(8)), 8u128);
}
