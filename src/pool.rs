use vstd::prelude::*;

use crate::accounting::{Accountant, SyncAll};
use crate::snapshot::{
    asol_amount, lemma_total_value_prefix, pool_snapshots_of, total_value, Snapshot,
    StakePoolSnapshot,
};
use crate::state::{ErrorCode, Pubkey, StakePoolMeta, StakePoolStateSnapshot};
use crate::types::{lemma_mul_div_floor, lemma_mul_div_monotonic, mul_div, ASOL, SOL};
use crate::{MintASol, SyncAndMint, MIN_LIQUIDITY_FOR_EXACT_CALCULATION};

verus! {

/// The snapshot built from the registered pools, their accountants and the
/// aSOL supply: the first pool that fails gives the error; a total value
/// that does not fit in a u64 is an overflow.
pub open spec fn snapshot_matches(
    r: Result<Snapshot, ErrorCode>,
    pools: Seq<StakePoolMeta>,
    sync: SyncAll,
    supply: u64,
) -> bool {
    match pool_snapshots_of(pools, sync) {
        Err(e) => r == Err::<Snapshot, ErrorCode>(e),
        Ok(snaps) => if total_value(snaps) > u64::MAX {
            r == Err::<Snapshot, ErrorCode>(ErrorCode::IntegerOverflow)
        } else {
            &&& r is Ok
            &&& r->Ok_0.stake_pools@ == snaps
            &&& r->Ok_0.balance_sol.amount == total_value(snaps)
            &&& r->Ok_0.supply.amount == supply
        },
    }
}

/// Builds the snapshots of the registered pools, in order.
fn snapshot_pools(pools: &Vec<StakePoolMeta>, sync: &SyncAll) -> (r: Result<
    Vec<StakePoolSnapshot>,
    ErrorCode,
>)
    ensures
        match pool_snapshots_of(pools@, *sync) {
            Err(e) => r == Err::<Vec<StakePoolSnapshot>, ErrorCode>(e),
            Ok(snaps) => r is Ok && r->Ok_0@ == snaps,
        },
{
    let mut snaps: Vec<StakePoolSnapshot> = Vec::new();
    let mut i: usize = 0;
    while i < pools.len()
        invariant
            i <= pools.len(),
            pool_snapshots_of(pools@.take(i as int), *sync) == Ok::<
                Seq<StakePoolSnapshot>,
                ErrorCode,
            >(snaps@),
        decreases pools.len() - i,
    {
        let pool = pools[i];
        let accountant = sync.accountant(pool.accounting_method);
        let res = StakePoolSnapshot::try_from_accountant(&pool, &accountant);
        assert(pools@.take(i + 1).drop_last() =~= pools@.take(i as int));
        match res {
            Err(e) => {
                assert(pool_snapshots_of(pools@.take(i + 1), *sync) == Err::<
                    Seq<StakePoolSnapshot>,
                    ErrorCode,
                >(e));
                proof {
                    lemma_first_error_stays(pools@, *sync, i + 1);
                }
                return Err(e);
            },
            Ok(snap) => {
                snaps.push(snap);
            },
        }
        i = i + 1;
    }
    assert(pools@.take(pools.len() as int) =~= pools@);
    Ok(snaps)
}

/// Once a prefix of the pools fails, the whole list fails with the same error.
proof fn lemma_first_error_stays(pools: Seq<StakePoolMeta>, sync: SyncAll, k: int)
    requires
        0 <= k <= pools.len(),
        pool_snapshots_of(pools.take(k), sync) is Err,
    ensures
        pool_snapshots_of(pools, sync) == pool_snapshots_of(pools.take(k), sync),
    decreases pools.len(),
{
    if k == pools.len() {
        assert(pools.take(k) =~= pools);
    } else {
        assert(pools.drop_last().take(k) =~= pools.take(k));
        lemma_first_error_stays(pools.drop_last(), sync, k);
    }
}

/// Sums the SOL values of the pools, checked.
fn total_pool_value(snaps: &Vec<StakePoolSnapshot>) -> (r: Option<u64>)
    ensures
        r is Some <==> total_value(snaps@) <= u64::MAX,
        r is Some ==> r->0 == total_value(snaps@),
{
    let mut total: u64 = 0;
    let mut j: usize = 0;
    while j < snaps.len()
        invariant
            j <= snaps.len(),
            total == total_value(snaps@.take(j as int)),
        decreases snaps.len() - j,
    {
        assert(snaps@.take(j + 1).drop_last() =~= snaps@.take(j as int));
        proof {
            lemma_total_value_prefix(snaps@, j + 1);
            lemma_total_value_prefix(snaps@.take(j + 1), j as int);
            assert(snaps@.take(j + 1).take(j as int) =~= snaps@.take(j as int));
        }
        match snaps[j].pool_balance_sol() {
            None => {
                return None;
            },
            Some(v) => {
                match total.checked_add(v) {
                    None => {
                        return None;
                    },
                    Some(t) => {
                        total = t;
                    },
                }
            },
        }
        j = j + 1;
    }
    assert(snaps@.take(snaps.len() as int) =~= snaps@);
    Some(total)
}

/// `i` is the first pool of the snapshot whose mint is `mint`.
pub open spec fn is_first_pool(pools: Seq<StakePoolSnapshot>, mint: Pubkey, i: int) -> bool {
    &&& 0 <= i < pools.len()
    &&& pools[i].pool_mint@ == mint@
    &&& forall|j: int| 0 <= j < i ==> pools[j].pool_mint@ != mint@
}

/// Some pool of the snapshot has the mint `mint`.
pub open spec fn has_pool(pools: Seq<StakePoolSnapshot>, mint: Pubkey) -> bool {
    exists|i: int| 0 <= i < pools.len() && pools[i].pool_mint@ == mint@
}

/// The aSOL owed for a deposit of `deposit_amount` tokens of the minter's
/// pool against `snapshot`, before the stake pool's statistics are updated.
pub open spec fn mint_amount_for(snapshot: Snapshot, minter: Accountant, deposit_amount: u64) -> Result<
    u64,
    ErrorCode,
> {
    if !has_pool(snapshot.stake_pools@, minter.spec_reserves().mint) {
        Err(ErrorCode::PoolNotFoundInSnapshot)
    } else if deposit_amount == 0 {
        Ok(0)
    } else {
        match minter.spec_sol_value(deposit_amount) {
            Err(e) => Err(e),
            Ok(value) => match asol_amount(snapshot.balance_sol, snapshot.supply, value) {
                None => Err(ErrorCode::IntegerOverflow),
                Some(a) => Ok(a.amount),
            },
        }
    }
}

/// The accounts after `mint_amount` aSOL were minted for `deposit_amount`
/// tokens at `now`: the statistics grow by both amounts and the latest
/// snapshots are those of this mint; nothing else changes.
pub open spec fn minted(
    before: MintASol,
    after: MintASol,
    snapshot: Snapshot,
    minter: Accountant,
    deposit_amount: u64,
    mint_amount: u64,
    now: i64,
) -> bool {
    let stats = after.stake_pool.stats;
    let latest = after.stake_pool.latest_snapshot;
    &&& stats.total_amount_deposited == before.stake_pool.stats.total_amount_deposited
        + deposit_amount
    &&& stats.total_amount_minted.amount == before.stake_pool.stats.total_amount_minted.amount
        + mint_amount
    &&& latest.aggregate_balance_sol == snapshot.balance_sol
    &&& latest.aggregate_supply == snapshot.supply
    &&& latest.snapshot_ts == now
    &&& exists|i: int|
        is_first_pool(snapshot.stake_pools@, minter.spec_reserves().mint, i)
            && latest.snapshot == snapshot.stake_pools@[i]
    &&& after.stake_pool.aggregate == before.stake_pool.aggregate
    &&& after.stake_pool.mint == before.stake_pool.mint
    &&& after.stake_pool.bump == before.stake_pool.bump
    &&& after.stake_pool.accounting_method == before.stake_pool.accounting_method
    &&& after.aggregate.latest_snapshot.balance_sol == snapshot.balance_sol
    &&& after.aggregate.latest_snapshot.supply == snapshot.supply
    &&& after.aggregate.latest_snapshot.stake_pools@ == snapshot.stake_pools@
    &&& after.aggregate.latest_snapshot_ts == now
    &&& after.aggregate.crate_token == before.aggregate.crate_token
    &&& after.aggregate.bump == before.aggregate.bump
    &&& after.aggregate.curator == before.aggregate.curator
    &&& after.aggregate.curator_setter == before.aggregate.curator_setter
    &&& after.aggregate.stake_pools == before.aggregate.stake_pools
    &&& after.aggregate_key == before.aggregate_key
    &&& after.stake_pool_tokens == before.stake_pool_tokens
    &&& after.crate_token == before.crate_token
    &&& after.crate_mint == before.crate_mint
    &&& after.depositor == before.depositor
    &&& after.depositor_source == before.depositor_source
    &&& after.mint_destination == before.mint_destination
}

/// The result and new accounts of a mint: an error or a no-op leaves the
/// accounts as they were; a mint whose statistics would overflow is an error.
pub open spec fn mint_matches(
    r: Result<ASOL, ErrorCode>,
    before: MintASol,
    after: MintASol,
    snapshot: Snapshot,
    minter: Accountant,
    deposit_amount: u64,
    now: i64,
) -> bool {
    match mint_amount_for(snapshot, minter, deposit_amount) {
        Err(e) => r == Err::<ASOL, ErrorCode>(e) && after == before,
        Ok(m) => if m == 0 {
            r == Ok::<ASOL, ErrorCode>(ASOL { amount: 0 }) && after == before
        } else if before.stake_pool.stats.total_amount_deposited + deposit_amount > u64::MAX
            || before.stake_pool.stats.total_amount_minted.amount + m > u64::MAX {
            r == Err::<ASOL, ErrorCode>(ErrorCode::IntegerOverflow) && after == before
        } else {
            r == Ok::<ASOL, ErrorCode>(ASOL { amount: m }) && minted(
                before,
                after,
                snapshot,
                minter,
                deposit_amount,
                m,
                now,
            )
        },
    }
}

/// The SOL value of a deposit grows with the deposit.
proof fn lemma_sol_value_monotonic(minter: Accountant, d1: u64, d2: u64)
    requires
        d1 <= d2,
        minter.spec_sol_value(d1) is Ok,
        minter.spec_sol_value(d2) is Ok,
    ensures
        minter.spec_sol_value(d1)->Ok_0.amount <= minter.spec_sol_value(d2)->Ok_0.amount,
{
    match minter {
        Accountant::Marinade(m) => {
            lemma_mul_div_monotonic(
                d1 as int,
                d2 as int,
                m.msol_price as int,
                crate::accounting::MSOL_PRICE_DENOMINATOR as int,
            );
        },
        Accountant::Lido(l) => {
            lemma_mul_div_monotonic(
                d1 as int,
                d2 as int,
                l.sol_balance as int,
                l.st_sol_supply as int,
            );
        },
    }
}

/// For a fixed snapshot and pool, a larger deposit never mints less aSOL.
pub proof fn lemma_mint_amount_monotonic(
    snapshot: Snapshot,
    minter: Accountant,
    d1: u64,
    d2: u64,
)
    requires
        d1 <= d2,
        mint_amount_for(snapshot, minter, d1) is Ok,
        mint_amount_for(snapshot, minter, d2) is Ok,
    ensures
        mint_amount_for(snapshot, minter, d1)->Ok_0 <= mint_amount_for(snapshot, minter, d2)->Ok_0,
{
    if d1 > 0 {
        lemma_sol_value_monotonic(minter, d1, d2);
        let v1 = minter.spec_sol_value(d1)->Ok_0.amount;
        let v2 = minter.spec_sol_value(d2)->Ok_0.amount;
        if snapshot.balance_sol.amount > MIN_LIQUIDITY_FOR_EXACT_CALCULATION {
            lemma_mul_div_monotonic(
                v1 as int,
                v2 as int,
                snapshot.supply.amount as int,
                snapshot.balance_sol.amount as int,
            );
        }
    }
}

/// At or below the liquidity floor, a deposit mints exactly its SOL value in
/// aSOL, whatever the aSOL supply.
pub proof fn lemma_mint_pegged_below_floor(snapshot: Snapshot, minter: Accountant, deposit_amount: u64)
    requires
        snapshot.balance_sol.amount <= MIN_LIQUIDITY_FOR_EXACT_CALCULATION,
        has_pool(snapshot.stake_pools@, minter.spec_reserves().mint),
        minter.spec_sol_value(deposit_amount) is Ok,
    ensures
        mint_amount_for(snapshot, minter, deposit_amount) == Ok::<u64, ErrorCode>(
            minter.spec_sol_value(deposit_amount)->Ok_0.amount,
        ),
{
    if deposit_amount == 0 {
        match minter {
            Accountant::Marinade(m) => {
                assert(0 * (m.msol_price as int) == 0);
            },
            Accountant::Lido(l) => {
                assert(0 * (l.sol_balance as int) == 0);
            },
        }
    }
}

/// A deposit of zero into a pool of the snapshot succeeds, mints nothing and
/// changes no account.
pub proof fn lemma_zero_deposit_no_op(
    r: Result<ASOL, ErrorCode>,
    before: MintASol,
    after: MintASol,
    snapshot: Snapshot,
    minter: Accountant,
    now: i64,
)
    requires
        has_pool(snapshot.stake_pools@, minter.spec_reserves().mint),
        mint_matches(r, before, after, snapshot, minter, 0, now),
    ensures
        r == Ok::<ASOL, ErrorCode>(ASOL { amount: 0 }),
        after == before,
{
}

/// Above the liquidity floor the aSOL minted is rounded down: it never
/// exceeds the deposit's proportional share `value * supply / balance`, and
/// falls short of it by less than one unit.
pub proof fn lemma_mint_rounds_down(snapshot: Snapshot, minter: Accountant, deposit_amount: u64)
    requires
        snapshot.balance_sol.amount > MIN_LIQUIDITY_FOR_EXACT_CALCULATION,
        mint_amount_for(snapshot, minter, deposit_amount) is Ok,
        minter.spec_sol_value(deposit_amount) is Ok,
    ensures
        ({
            let minted = mint_amount_for(snapshot, minter, deposit_amount)->Ok_0 as int;
            let value = minter.spec_sol_value(deposit_amount)->Ok_0.amount as int;
            let balance = snapshot.balance_sol.amount as int;
            let supply = snapshot.supply.amount as int;
            &&& minted * balance <= value * supply
            &&& value * supply < (minted + 1) * balance
        }),
{
    let value = minter.spec_sol_value(deposit_amount)->Ok_0.amount as int;
    let balance = snapshot.balance_sol.amount as int;
    let supply = snapshot.supply.amount as int;
    lemma_mul_div_floor(value, supply, balance);
    if deposit_amount == 0 {
        match minter {
            Accountant::Marinade(m) => {
                assert(0 * (m.msol_price as int) == 0);
            },
            Accountant::Lido(l) => {
                assert(0 * (l.sol_balance as int) == 0);
            },
        }
        assert(value == 0);
        assert(0 * supply == 0);
        assert(mul_div(value, supply, balance) == 0);
    }
}

/// Finds the first pool of the snapshot with the given mint.
fn find_pool(pools: &Vec<StakePoolSnapshot>, mint: &Pubkey) -> (r: Option<usize>)
    ensures
        r is None <==> !has_pool(pools@, *mint),
        r is Some ==> is_first_pool(pools@, *mint, r->0 as int),
{
    let mut i: usize = 0;
    while i < pools.len()
        invariant
            i <= pools.len(),
            forall|j: int| 0 <= j < i ==> pools@[j].pool_mint@ != mint@,
        decreases pools.len() - i,
    {
        if pools[i].pool_mint == *mint {
            return Some(i);
        }
        i = i + 1;
    }
    None
}

/// Copies a snapshot.
fn copy_snapshot(snapshot: &Snapshot) -> (r: Snapshot)
    ensures
        r.balance_sol == snapshot.balance_sol,
        r.supply == snapshot.supply,
        r.stake_pools@ == snapshot.stake_pools@,
{
    let mut stake_pools: Vec<StakePoolSnapshot> = Vec::new();
    let mut i: usize = 0;
    while i < snapshot.stake_pools.len()
        invariant
            i <= snapshot.stake_pools.len(),
            stake_pools@ == snapshot.stake_pools@.take(i as int),
        decreases snapshot.stake_pools.len() - i,
    {
        stake_pools.push(snapshot.stake_pools[i]);
        i = i + 1;
        assert(stake_pools@ =~= snapshot.stake_pools@.take(i as int));
    }
    assert(snapshot.stake_pools@.take(i as int) =~= snapshot.stake_pools@);
    Snapshot { balance_sol: snapshot.balance_sol, supply: snapshot.supply, stake_pools }
}

impl MintASol {
    /// Mints aSOL for a deposit into the minter's pool, priced against
    /// `snapshot`, and records the mint at time `now`. Returns the amount of
    /// aSOL to issue; the deposit is to be transferred and the aSOL issued
    /// only when it is not zero.
    pub fn mint_asol(
        &mut self,
        snapshot: &Snapshot,
        minter: &Accountant,
        deposit_amount: u64,
        now: i64,
    ) -> (r: Result<ASOL, ErrorCode>)
        ensures
            mint_matches(r, *old(self), *final(self), *snapshot, *minter, deposit_amount, now),
    {
        let pool_index = match find_pool(&snapshot.stake_pools, &minter.crate_reserves().mint) {
            Some(i) => i,
            None => {
                return Err(ErrorCode::PoolNotFoundInSnapshot);
            },
        };
        // ignore zero deposit
        if deposit_amount == 0 {
            return Ok(ASOL::from(0));
        }
        // compute the amount of tokens to mint
        let deposit_sol_value = minter.sol_value(deposit_amount)?;
        let mint_amount = snapshot.compute_asol_amount_from_sol(deposit_sol_value)?;
        // ignore zero mint
        if mint_amount.amount == 0 {
            return Ok(mint_amount);
        }
        let total_amount_deposited = match self.stake_pool.stats.total_amount_deposited.checked_add(
            deposit_amount,
        ) {
            Some(v) => v,
            None => {
                return Err(ErrorCode::IntegerOverflow);
            },
        };
        let total_amount_minted = match self.stake_pool.stats.total_amount_minted.amount.checked_add(
            mint_amount.amount,
        ) {
            Some(v) => v,
            None => {
                return Err(ErrorCode::IntegerOverflow);
            },
        };
        // update stats
        self.stake_pool.stats.total_amount_deposited = total_amount_deposited;
        self.stake_pool.stats.total_amount_minted = ASOL::from(total_amount_minted);
        // record snapshot
        self.stake_pool.latest_snapshot = StakePoolStateSnapshot {
            aggregate_balance_sol: snapshot.balance_sol,
            aggregate_supply: snapshot.supply,
            snapshot: snapshot.stake_pools[pool_index],
            snapshot_ts: now,
        };
        // record aggregate snapshot
        self.aggregate.latest_snapshot = copy_snapshot(snapshot);
        self.aggregate.latest_snapshot_ts = now;
        Ok(mint_amount)
    }
}

/// The result and new accounts of syncing every pool and then minting for a
/// deposit into the minter's pool: a failure to build the snapshot changes
/// nothing; else the mint goes as [mint_matches] says, against the snapshot
/// just built, and the synced pools stay as they were.
pub open spec fn sync_and_mint_matches(
    r: Result<ASOL, ErrorCode>,
    before: SyncAndMint,
    after: SyncAndMint,
    minter: Accountant,
    deposit_amount: u64,
    now: i64,
) -> bool {
    match pool_snapshots_of(before.mint_asol.aggregate.stake_pools@, before.sync) {
        Err(e) => r == Err::<ASOL, ErrorCode>(e) && after == before,
        Ok(snaps) => if total_value(snaps) > u64::MAX {
            r == Err::<ASOL, ErrorCode>(ErrorCode::IntegerOverflow) && after == before
        } else {
            &&& after.sync == before.sync
            &&& exists|snapshot: Snapshot|
                {
                    &&& snapshot.stake_pools@ == snaps
                    &&& snapshot.balance_sol.amount == total_value(snaps)
                    &&& snapshot.supply.amount == before.mint_asol.crate_mint.supply
                    &&& mint_matches(
                        r,
                        before.mint_asol,
                        after.mint_asol,
                        snapshot,
                        minter,
                        deposit_amount,
                        now,
                    )
                }
        },
    }
}

impl SyncAndMint {
    /// Builds a fresh snapshot, then mints against it.
    fn sync_and_mint(&mut self, minter: Accountant, deposit_amount: u64, now: i64) -> (r: Result<
        ASOL,
        ErrorCode,
    >)
        ensures
            sync_and_mint_matches(r, *old(self), *final(self), minter, deposit_amount, now),
    {
        let snapshot = self.build_snapshot()?;
        let r = self.mint_asol.mint_asol(&snapshot, &minter, deposit_amount, now);
        assert(self.mint_asol.aggregate.stake_pools@ == old(self).mint_asol.aggregate.stake_pools@);
        r
    }

    /// Mints aSOL from Lido stSOL.
    pub fn sync_and_mint_lido(&mut self, deposit_amount: u64, now: i64) -> (r: Result<
        ASOL,
        ErrorCode,
    >)
        ensures
            sync_and_mint_matches(
                r,
                *old(self),
                *final(self),
                Accountant::Lido(old(self).sync.lido),
                deposit_amount,
                now,
            ),
    {
        let minter = Accountant::Lido(self.sync.lido);
        self.sync_and_mint(minter, deposit_amount, now)
    }

    /// Mints aSOL from Marinade mSOL.
    pub fn sync_and_mint_marinade(&mut self, deposit_amount: u64, now: i64) -> (r: Result<
        ASOL,
        ErrorCode,
    >)
        ensures
            sync_and_mint_matches(
                r,
                *old(self),
                *final(self),
                Accountant::Marinade(old(self).sync.marinade),
                deposit_amount,
                now,
            ),
    {
        let minter = Accountant::Marinade(self.sync.marinade);
        self.sync_and_mint(minter, deposit_amount, now)
    }

    /// Builds a snapshot of all balances and conversions.
    pub fn build_snapshot(&self) -> (r: Result<Snapshot, ErrorCode>)
        ensures
            snapshot_matches(
                r,
                self.mint_asol.aggregate.stake_pools@,
                self.sync,
                self.mint_asol.crate_mint.supply,
            ),
    {
        let pool_snapshots = snapshot_pools(&self.mint_asol.aggregate.stake_pools, &self.sync)?;
        let balance_sol_u64 = match total_pool_value(&pool_snapshots) {
            Some(v) => v,
            None => {
                return Err(ErrorCode::IntegerOverflow);
            },
        };
        Ok(
            Snapshot {
                balance_sol: SOL::from(balance_sol_u64),
                supply: ASOL::from(self.mint_asol.crate_mint.supply),
                stake_pools: pool_snapshots,
            },
        )
    }
}

} // verus!
