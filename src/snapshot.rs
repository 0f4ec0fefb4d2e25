use vstd::prelude::*;

use crate::accounting::{Accountant, SyncAll};
use crate::state::{ErrorCode, Pubkey, StakePoolMeta};
use crate::types::{checked_mul_div, checked_mul_div_u64, mul_div, ASOL, SOL};
use crate::{LAMPORTS_PER_SOL, MIN_LIQUIDITY_FOR_EXACT_CALCULATION};

verus! {

/// A balance snapshot of a stake pool.
#[derive(Clone, Copy, Debug, Default, PartialEq, Eq)]
pub struct StakePoolSnapshot {
    /// Mint of the pool.
    pub pool_mint: Pubkey,
    /// Amount of stake pool tokens in the pool.
    pub pool_balance: u64,
    /// Amount of SOL received for 1e9 tokens. (Price)
    pub sol_for_1e9: SOL,
}

/// A balance snapshot.
#[derive(Clone, Debug, Default, PartialEq, Eq)]
pub struct Snapshot {
    /// SOL value of the pool's balance at the time of the snapshot.
    pub balance_sol: SOL,
    /// Total supply.
    pub supply: ASOL,
    /// Stake pools.
    pub stake_pools: Vec<StakePoolSnapshot>,
}

/// The SOL value of a pool's balance at its price: `floor(price * balance / 1e9)`.
pub open spec fn pool_value(p: StakePoolSnapshot) -> int {
    mul_div(p.sol_for_1e9.amount as int, p.pool_balance as int, LAMPORTS_PER_SOL as int)
}

/// The sum of the SOL values of the pools.
pub open spec fn total_value(pools: Seq<StakePoolSnapshot>) -> int
    decreases pools.len(),
{
    if pools.len() == 0 {
        0
    } else {
        total_value(pools.drop_last()) + pool_value(pools.last())
    }
}

/// The aSOL minted for `sol` against an aggregate of value `balance_sol` and
/// supply `supply`: one for one at or below the liquidity floor, else
/// `floor(sol * supply / balance_sol)`; `None` when that does not fit.
pub open spec fn asol_amount(balance_sol: SOL, supply: ASOL, sol: SOL) -> Option<ASOL> {
    if balance_sol.amount <= MIN_LIQUIDITY_FOR_EXACT_CALCULATION {
        Some(ASOL { amount: sol.amount })
    } else {
        match checked_mul_div_u64(sol.amount as int, supply.amount as int, balance_sol.amount as int) {
            Some(v) => Some(ASOL { amount: v }),
            None => None,
        }
    }
}

/// The snapshot of a registered pool taken from its accountant.
pub open spec fn pool_snapshot_of(pool: StakePoolMeta, accountant: Accountant) -> Result<
    StakePoolSnapshot,
    ErrorCode,
> {
    let reserves = accountant.spec_reserves();
    if pool.mint@ != reserves.mint@ {
        Err(ErrorCode::KeyMismatch)
    } else {
        match accountant.spec_sol_value(LAMPORTS_PER_SOL) {
            Err(e) => Err(e),
            Ok(price) => Ok(
                StakePoolSnapshot {
                    pool_mint: reserves.mint,
                    pool_balance: reserves.amount,
                    sol_for_1e9: price,
                },
            ),
        }
    }
}

/// The snapshots of the registered pools, in order, each priced by the
/// accountant of its method; the first failure is the result.
pub open spec fn pool_snapshots_of(pools: Seq<StakePoolMeta>, sync: SyncAll) -> Result<
    Seq<StakePoolSnapshot>,
    ErrorCode,
>
    decreases pools.len(),
{
    if pools.len() == 0 {
        Ok(Seq::empty())
    } else {
        match pool_snapshots_of(pools.drop_last(), sync) {
            Err(e) => Err(e),
            Ok(snaps) => {
                let pool = pools.last();
                match pool_snapshot_of(pool, sync.spec_accountant(pool.accounting_method)) {
                    Err(e) => Err(e),
                    Ok(snap) => Ok(snaps.push(snap)),
                }
            },
        }
    }
}

/// A pool's value is never negative.
pub proof fn lemma_pool_value_nonneg(p: StakePoolSnapshot)
    ensures
        pool_value(p) >= 0,
{
    let a = p.sol_for_1e9.amount as int;
    let b = p.pool_balance as int;
    assert(a * b >= 0) by (nonlinear_arith)
        requires
            a >= 0,
            b >= 0,
    ;
}

/// The total over a prefix never exceeds the total over the whole.
pub proof fn lemma_total_value_prefix(pools: Seq<StakePoolSnapshot>, k: int)
    requires
        0 <= k <= pools.len(),
    ensures
        0 <= total_value(pools.take(k)) <= total_value(pools),
    decreases pools.len(),
{
    if k == pools.len() {
        assert(pools.take(k) =~= pools);
        lemma_total_value_nonneg(pools);
    } else {
        lemma_total_value_prefix(pools.drop_last(), k);
        assert(pools.drop_last().take(k) =~= pools.take(k));
        lemma_pool_value_nonneg(pools.last());
    }
}

/// The total of the pools' values is never negative.
pub proof fn lemma_total_value_nonneg(pools: Seq<StakePoolSnapshot>)
    ensures
        total_value(pools) >= 0,
    decreases pools.len(),
{
    if pools.len() > 0 {
        lemma_total_value_nonneg(pools.drop_last());
        lemma_pool_value_nonneg(pools.last());
    }
}

/// Removing one pool from the list takes exactly its value off the total.
pub proof fn lemma_total_value_remove(pools: Seq<StakePoolSnapshot>, j: int)
    requires
        0 <= j < pools.len(),
    ensures
        total_value(pools) == total_value(pools.remove(j)) + pool_value(pools[j]),
    decreases pools.len(),
{
    if j == pools.len() - 1 {
        assert(pools.remove(j) =~= pools.drop_last());
    } else {
        assert(pools.remove(j).drop_last() =~= pools.drop_last().remove(j));
        assert(pools.remove(j).last() == pools.last());
        lemma_total_value_remove(pools.drop_last(), j);
    }
}

/// The total value of a list of pools does not depend on their order: any
/// two lists that hold the same pool snapshots, each as many times, have the
/// same total.
pub proof fn lemma_total_value_order_independent(
    a: Seq<StakePoolSnapshot>,
    b: Seq<StakePoolSnapshot>,
)
    requires
        a.to_multiset() == b.to_multiset(),
    ensures
        total_value(a) == total_value(b),
    decreases a.len(),
{
    broadcast use vstd::seq_lib::group_to_multiset_ensures;

    if a.len() == 0 {
        assert(b.to_multiset().len() == 0);
        assert(b.len() == 0);
    } else {
        let x = a.last();
        let rest = a.drop_last();
        assert(rest.push(x) =~= a);
        assert(a.to_multiset() =~= rest.to_multiset().insert(x));
        assert(b.to_multiset().count(x) > 0);
        assert(b.contains(x));
        let j = choose|j: int| 0 <= j < b.len() && b[j] == x;
        assert(b.remove(j).to_multiset() =~= b.to_multiset().remove(x));
        assert(rest.to_multiset() =~= rest.to_multiset().insert(x).remove(x));
        lemma_total_value_order_independent(rest, b.remove(j));
        lemma_total_value_remove(b, j);
    }
}

impl Snapshot {
    /// Gets the number of [ASOL] corresponding to an amount of [SOL].
    pub fn compute_asol_amount_from_sol(&self, sol_amount: SOL) -> (r: Result<ASOL, ErrorCode>)
        ensures
            r == (match asol_amount(self.balance_sol, self.supply, sol_amount) {
                Some(a) => Ok(a),
                None => Err(ErrorCode::IntegerOverflow),
            }),
    {
        // below one SOL of liquidity the price is pegged, to avoid precision
        // errors with tiny balances.
        if self.balance_sol.amount <= MIN_LIQUIDITY_FOR_EXACT_CALCULATION {
            return Ok(ASOL::from(sol_amount.amount));
        }
        match sol_amount.checked_mul_asol(self.supply, self.balance_sol) {
            Some(a) => Ok(a),
            None => Err(ErrorCode::IntegerOverflow),
        }
    }
}

impl StakePoolSnapshot {
    /// The SOL value of the pool's balance, based on the price.
    pub fn pool_balance_sol(&self) -> (r: Option<u64>)
        ensures
            r == checked_mul_div_u64(
                self.sol_for_1e9.amount as int,
                self.pool_balance as int,
                LAMPORTS_PER_SOL as int,
            ),
            r is Some <==> pool_value(*self) <= u64::MAX,
            r is Some ==> r->0 == pool_value(*self),
    {
        checked_mul_div(self.sol_for_1e9.amount, self.pool_balance, LAMPORTS_PER_SOL)
    }

    /// Creates a pool snapshot from an [Accountant], checking that the
    /// accountant's reserve holds the registered pool's mint.
    pub fn try_from_accountant(pool: &StakePoolMeta, accountant: &Accountant) -> (r: Result<
        StakePoolSnapshot,
        ErrorCode,
    >)
        ensures
            r == pool_snapshot_of(*pool, *accountant),
    {
        if pool.mint != accountant.crate_reserves().mint {
            return Err(ErrorCode::KeyMismatch);
        }
        Self::try_from_accountant_unchecked(accountant)
    }

    /// Creates a pool snapshot from an accountant.
    fn try_from_accountant_unchecked(accountant: &Accountant) -> (r: Result<
        StakePoolSnapshot,
        ErrorCode,
    >)
        ensures
            r == (match accountant.spec_sol_value(LAMPORTS_PER_SOL) {
                Err(e) => Err(e),
                Ok(price) => Ok(
                    StakePoolSnapshot {
                        pool_mint: accountant.spec_reserves().mint,
                        pool_balance: accountant.spec_reserves().amount,
                        sol_for_1e9: price,
                    },
                ),
            }),
    {
        let reserves = accountant.crate_reserves();
        let sol_for_1e9 = accountant.sol_value(LAMPORTS_PER_SOL)?;
        Ok(StakePoolSnapshot { pool_mint: reserves.mint, pool_balance: reserves.amount, sol_for_1e9 })
    }
}

} // verus!
