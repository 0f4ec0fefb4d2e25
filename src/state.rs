use vstd::prelude::*;

use crate::snapshot::{Snapshot, StakePoolSnapshot};
use crate::types::{ASOL, SOL};

verus! {

/// A 32-byte account address.
#[derive(Clone, Copy, Debug, Default, Eq)]
pub struct Pubkey {
    pub bytes: [u8; 32],
}

impl Pubkey {
    /// Builds a key from its bytes.
    pub fn new_from_array(bytes: [u8; 32]) -> (r: Pubkey)
        ensures
            r.bytes@ == bytes@,
    {
        Pubkey { bytes }
    }

    /// The key as a sequence of bytes.
    pub open spec fn view(&self) -> Seq<u8> {
        self.bytes@
    }
}

impl PartialEq for Pubkey {
    fn eq(&self, other: &Pubkey) -> (r: bool)
        ensures
            r == (self@ == other@),
    {
        let mut i: usize = 0;
        while i < 32
            invariant
                0 <= i <= 32,
                self.bytes@.len() == 32,
                other.bytes@.len() == 32,
                forall|j: int| 0 <= j < i ==> self.bytes@[j] == other.bytes@[j],
            decreases 32 - i,
        {
            if self.bytes[i] != other.bytes[i] {
                return false;
            }
            i = i + 1;
        }
        proof {
            assert(self.bytes@ =~= other.bytes@);
        }
        true
    }
}

impl vstd::std_specs::cmp::PartialEqSpecImpl for Pubkey {
    open spec fn obeys_eq_spec() -> bool {
        true
    }

    open spec fn eq_spec(&self, other: &Pubkey) -> bool {
        self@ == other@
    }
}

/// Errors raised by the aggregate.
#[derive(Clone, Copy, Debug, PartialEq, Eq, Structural)]
pub enum ErrorCode {
    /// Must be curator.
    UnauthorizedNotCurator,
    /// Must be curator setter.
    UnauthorizedNotCuratorSetter,
    /// Pool not found in snapshot.
    PoolNotFoundInSnapshot,
    /// Cannot add a pool that has already been added.
    PoolAlreadyAdded,
    /// Checked arithmetic overflowed, or divided by zero.
    IntegerOverflow,
    /// Two account keys that must match do not.
    KeyMismatch,
    /// An account does not hold the state it must hold.
    InvariantFailed,
}

/// The accounting method of the stake pool.
#[derive(Clone, Copy, Debug, PartialEq, Eq, Structural)]
pub enum AccountingMethod {
    /// Marinade mSOL.
    Marinade,
    /// Lido stSOL.
    Lido,
}

impl Default for AccountingMethod {
    fn default() -> (r: AccountingMethod)
        ensures
            r == AccountingMethod::Marinade,
    {
        AccountingMethod::Marinade
    }
}

/// A stake pool registered with an aggregate.
#[derive(Clone, Copy, Debug, Default, PartialEq, Eq)]
pub struct StakePoolMeta {
    /// Mint of the stake pool.
    pub mint: Pubkey,
    /// The accounting method.
    pub accounting_method: AccountingMethod,
}

/// Contains the info of the aggregate token.
#[derive(Clone, Debug, Default, PartialEq, Eq)]
pub struct Aggregate {
    /// The crate token.
    pub crate_token: Pubkey,
    /// Bump.
    pub bump: u8,
    /// Account that can add or remove stake pools from the aggregate.
    pub curator: Pubkey,
    /// Account that can change who the curator is.
    pub curator_setter: Pubkey,
    /// The registered stake pools.
    pub stake_pools: Vec<StakePoolMeta>,
    /// Latest snapshot of the aggregate.
    pub latest_snapshot: Snapshot,
    /// When the latest snapshot was taken.
    pub latest_snapshot_ts: i64,
}

/// Statistics on a stake pool.
#[derive(Clone, Copy, Debug, Default, PartialEq, Eq)]
pub struct StakePoolStats {
    /// Total amount of stake pool tokens ever deposited.
    pub total_amount_deposited: u64,
    /// Total amount of aggregate tokens ever minted from this pool.
    pub total_amount_minted: ASOL,
}

/// The last snapshot recorded by a stake pool.
#[derive(Clone, Copy, Debug, Default, PartialEq, Eq)]
pub struct StakePoolStateSnapshot {
    /// Aggregate [SOL] balance.
    pub aggregate_balance_sol: SOL,
    /// Aggregate [ASOL] total supply.
    pub aggregate_supply: ASOL,
    /// Stake pool snapshot information.
    pub snapshot: StakePoolSnapshot,
    /// Time the last snapshot was taken.
    pub snapshot_ts: i64,
}

/// The state of one stake pool of an aggregate.
#[derive(Clone, Copy, Debug, Default, PartialEq, Eq)]
pub struct StakePool {
    /// The [Aggregate].
    pub aggregate: Pubkey,
    /// Mint of the stake pool.
    pub mint: Pubkey,
    /// The bump.
    pub bump: u8,
    /// Accounting method the stake pool uses.
    pub accounting_method: AccountingMethod,
    /// Statistics on the stake pool.
    pub stats: StakePoolStats,
    /// The latest snapshot of the [StakePool].
    pub latest_snapshot: StakePoolStateSnapshot,
}

} // verus!
