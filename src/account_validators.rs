use vstd::prelude::*;

use crate::accounting::{SyncAll, SyncLido, SyncMarinade};
use crate::state::{ErrorCode, Pubkey, StakePoolMeta};
use crate::{
    AddStakePool, KnownAddresses, MintASol, NewAggregate, SetCurator, SyncAndMint,
    LAMPORTS_DECIMALS,
};

verus! {

/// Some registered pool has the mint `mint`.
pub open spec fn pool_registered(pools: Seq<StakePoolMeta>, mint: Pubkey) -> bool {
    exists|i: int| 0 <= i < pools.len() && pools[i].mint@ == mint@
}

/// Checks that two keys match.
fn assert_keys(a: &Pubkey, b: &Pubkey) -> (r: Result<(), ErrorCode>)
    ensures
        r == (if a@ == b@ {
            Ok::<(), ErrorCode>(())
        } else {
            Err(ErrorCode::KeyMismatch)
        }),
{
    if *a == *b {
        Ok(())
    } else {
        Err(ErrorCode::KeyMismatch)
    }
}

impl NewAggregate {
    /// The redeem-in-kind account is the known withdraw authority, and the
    /// crate mint is new and has 9 decimals.
    pub fn validate(&self, known: &KnownAddresses) -> (r: Result<(), ErrorCode>)
        ensures
            r == (if self.redeem_in_kind@ != known.redeem_in_kind_withdraw_authority@ {
                Err(ErrorCode::KeyMismatch)
            } else if self.crate_mint.supply != 0 || self.crate_mint.decimals != LAMPORTS_DECIMALS {
                Err(ErrorCode::InvariantFailed)
            } else {
                Ok::<(), ErrorCode>(())
            }),
    {
        assert_keys(&self.redeem_in_kind, &known.redeem_in_kind_withdraw_authority)?;
        if self.crate_mint.supply != 0 {
            return Err(ErrorCode::InvariantFailed);
        }
        if self.crate_mint.decimals != LAMPORTS_DECIMALS {
            return Err(ErrorCode::InvariantFailed);
        }
        Ok(())
    }
}

impl AddStakePool {
    /// The signer is the curator, and the mint is not registered yet.
    pub fn validate(&self) -> (r: Result<(), ErrorCode>)
        ensures
            r == (if self.curator@ != self.aggregate.curator@ {
                Err(ErrorCode::UnauthorizedNotCurator)
            } else if pool_registered(self.aggregate.stake_pools@, self.mint.key) {
                Err(ErrorCode::PoolAlreadyAdded)
            } else {
                Ok::<(), ErrorCode>(())
            }),
    {
        if self.curator != self.aggregate.curator {
            return Err(ErrorCode::UnauthorizedNotCurator);
        }
        let pools = &self.aggregate.stake_pools;
        let mut i: usize = 0;
        while i < pools.len()
            invariant
                i <= pools.len(),
                pools@ == self.aggregate.stake_pools@,
                self.curator@ == self.aggregate.curator@,
                forall|j: int| 0 <= j < i ==> pools@[j].mint@ != self.mint.key@,
            decreases pools.len() - i,
        {
            if pools[i].mint == self.mint.key {
                assert(pool_registered(self.aggregate.stake_pools@, self.mint.key)) by {
                    assert(pools@[i as int].mint@ == self.mint.key@);
                }
                return Err(ErrorCode::PoolAlreadyAdded);
            }
            i = i + 1;
        }
        Ok(())
    }
}

impl SetCurator {
    /// The signer is the curator setter.
    pub fn validate(&self) -> (r: Result<(), ErrorCode>)
        ensures
            r == (if self.aggregate.curator_setter@ != self.curator_setter@ {
                Err(ErrorCode::UnauthorizedNotCuratorSetter)
            } else {
                Ok::<(), ErrorCode>(())
            }),
    {
        if self.aggregate.curator_setter != self.curator_setter {
            return Err(ErrorCode::UnauthorizedNotCuratorSetter);
        }
        Ok(())
    }
}

impl SyncLido {
    /// The accounts are Lido's state and a reserve of stSOL.
    pub open spec fn spec_valid(&self, known: KnownAddresses) -> bool {
        &&& self.lido@ == known.solido_account@
        &&& self.lido_stake_pool_tokens.mint@ == known.lido_stsol_mint@
    }

    /// Checks the accounts against the known Lido addresses.
    pub fn validate(&self, known: &KnownAddresses) -> (r: Result<(), ErrorCode>)
        ensures
            r == (if self.spec_valid(*known) {
                Ok::<(), ErrorCode>(())
            } else {
                Err(ErrorCode::KeyMismatch)
            }),
    {
        assert_keys(&self.lido, &known.solido_account)?;
        assert_keys(&self.lido_stake_pool_tokens.mint, &known.lido_stsol_mint)?;
        Ok(())
    }
}

impl SyncMarinade {
    /// The accounts are Marinade's state and a reserve of mSOL.
    pub open spec fn spec_valid(&self, known: KnownAddresses) -> bool {
        &&& self.marinade@ == known.marinade_state@
        &&& self.marinade_stake_pool_tokens.mint@ == known.marinade_msol_mint@
    }

    /// Checks the accounts against the known Marinade addresses.
    pub fn validate(&self, known: &KnownAddresses) -> (r: Result<(), ErrorCode>)
        ensures
            r == (if self.spec_valid(*known) {
                Ok::<(), ErrorCode>(())
            } else {
                Err(ErrorCode::KeyMismatch)
            }),
    {
        assert_keys(&self.marinade, &known.marinade_state)?;
        assert_keys(&self.marinade_stake_pool_tokens.mint, &known.marinade_msol_mint)?;
        Ok(())
    }
}

impl SyncAll {
    /// Both stake pools' accounts are the known ones.
    pub open spec fn spec_valid(&self, known: KnownAddresses) -> bool {
        self.lido.spec_valid(known) && self.marinade.spec_valid(known)
    }

    /// Checks both stake pools' accounts.
    pub fn validate(&self, known: &KnownAddresses) -> (r: Result<(), ErrorCode>)
        ensures
            r == (if self.spec_valid(*known) {
                Ok::<(), ErrorCode>(())
            } else {
                Err(ErrorCode::KeyMismatch)
            }),
    {
        self.lido.validate(known)?;
        self.marinade.validate(known)?;
        Ok(())
    }
}

impl MintASol {
    /// The accounts of a mint belong together.
    pub open spec fn spec_valid(&self) -> bool {
        &&& self.stake_pool.aggregate@ == self.aggregate_key@
        &&& self.stake_pool_tokens.mint@ == self.stake_pool.mint@
        &&& self.crate_token.key@ == self.stake_pool_tokens.owner@
        &&& self.crate_token.mint@ == self.crate_mint.key@
        &&& self.mint_destination.mint@ == self.crate_token.mint@
        &&& self.depositor_source.mint@ == self.stake_pool_tokens.mint@
        &&& self.depositor_source.owner@ == self.depositor@
    }

    /// Checks that the accounts of a mint belong together.
    pub fn validate(&self) -> (r: Result<(), ErrorCode>)
        ensures
            r == (if self.spec_valid() {
                Ok::<(), ErrorCode>(())
            } else {
                Err(ErrorCode::KeyMismatch)
            }),
    {
        assert_keys(&self.stake_pool.aggregate, &self.aggregate_key)?;
        assert_keys(&self.stake_pool_tokens.mint, &self.stake_pool.mint)?;
        assert_keys(&self.crate_token.key, &self.stake_pool_tokens.owner)?;
        assert_keys(&self.crate_token.mint, &self.crate_mint.key)?;
        assert_keys(&self.mint_destination.mint, &self.crate_token.mint)?;
        assert_keys(&self.depositor_source.mint, &self.stake_pool_tokens.mint)?;
        assert_keys(&self.depositor_source.owner, &self.depositor)?;
        Ok(())
    }
}

impl SyncAndMint {
    /// The synced pools and the mint's accounts are valid.
    pub open spec fn spec_valid(&self, known: KnownAddresses) -> bool {
        self.sync.spec_valid(known) && self.mint_asol.spec_valid()
    }

    /// Checks the synced pools, then the mint's accounts.
    pub fn validate(&self, known: &KnownAddresses) -> (r: Result<(), ErrorCode>)
        ensures
            r == (if self.spec_valid(*known) {
                Ok::<(), ErrorCode>(())
            } else {
                Err(ErrorCode::KeyMismatch)
            }),
    {
        self.sync.validate(known)?;
        self.mint_asol.validate()?;
        Ok(())
    }
}

} // verus!
