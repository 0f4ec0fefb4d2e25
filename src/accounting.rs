use vstd::prelude::*;

use crate::state::{AccountingMethod, ErrorCode, Pubkey};
use crate::types::{checked_mul_div, checked_mul_div_u64, SOL};

verus! {

/// The scale of Marinade's 32.32 fixed-point mSOL price.
pub const MSOL_PRICE_DENOMINATOR: u64 = 0x1_0000_0000;

/// A token account: which mint it holds, who owns it and how much it holds.
#[derive(Clone, Copy, Debug, Default, PartialEq, Eq)]
pub struct TokenAccount {
    /// The address of the account.
    pub key: Pubkey,
    /// The mint of the tokens held.
    pub mint: Pubkey,
    /// The owner of the account.
    pub owner: Pubkey,
    /// The amount of tokens held.
    pub amount: u64,
}

/// Marinade's state as read by the aggregate: the address of its state account
/// and its mSOL price, a 32.32 fixed-point number of SOL per mSOL.
#[derive(Clone, Copy, Debug, Default, PartialEq, Eq)]
pub struct SyncMarinade {
    /// Address of the Marinade state account.
    pub marinade: Pubkey,
    /// Price of mSOL in SOL, scaled by 2^32.
    pub msol_price: u64,
    /// The aggregate's reserve of mSOL.
    pub marinade_stake_pool_tokens: TokenAccount,
}

/// Lido's state as read by the aggregate: the address of its Solido account
/// and its exchange rate, given by two totals.
#[derive(Clone, Copy, Debug, Default, PartialEq, Eq)]
pub struct SyncLido {
    /// Address of the Solido account.
    pub lido: Pubkey,
    /// SOL balance of the exchange rate.
    pub sol_balance: u64,
    /// stSOL supply of the exchange rate.
    pub st_sol_supply: u64,
    /// The aggregate's reserve of stSOL.
    pub lido_stake_pool_tokens: TokenAccount,
}

/// The value in SOL of `amount` tokens priced at a 32.32 fixed-point `price`.
pub open spec fn marinade_sol_value(amount: u64, price: u64) -> Result<SOL, ErrorCode> {
    match checked_mul_div_u64(amount as int, price as int, MSOL_PRICE_DENOMINATOR as int) {
        Some(v) => Ok(SOL { amount: v }),
        None => Err(ErrorCode::IntegerOverflow),
    }
}

/// The value in SOL of `amount` tokens priced at `sol_balance / token_supply`.
pub open spec fn lido_sol_value(amount: u64, sol_balance: u64, token_supply: u64) -> Result<
    SOL,
    ErrorCode,
> {
    match checked_mul_div_u64(amount as int, sol_balance as int, token_supply as int) {
        Some(v) => Ok(SOL { amount: v }),
        None => Err(ErrorCode::IntegerOverflow),
    }
}

impl SyncMarinade {
    /// Calculates the value of an amount of mSOL in SOL.
    pub fn sol_value(&self, amount: u64) -> (r: Result<SOL, ErrorCode>)
        ensures
            r == marinade_sol_value(amount, self.msol_price),
    {
        match checked_mul_div(amount, self.msol_price, MSOL_PRICE_DENOMINATOR) {
            Some(v) => Ok(SOL::from(v)),
            None => Err(ErrorCode::IntegerOverflow),
        }
    }

    /// The aggregate's reserve of mSOL.
    pub fn crate_reserves(&self) -> (r: &TokenAccount)
        ensures
            *r == self.marinade_stake_pool_tokens,
    {
        &self.marinade_stake_pool_tokens
    }
}

impl SyncLido {
    /// Calculates the value of an amount of stSOL in SOL; fails when the
    /// stSOL supply is zero.
    pub fn sol_value(&self, amount: u64) -> (r: Result<SOL, ErrorCode>)
        ensures
            r == lido_sol_value(amount, self.sol_balance, self.st_sol_supply),
    {
        match checked_mul_div(amount, self.sol_balance, self.st_sol_supply) {
            Some(v) => Ok(SOL::from(v)),
            None => Err(ErrorCode::IntegerOverflow),
        }
    }

    /// The aggregate's reserve of stSOL.
    pub fn crate_reserves(&self) -> (r: &TokenAccount)
        ensures
            *r == self.lido_stake_pool_tokens,
    {
        &self.lido_stake_pool_tokens
    }
}

/// Can account for the amount of SOL in a stake pool: one variant for each
/// supported stake pool.
#[derive(Clone, Copy, Debug, PartialEq, Eq)]
pub enum Accountant {
    /// Prices mSOL by Marinade's fixed-point price.
    Marinade(SyncMarinade),
    /// Prices stSOL by Lido's exchange rate.
    Lido(SyncLido),
}

impl Accountant {
    /// The accounting method of the stake pool.
    pub open spec fn spec_method(&self) -> AccountingMethod {
        match self {
            Accountant::Marinade(_) => AccountingMethod::Marinade,
            Accountant::Lido(_) => AccountingMethod::Lido,
        }
    }

    /// The value in SOL of `amount` stake pool tokens.
    pub open spec fn spec_sol_value(&self, amount: u64) -> Result<SOL, ErrorCode> {
        match self {
            Accountant::Marinade(m) => marinade_sol_value(amount, m.msol_price),
            Accountant::Lido(l) => lido_sol_value(amount, l.sol_balance, l.st_sol_supply),
        }
    }

    /// The aggregate's reserve of the stake pool's tokens.
    pub open spec fn spec_reserves(&self) -> TokenAccount {
        match self {
            Accountant::Marinade(m) => m.marinade_stake_pool_tokens,
            Accountant::Lido(l) => l.lido_stake_pool_tokens,
        }
    }

    /// The accounting method of the stake pool.
    pub fn method(&self) -> (r: AccountingMethod)
        ensures
            r == self.spec_method(),
    {
        match self {
            Accountant::Marinade(_) => AccountingMethod::Marinade,
            Accountant::Lido(_) => AccountingMethod::Lido,
        }
    }

    /// Calculates the value of the stake pool token amount in SOL.
    pub fn sol_value(&self, amount: u64) -> (r: Result<SOL, ErrorCode>)
        ensures
            r == self.spec_sol_value(amount),
    {
        match self {
            Accountant::Marinade(m) => m.sol_value(amount),
            Accountant::Lido(l) => l.sol_value(amount),
        }
    }

    /// Gets the [TokenAccount] of stake pool tokens associated with the aggregate.
    pub fn crate_reserves(&self) -> (r: &TokenAccount)
        ensures
            *r == self.spec_reserves(),
    {
        match self {
            Accountant::Marinade(m) => m.crate_reserves(),
            Accountant::Lido(l) => l.crate_reserves(),
        }
    }
}

/// The state of every supported stake pool, read together.
#[derive(Clone, Copy, Debug, Default, PartialEq, Eq)]
pub struct SyncAll {
    /// Marinade's state.
    pub marinade: SyncMarinade,
    /// Lido's state.
    pub lido: SyncLido,
}

impl SyncAll {
    /// The accountant that prices pools of the given method.
    pub open spec fn spec_accountant(&self, method: AccountingMethod) -> Accountant {
        match method {
            AccountingMethod::Marinade => Accountant::Marinade(self.marinade),
            AccountingMethod::Lido => Accountant::Lido(self.lido),
        }
    }

    /// The accountant that prices pools of the given method.
    pub fn accountant(&self, method: AccountingMethod) -> (r: Accountant)
        ensures
            r == self.spec_accountant(method),
            r.spec_method() == method,
    {
        match method {
            AccountingMethod::Marinade => Accountant::Marinade(self.marinade),
            AccountingMethod::Lido => Accountant::Lido(self.lido),
        }
    }
}

} // verus!
