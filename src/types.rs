use vstd::arithmetic::div_mod::{lemma_div_is_ordered, lemma_fundamental_div_mod};
use vstd::arithmetic::mul::lemma_mul_inequality;
use vstd::prelude::*;

verus! {

/// An amount of SOL, in lamports.
#[derive(Clone, Copy, Debug, Default, PartialEq, Eq, Structural)]
pub struct SOL {
    pub amount: u64,
}

/// An amount of aSOL, in base units.
#[derive(Clone, Copy, Debug, Default, PartialEq, Eq, Structural)]
pub struct ASOL {
    pub amount: u64,
}

/// `floor(a * b / c)` over the integers.
pub open spec fn mul_div(a: int, b: int, c: int) -> int {
    a * b / c
}

/// `floor(a * b / c)` grows with `a`.
pub proof fn lemma_mul_div_monotonic(a1: int, a2: int, b: int, c: int)
    requires
        0 <= a1 <= a2,
        0 <= b,
        0 < c,
    ensures
        mul_div(a1, b, c) <= mul_div(a2, b, c),
{
    lemma_mul_inequality(a1, a2, b);
    lemma_div_is_ordered(a1 * b, a2 * b, c);
}

/// `floor(a * b / c)` rounds down: it is the largest `q` with `q * c <= a * b`.
pub proof fn lemma_mul_div_floor(a: int, b: int, c: int)
    requires
        0 < c,
    ensures
        mul_div(a, b, c) * c <= a * b,
        a * b < (mul_div(a, b, c) + 1) * c,
{
    lemma_fundamental_div_mod(a * b, c);
    let q = (a * b) / c;
    assert(q * c == c * q) by (nonlinear_arith);
    assert((q + 1) * c == c * q + c) by (nonlinear_arith);
}

/// The checked result of `floor(a * b / c)` as a u64: `None` when `c` is zero
/// or when the quotient does not fit.
pub open spec fn checked_mul_div_u64(a: int, b: int, c: int) -> Option<u64> {
    if c == 0 || mul_div(a, b, c) > u64::MAX {
        None
    } else {
        Some(mul_div(a, b, c) as u64)
    }
}

/// Relies on num_traits::ToPrimitive::to_u64 for u128: the value itself when it
/// fits in a u64, `None` otherwise.
#[verifier::external_body]
pub(crate) fn u128_to_u64(v: u128) -> (r: Option<u64>)
    ensures
        r == (if v <= u64::MAX {
            Some(v as u64)
        } else {
            None::<u64>
        }),
{
    num_traits::ToPrimitive::to_u64(&v)
}

/// Computes `floor(a * b / c)` in 128-bit precision, checked.
pub fn checked_mul_div(a: u64, b: u64, c: u64) -> (r: Option<u64>)
    ensures
        r == checked_mul_div_u64(a as int, b as int, c as int),
{
    proof {
        assert(0 <= (a as int) * (b as int) <= (u64::MAX as int) * (u64::MAX as int))
            by (nonlinear_arith);
    }
    let product = (a as u128).checked_mul(b as u128);
    match product {
        None => None,
        Some(p) => {
            match p.checked_div(c as u128) {
                None => None,
                Some(q) => u128_to_u64(q),
            }
        },
    }
}

impl SOL {
    /// Converts to u128.
    pub fn to_u128(&self) -> (r: u128)
        ensures
            r == self.amount,
    {
        self.amount as u128
    }

    /// Converts the [SOL] amount to [ASOL]: `floor(self * numerator / denominator)`,
    /// `None` on a zero denominator or when the result does not fit.
    pub fn checked_mul_asol(&self, numerator: ASOL, denominator: SOL) -> (r: Option<ASOL>)
        ensures
            r == (match checked_mul_div_u64(
                self.amount as int,
                numerator.amount as int,
                denominator.amount as int,
            ) {
                Some(v) => Some(ASOL { amount: v }),
                None => None::<ASOL>,
            }),
    {
        match checked_mul_div(self.amount, numerator.amount, denominator.amount) {
            Some(v) => Some(ASOL::from(v)),
            None => None,
        }
    }
}

impl ASOL {
    /// Converts to u128.
    pub fn to_u128(&self) -> (r: u128)
        ensures
            r == self.amount,
    {
        self.amount as u128
    }
}

impl From<u64> for SOL {
    fn from(amount: u64) -> (r: SOL)
        ensures
            r == (SOL { amount }),
    {
        SOL { amount }
    }
}

impl vstd::std_specs::convert::FromSpecImpl<u64> for SOL {
    open spec fn obeys_from_spec() -> bool {
        true
    }

    open spec fn from_spec(amount: u64) -> SOL {
        SOL { amount }
    }
}

impl From<u64> for ASOL {
    fn from(amount: u64) -> (r: ASOL)
        ensures
            r == (ASOL { amount }),
    {
        ASOL { amount }
    }
}

impl vstd::std_specs::convert::FromSpecImpl<u64> for ASOL {
    open spec fn obeys_from_spec() -> bool {
        true
    }

    open spec fn from_spec(amount: u64) -> ASOL {
        ASOL { amount }
    }
}

impl From<SOL> for u128 {
    fn from(sol: SOL) -> (r: u128)
        ensures
            r == sol.amount,
    {
        sol.to_u128()
    }
}

impl vstd::std_specs::convert::FromSpecImpl<SOL> for u128 {
    open spec fn obeys_from_spec() -> bool {
        true
    }

    open spec fn from_spec(sol: SOL) -> u128 {
        sol.amount as u128
    }
}

impl From<ASOL> for u128 {
    fn from(asol: ASOL) -> (r: u128)
        ensures
            r == asol.amount,
    {
        asol.to_u128()
    }
}

impl vstd::std_specs::convert::FromSpecImpl<ASOL> for u128 {
    open spec fn obeys_from_spec() -> bool {
        true
    }

    open spec fn from_spec(asol: ASOL) -> u128 {
        asol.amount as u128
    }
}

} // verus!
