use vstd::prelude::*;
use vstd::arithmetic::div_mod::{lemma_div_basics, lemma_div_is_ordered, lemma_div_multiples_vanish};
use vstd::arithmetic::mul::{lemma_mul_inequality, lemma_mul_is_commutative, lemma_mul_nonnegative};

use crate::ATOMICS_PER_UNIT;

verus! {

/// The commission withheld from a gross bid: the gross amount times the
/// commission rate, rounded down. The rate is a fixed-point fraction of
/// one with `ATOMICS_PER_UNIT` atomic units per whole unit.
pub open spec fn tax_of(gross: int, rate_atomics: int) -> int {
    (gross * rate_atomics) / (ATOMICS_PER_UNIT as int)
}

/// A rate of at most one whole unit withholds at most the gross amount.
pub proof fn lemma_tax_le_gross(gross: u128, rate_atomics: u128)
    requires
        rate_atomics <= ATOMICS_PER_UNIT,
    ensures
        0 <= tax_of(gross as int, rate_atomics as int) <= gross,
{
    let g = gross as int;
    let c = rate_atomics as int;
    let a = ATOMICS_PER_UNIT as int;
    lemma_mul_nonnegative(g, c);
    lemma_div_basics(a);
    lemma_div_is_ordered(0, g * c, a);
    lemma_mul_inequality(c, a, g);
    lemma_mul_is_commutative(g, c);
    lemma_div_is_ordered(g * c, a * g, a);
    lemma_div_multiples_vanish(g, a);
}

/// Relies on cosmwasm_std: multiplying a `Uint128` by a `Decimal` built
/// from raw atomic units returns `amount * rate_atomics / 10^18` rounded
/// down, computed through a 256-bit intermediate; with a rate of at most
/// one whole unit the result fits the amount type, so the call cannot
/// panic.
#[verifier::external_body]
pub(crate) fn mul_floor(amount: u128, rate_atomics: u128) -> (r: u128)
    requires
        rate_atomics <= ATOMICS_PER_UNIT,
    ensures
        r == tax_of(amount as int, rate_atomics as int),
{
    (cosmwasm_std::Uint128::new(amount) * cosmwasm_std::Decimal::raw(rate_atomics)).u128()
}

} // verus!
