//! Tax calculator: the basis-point tax owed on a gross trade amount and
//! the net amount that remains after it.

use vstd::prelude::*;

use crate::market::ErrorCode;

verus! {

/// Sum of the three configured tax rates, in basis points.
pub open spec fn total_bps(creator_bps: u16, protocol_bps: u16, seed_bps: u16) -> int {
    creator_bps + protocol_bps + seed_bps
}

/// Tax owed on `gross`: floor(gross * total rate / 10_000).
pub open spec fn tax_amount_of(gross: u64, creator_bps: u16, protocol_bps: u16, seed_bps: u16) -> int {
    (gross * total_bps(creator_bps, protocol_bps, seed_bps)) / 10_000
}

/// What remains of `gross` once the tax is taken.
pub open spec fn net_amount_of(gross: u64, creator_bps: u16, protocol_bps: u16, seed_bps: u16) -> int {
    gross - tax_amount_of(gross, creator_bps, protocol_bps, seed_bps)
}

/// Splits a gross amount into the tax owed and the net remainder.
///
/// The only failure is a tax larger than the gross amount itself, which
/// can happen only when the three rates sum to more than 10_000 bps.
pub fn compute_tax(gross_amount: u64, creator_bps: u16, protocol_bps: u16, seed_bps: u16) -> (r: Result<(u64, u64), ErrorCode>)
    ensures
        tax_amount_of(gross_amount, creator_bps, protocol_bps, seed_bps) <= gross_amount ==> (r matches Ok(split)
            && split.0 == tax_amount_of(gross_amount, creator_bps, protocol_bps, seed_bps)
            && split.1 == net_amount_of(gross_amount, creator_bps, protocol_bps, seed_bps)),
        tax_amount_of(gross_amount, creator_bps, protocol_bps, seed_bps) > gross_amount
            ==> r == Err::<(u64, u64), ErrorCode>(ErrorCode::ArithmeticError),
{
    let rate: u128 = creator_bps as u128 + protocol_bps as u128 + seed_bps as u128;
    proof {
        assert(gross_amount as int * rate as int <= u64::MAX as int * (3 * u16::MAX as int)) by (nonlinear_arith)
            requires
                gross_amount <= u64::MAX,
                rate <= 3 * u16::MAX as int,
        ;
    }
    let tax_wide: u128 = (gross_amount as u128 * rate) / 10_000;
    if tax_wide > gross_amount as u128 {
        Err(ErrorCode::ArithmeticError)
    } else {
        let tax_amount: u64 = tax_wide as u64;
        Ok((tax_amount, gross_amount - tax_amount))
    }
}

/// No value is created or destroyed by the tax split: whenever the split
/// succeeds (the tax does not exceed the gross amount), tax and net sum
/// back to the gross amount exactly.
pub proof fn lemma_tax_preserves_value(gross: u64, creator_bps: u16, protocol_bps: u16, seed_bps: u16)
    requires
        tax_amount_of(gross, creator_bps, protocol_bps, seed_bps) <= gross,
    ensures
        tax_amount_of(gross, creator_bps, protocol_bps, seed_bps)
            + net_amount_of(gross, creator_bps, protocol_bps, seed_bps) == gross,
{
}

/// Whenever the three rates sum to at most 10_000 bps (100%), the tax
/// never exceeds the gross amount, so the split always succeeds.
pub proof fn lemma_tax_within_gross(gross: u64, creator_bps: u16, protocol_bps: u16, seed_bps: u16)
    requires
        total_bps(creator_bps, protocol_bps, seed_bps) <= 10_000,
    ensures
        0 <= tax_amount_of(gross, creator_bps, protocol_bps, seed_bps) <= gross,
{
    let rate: int = total_bps(creator_bps, protocol_bps, seed_bps);
    assert(gross * rate <= gross * 10_000) by (nonlinear_arith)
        requires
            0 <= gross,
            0 <= rate <= 10_000,
    ;
    assert(0 <= gross * rate) by (nonlinear_arith)
        requires
            0 <= gross,
            0 <= rate,
    ;
    vstd::arithmetic::div_mod::lemma_div_is_ordered(gross * rate, gross * 10_000, 10_000);
    vstd::arithmetic::div_mod::lemma_div_by_multiple(gross as int, 10_000);
    vstd::arithmetic::div_mod::lemma_div_is_ordered(0, gross * rate, 10_000);
}

} // verus!
