//! Graduation evaluator: the threshold predicate that decides when a
//! bonding market becomes perpetual, and the one-way transition that
//! flips it and rewrites the tax rates.

use vstd::prelude::*;

use crate::market::Market;
use crate::market::MarketStatus;
use crate::tax::tax_amount_of;

verus! {

/// Creator tax rate, in basis points, fixed at graduation.
pub const PERPETUAL_CREATOR_TAX_BPS: u16 = 30;

/// Protocol tax rate, in basis points, fixed at graduation.
pub const PERPETUAL_PROTOCOL_TAX_BPS: u16 = 50;

/// Seed-vault tax rate, in basis points, fixed at graduation.
pub const PERPETUAL_SEED_VAULT_TAX_BPS: u16 = 20;

/// Seconds in one hour, the unit of the market-age threshold.
pub const SECONDS_PER_HOUR: u64 = 3600;

/// The graduation predicate: enough cumulative volume, enough holders,
/// and enough whole hours since creation. The age divides toward
/// negative infinity, so a clock skewed before the creation time counts
/// as not old enough rather than erroring.
pub open spec fn spec_should_graduate(m: Market, now: i64) -> bool {
    &&& m.total_volume >= m.graduation_liquidity
    &&& m.holder_count >= m.graduation_holders
    &&& (now - m.created_at) / (SECONDS_PER_HOUR as int) >= m.graduation_age_hours
}

/// The market as the graduation transition leaves it: perpetual, stamped
/// with the graduation time, and with the three tax rates overwritten to
/// their fixed reduced values. Every other field is kept.
pub open spec fn spec_graduated(m: Market, now: i64) -> Market {
    Market {
        status: MarketStatus::Perpetual,
        graduated_at: Some(now),
        creator_tax_bps: PERPETUAL_CREATOR_TAX_BPS,
        protocol_tax_bps: PERPETUAL_PROTOCOL_TAX_BPS,
        seed_vault_tax_bps: PERPETUAL_SEED_VAULT_TAX_BPS,
        ..m
    }
}

/// Decides whether the market meets all three graduation thresholds at
/// time `now`.
pub fn should_graduate(market: &Market, now: i64) -> (b: bool)
    ensures
        b == spec_should_graduate(*market, now),
{
    let has_liquidity: bool = market.total_volume >= market.graduation_liquidity;
    let has_holders: bool = market.holder_count >= market.graduation_holders;
    let age_seconds: i128 = now as i128 - market.created_at as i128;
    let is_old_enough: bool = if age_seconds < 0 {
        proof {
            vstd::arithmetic::div_mod::lemma_fundamental_div_mod(
                now - market.created_at,
                SECONDS_PER_HOUR as int,
            );
        }
        false
    } else {
        let age_hours: u128 = age_seconds as u128 / SECONDS_PER_HOUR as u128;
        age_hours >= market.graduation_age_hours as u128
    };
    has_liquidity && has_holders && is_old_enough
}

/// Applies the graduation transition. Invoked only on a bonding market
/// once the predicate holds — never re-invoked after graduation, so the
/// graduation timestamp is written exactly once. Flips the phase, stamps
/// the time, and rewrites the tax rates.
pub fn apply_graduation(market: &mut Market, now: i64)
    requires
        old(market).status is Bonding,
        spec_should_graduate(*old(market), now),
    ensures
        *final(market) == spec_graduated(*old(market), now),
{
    market.status = MarketStatus::Perpetual;
    market.graduated_at = Some(now);
    market.creator_tax_bps = PERPETUAL_CREATOR_TAX_BPS;
    market.protocol_tax_bps = PERPETUAL_PROTOCOL_TAX_BPS;
    market.seed_vault_tax_bps = PERPETUAL_SEED_VAULT_TAX_BPS;
}

/// The implicit graduation check run after every buy: graduates a
/// bonding market if and only if the thresholds are all met, and
/// otherwise leaves the market untouched. A market already graduated
/// (or paused) is never touched, so the graduation timestamp is set at
/// most once.
pub fn check_graduation_conditions(market: &mut Market, now: i64)
    ensures
        old(market).status is Bonding && spec_should_graduate(*old(market), now)
            ==> *final(market) == spec_graduated(*old(market), now),
        !(old(market).status is Bonding && spec_should_graduate(*old(market), now))
            ==> *final(market) == *old(market),
        old(market).status is Perpetual ==> *final(market) == *old(market),
{
    if market.status == MarketStatus::Bonding && should_graduate(market, now) {
        apply_graduation(market, now);
    }
}

/// Graduation pins the tax configuration: whatever rates a market
/// carried before, a trade taxed with the rates the transition leaves
/// behind is taxed at exactly 30, 50 and 20 basis points, and such a tax
/// never exceeds the gross amount it is taken from.
pub proof fn lemma_post_graduation_tax(m: Market, now: i64, gross: u64)
    ensures
        spec_graduated(m, now).creator_tax_bps == 30,
        spec_graduated(m, now).protocol_tax_bps == 50,
        spec_graduated(m, now).seed_vault_tax_bps == 20,
        tax_amount_of(
            gross,
            spec_graduated(m, now).creator_tax_bps,
            spec_graduated(m, now).protocol_tax_bps,
            spec_graduated(m, now).seed_vault_tax_bps,
        ) == tax_amount_of(gross, 30, 50, 20),
        tax_amount_of(gross, 30, 50, 20) <= gross,
{
    crate::tax::lemma_tax_within_gross(gross, 30, 50, 20);
}

} // verus!
