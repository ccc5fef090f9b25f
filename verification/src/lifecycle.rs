//! Market lifecycle controller: the four operations — initialize, buy,
//! sell, graduate — as pure state transitions on one market record.
//!
//! Each operation is specified by a functional model that names the
//! exact outcome for every input: either the updated market and the
//! event to emit, or the error that refuses the request. On an error no
//! field of the market changes, so a host that aborts the surrounding
//! ledger transfers keeps the all-or-nothing commit the model promises.
//!
//! The host environment around these operations supplies the clock
//! reading, performs the ledger transfers named by the returned event,
//! and emits the event; none of that changes the committed state beyond
//! what the model says.

use vstd::prelude::*;

use crate::curve::buy_new_price;
use crate::curve::buy_tokens_out;
use crate::curve::compute_buy;
use crate::curve::compute_sell;
use crate::curve::sell_new_price;
use crate::curve::sell_sol_before_tax;
use crate::events::MarketGraduated;
use crate::events::TokenBought;
use crate::events::TokenSold;
use crate::graduation::check_graduation_conditions;
use crate::graduation::apply_graduation;
use crate::graduation::should_graduate;
use crate::graduation::spec_graduated;
use crate::graduation::spec_should_graduate;
use crate::market::AccountId;
use crate::market::ErrorCode;
use crate::market::Market;
use crate::market::MarketStatus;
use crate::tax::compute_tax;
use crate::tax::tax_amount_of;

verus! {

/// Volume threshold every new market starts with.
pub const INITIAL_GRADUATION_LIQUIDITY: u64 = 80;

/// Holder threshold every new market starts with.
pub const INITIAL_GRADUATION_HOLDERS: u32 = 1;

/// Age threshold, in hours, every new market starts with.
pub const INITIAL_GRADUATION_AGE_HOURS: u32 = 0;

/// The market record a fresh initialization produces: the full supply in
/// the vault, the price at its start value, the given tax rates, the
/// fixed graduation thresholds, and empty accounting.
pub open spec fn spec_initialized_market(
    authority: AccountId,
    name: String,
    symbol: String,
    token_mint: AccountId,
    token_vault: AccountId,
    sol_vault: AccountId,
    tax_destination: AccountId,
    initial_supply: u64,
    start_price: u64,
    creator_tax_bps: u16,
    protocol_tax_bps: u16,
    seed_vault_tax_bps: u16,
    now: i64,
) -> Market {
    Market {
        authority,
        name,
        symbol,
        token_mint,
        token_vault,
        sol_vault,
        current_supply: initial_supply,
        total_supply: initial_supply,
        start_price,
        current_price: start_price,
        creator_tax_bps,
        protocol_tax_bps,
        seed_vault_tax_bps,
        status: MarketStatus::Bonding,
        created_at: now,
        graduated_at: None,
        total_volume: 0,
        total_tax_collected: 0,
        holder_count: 0,
        graduation_liquidity: INITIAL_GRADUATION_LIQUIDITY,
        graduation_holders: INITIAL_GRADUATION_HOLDERS,
        graduation_age_hours: INITIAL_GRADUATION_AGE_HOURS,
        tax_destination,
    }
}

/// What a buy of `sol_amount` does to market `m` at time `now`: the
/// phase and amount guards, the curve and tax arithmetic with every
/// 64-bit failure named, the committed state, and the implicit
/// graduation check on the committed state.
pub open spec fn spec_buy(
    m: Market,
    market_key: AccountId,
    user: AccountId,
    sol_amount: u64,
    now: i64,
) -> Result<(Market, TokenBought), ErrorCode> {
    let tax = tax_amount_of(sol_amount, m.creator_tax_bps, m.protocol_tax_bps, m.seed_vault_tax_bps);
    if !(m.status is Bonding) {
        Err(ErrorCode::MarketNotInBonding)
    } else if sol_amount == 0 {
        Err(ErrorCode::InvalidAmount)
    } else if m.current_price == 0 {
        Err(ErrorCode::DivisionByZero)
    } else if buy_new_price(sol_amount, m.current_price) > u64::MAX {
        Err(ErrorCode::ArithmeticError)
    } else if buy_tokens_out(sol_amount, m.current_price) > u64::MAX {
        Err(ErrorCode::ArithmeticError)
    } else if tax > sol_amount {
        Err(ErrorCode::ArithmeticError)
    } else if buy_tokens_out(sol_amount, m.current_price) > m.current_supply {
        Err(ErrorCode::ArithmeticError)
    } else if m.total_volume + sol_amount > u64::MAX {
        Err(ErrorCode::ArithmeticError)
    } else if m.total_tax_collected + tax > u64::MAX {
        Err(ErrorCode::ArithmeticError)
    } else {
        let traded = Market {
            current_supply: (m.current_supply - buy_tokens_out(sol_amount, m.current_price)) as u64,
            current_price: buy_new_price(sol_amount, m.current_price) as u64,
            total_volume: (m.total_volume + sol_amount) as u64,
            total_tax_collected: (m.total_tax_collected + tax) as u64,
            ..m
        };
        let settled = if spec_should_graduate(traded, now) {
            spec_graduated(traded, now)
        } else {
            traded
        };
        let event = TokenBought {
            market: market_key,
            user,
            sol_amount,
            tokens_received: buy_tokens_out(sol_amount, m.current_price) as u64,
            new_price: buy_new_price(sol_amount, m.current_price) as u64,
            tax_amount: tax as u64,
        };
        Ok((settled, event))
    }
}

/// What a sell of `token_amount` does to market `m`: the phase and
/// amount guards, the curve and tax arithmetic with every 64-bit failure
/// named, and the committed state, with the new price never below the
/// start price. A sell never evaluates graduation; only the buy path
/// does.
pub open spec fn spec_sell(
    m: Market,
    market_key: AccountId,
    user: AccountId,
    token_amount: u64,
) -> Result<(Market, TokenSold), ErrorCode> {
    let gross = sell_sol_before_tax(token_amount, m.current_price);
    if !(m.status is Bonding) {
        Err(ErrorCode::MarketNotInBonding)
    } else if token_amount == 0 {
        Err(ErrorCode::InvalidAmount)
    } else if gross > u64::MAX {
        Err(ErrorCode::ArithmeticError)
    } else if m.current_price > m.start_price && m.total_supply == 0 {
        Err(ErrorCode::DivisionByZero)
    } else if tax_amount_of(gross as u64, m.creator_tax_bps, m.protocol_tax_bps, m.seed_vault_tax_bps) > gross {
        Err(ErrorCode::ArithmeticError)
    } else if m.current_supply + token_amount > u64::MAX {
        Err(ErrorCode::ArithmeticError)
    } else if m.total_volume + gross > u64::MAX {
        Err(ErrorCode::ArithmeticError)
    } else {
        let tax = tax_amount_of(gross as u64, m.creator_tax_bps, m.protocol_tax_bps, m.seed_vault_tax_bps);
        if m.total_tax_collected + tax > u64::MAX {
            Err(ErrorCode::ArithmeticError)
        } else {
            let committed = Market {
                current_supply: (m.current_supply + token_amount) as u64,
                current_price: sell_new_price(token_amount, m.current_price, m.start_price, m.total_supply) as u64,
                total_volume: (m.total_volume + gross) as u64,
                total_tax_collected: (m.total_tax_collected + tax) as u64,
                ..m
            };
            let event = TokenSold {
                market: market_key,
                user,
                token_amount,
                sol_received: (gross - tax) as u64,
                new_price: sell_new_price(token_amount, m.current_price, m.start_price, m.total_supply) as u64,
                tax_amount: tax as u64,
            };
            Ok((committed, event))
        }
    }
}

/// What an explicit graduation request does to market `m` at time `now`:
/// refused outside the bonding phase or while any threshold is unmet,
/// and otherwise the one-way transition, reported at the price the
/// market graduated with.
pub open spec fn spec_graduate(
    m: Market,
    market_key: AccountId,
    now: i64,
) -> Result<(Market, MarketGraduated), ErrorCode> {
    if !(m.status is Bonding) {
        Err(ErrorCode::MarketNotInBonding)
    } else if !spec_should_graduate(m, now) {
        Err(ErrorCode::GraduationConditionsNotMet)
    } else {
        let event = MarketGraduated {
            market: market_key,
            graduated_at: now,
            final_price: m.current_price,
        };
        Ok((spec_graduated(m, now), event))
    }
}

/// Creates a new market record at time `now`. Identity uniqueness of
/// (name, symbol) is the storage collaborator's concern; this only
/// builds the record.
pub fn initialize_market(
    authority: AccountId,
    name: String,
    symbol: String,
    token_mint: AccountId,
    token_vault: AccountId,
    sol_vault: AccountId,
    tax_destination: AccountId,
    initial_supply: u64,
    start_price: u64,
    creator_tax_bps: u16,
    protocol_tax_bps: u16,
    seed_vault_tax_bps: u16,
    now: i64,
) -> (m: Market)
    ensures
        m == spec_initialized_market(
            authority, name, symbol, token_mint, token_vault, sol_vault, tax_destination,
            initial_supply, start_price, creator_tax_bps, protocol_tax_bps, seed_vault_tax_bps, now,
        ),
{
    Market {
        authority,
        name,
        symbol,
        token_mint,
        token_vault,
        sol_vault,
        current_supply: initial_supply,
        total_supply: initial_supply,
        start_price,
        current_price: start_price,
        creator_tax_bps,
        protocol_tax_bps,
        seed_vault_tax_bps,
        status: MarketStatus::Bonding,
        created_at: now,
        graduated_at: None,
        total_volume: 0,
        total_tax_collected: 0,
        holder_count: 0,
        graduation_liquidity: INITIAL_GRADUATION_LIQUIDITY,
        graduation_holders: INITIAL_GRADUATION_HOLDERS,
        graduation_age_hours: INITIAL_GRADUATION_AGE_HOURS,
        tax_destination,
    }
}

/// Buys tokens on the curve. On success the market carries the committed
/// trade (and, if the thresholds are now met, the graduation), and the
/// returned event names the transfers the host ledger must perform; on
/// any error the market is exactly as it was.
pub fn buy_tokens(
    market: &mut Market,
    market_key: AccountId,
    user: AccountId,
    sol_amount: u64,
    now: i64,
) -> (r: Result<TokenBought, ErrorCode>)
    ensures
        (match spec_buy(*old(market), market_key, user, sol_amount, now) {
            Ok(outcome) => r == Ok::<TokenBought, ErrorCode>(outcome.1) && *final(market) == outcome.0,
            Err(e) => r == Err::<TokenBought, ErrorCode>(e) && *final(market) == *old(market),
        }),
        old(market).status is Perpetual ==> final(market).status is Perpetual,
        final(market).status == old(market).status
            || (old(market).status is Bonding && final(market).status is Perpetual),
        final(market).graduated_at == old(market).graduated_at
            || (old(market).status is Bonding && final(market).status is Perpetual
                && final(market).graduated_at == Some(now)),
        r is Ok ==> final(market).current_price >= old(market).current_price,
{
    if !(market.status == MarketStatus::Bonding) {
        return Err(ErrorCode::MarketNotInBonding);
    }
    if sol_amount == 0 {
        return Err(ErrorCode::InvalidAmount);
    }
    proof {
        crate::curve::lemma_buy_price_monotonic(sol_amount, market.current_price);
    }
    let priced: (u64, u64) = match compute_buy(sol_amount, market.current_price) {
        Ok(p) => p,
        Err(e) => {
            return Err(e);
        },
    };
    let tokens_received: u64 = priced.0;
    let new_price: u64 = priced.1;
    let taxed: (u64, u64) = match compute_tax(
        sol_amount,
        market.creator_tax_bps,
        market.protocol_tax_bps,
        market.seed_vault_tax_bps,
    ) {
        Ok(t) => t,
        Err(e) => {
            return Err(e);
        },
    };
    let tax_amount: u64 = taxed.0;
    if tokens_received > market.current_supply {
        return Err(ErrorCode::ArithmeticError);
    }
    if sol_amount > u64::MAX - market.total_volume {
        return Err(ErrorCode::ArithmeticError);
    }
    if tax_amount > u64::MAX - market.total_tax_collected {
        return Err(ErrorCode::ArithmeticError);
    }
    market.current_supply = market.current_supply - tokens_received;
    market.current_price = new_price;
    market.total_volume = market.total_volume + sol_amount;
    market.total_tax_collected = market.total_tax_collected + tax_amount;
    check_graduation_conditions(market, now);
    Ok(TokenBought {
        market: market_key,
        user,
        sol_amount,
        tokens_received,
        new_price,
        tax_amount,
    })
}

/// Sells tokens back to the curve. On success the market carries the
/// committed trade and the event names the transfers the host ledger
/// must perform; on any error the market is exactly as it was. From a
/// price at or above the start price, the committed price never rises
/// and never falls below the start price.
pub fn sell_tokens(
    market: &mut Market,
    market_key: AccountId,
    user: AccountId,
    token_amount: u64,
) -> (r: Result<TokenSold, ErrorCode>)
    ensures
        (match spec_sell(*old(market), market_key, user, token_amount) {
            Ok(outcome) => r == Ok::<TokenSold, ErrorCode>(outcome.1) && *final(market) == outcome.0,
            Err(e) => r == Err::<TokenSold, ErrorCode>(e) && *final(market) == *old(market),
        }),
        final(market).status == old(market).status,
        final(market).graduated_at == old(market).graduated_at,
        r is Ok && old(market).start_price <= old(market).current_price
            ==> old(market).start_price <= final(market).current_price <= old(market).current_price,
{
    if !(market.status == MarketStatus::Bonding) {
        return Err(ErrorCode::MarketNotInBonding);
    }
    if token_amount == 0 {
        return Err(ErrorCode::InvalidAmount);
    }
    let priced: (u64, u64) = match compute_sell(
        token_amount,
        market.current_price,
        market.start_price,
        market.total_supply,
    ) {
        Ok(p) => p,
        Err(e) => {
            return Err(e);
        },
    };
    let sol_before_tax: u64 = priced.0;
    let new_price: u64 = priced.1;
    let taxed: (u64, u64) = match compute_tax(
        sol_before_tax,
        market.creator_tax_bps,
        market.protocol_tax_bps,
        market.seed_vault_tax_bps,
    ) {
        Ok(t) => t,
        Err(e) => {
            return Err(e);
        },
    };
    let tax_amount: u64 = taxed.0;
    let net_sol: u64 = taxed.1;
    if token_amount > u64::MAX - market.current_supply {
        return Err(ErrorCode::ArithmeticError);
    }
    if sol_before_tax > u64::MAX - market.total_volume {
        return Err(ErrorCode::ArithmeticError);
    }
    if tax_amount > u64::MAX - market.total_tax_collected {
        return Err(ErrorCode::ArithmeticError);
    }
    market.current_supply = market.current_supply + token_amount;
    market.current_price = new_price;
    market.total_volume = market.total_volume + sol_before_tax;
    market.total_tax_collected = market.total_tax_collected + tax_amount;
    proof {
        if old(market).start_price <= old(market).current_price {
            crate::curve::lemma_sell_price_floor(
                token_amount,
                old(market).current_price,
                old(market).start_price,
                old(market).total_supply,
            );
        }
    }
    Ok(TokenSold {
        market: market_key,
        user,
        token_amount,
        sol_received: net_sol,
        new_price,
        tax_amount,
    })
}

/// Explicitly graduates a bonding market whose thresholds are all met.
/// On success the market is perpetual with the reduced tax rates; on any
/// error it is exactly as it was.
pub fn graduate_market(
    market: &mut Market,
    market_key: AccountId,
    now: i64,
) -> (r: Result<MarketGraduated, ErrorCode>)
    ensures
        (match spec_graduate(*old(market), market_key, now) {
            Ok(outcome) => r == Ok::<MarketGraduated, ErrorCode>(outcome.1) && *final(market) == outcome.0,
            Err(e) => r == Err::<MarketGraduated, ErrorCode>(e) && *final(market) == *old(market),
        }),
        old(market).status is Perpetual ==> final(market).status is Perpetual,
        final(market).status == old(market).status
            || (old(market).status is Bonding && final(market).status is Perpetual),
        final(market).graduated_at == old(market).graduated_at
            || (old(market).status is Bonding && final(market).status is Perpetual
                && final(market).graduated_at == Some(now)),
{
    if !(market.status == MarketStatus::Bonding) {
        return Err(ErrorCode::MarketNotInBonding);
    }
    let final_price: u64 = market.current_price;
    if !should_graduate(market, now) {
        return Err(ErrorCode::GraduationConditionsNotMet);
    }
    apply_graduation(market, now);
    Ok(MarketGraduated {
        market: market_key,
        graduated_at: now,
        final_price,
    })
}

} // verus!
