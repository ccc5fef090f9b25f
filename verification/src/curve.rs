//! Bonding-curve pricing engine: the linear-impact formulas that map a
//! buy or sell amount to an output quantity and a new curve price.
//!
//! The two directions are independently defined formulas, not inverses
//! of one another: a buy moves the price by an impact scaled from the
//! value spent against the current price, and sizes its output with the
//! post-move price; a sell moves the price by an impact scaled from the
//! tokens returned against the total supply, and never below the start
//! price.

use vstd::prelude::*;

use crate::market::ErrorCode;

verus! {

/// How far a buy of `sol_amount` moves the price upward:
/// floor(sol_amount * current_price / 1_000_000).
pub open spec fn buy_price_increase(sol_amount: u64, current_price: u64) -> int {
    (sol_amount * current_price) / 1_000_000
}

/// The price after a buy: the current price plus its impact.
pub open spec fn buy_new_price(sol_amount: u64, current_price: u64) -> int {
    current_price + buy_price_increase(sol_amount, current_price)
}

/// Tokens handed out for a buy, sized at the post-move price:
/// floor(sol_amount * 1_000_000 / new_price).
pub open spec fn buy_tokens_out(sol_amount: u64, current_price: u64) -> int
    recommends
        buy_new_price(sol_amount, current_price) > 0,
{
    (sol_amount * 1_000_000) / buy_new_price(sol_amount, current_price)
}

/// Gross value owed for a sell, before tax:
/// floor(token_amount * current_price / 1_000_000).
pub open spec fn sell_sol_before_tax(token_amount: u64, current_price: u64) -> int {
    (token_amount * current_price) / 1_000_000
}

/// How far a sell of `token_amount` moves the price downward:
/// floor(token_amount * current_price / total_supply).
pub open spec fn sell_price_decrease(token_amount: u64, current_price: u64, total_supply: u64) -> int
    recommends
        total_supply > 0,
{
    (token_amount * current_price) / (total_supply as int)
}

/// The price after a sell: reduced by its impact while the price stands
/// above the start price, and never below the start price — an impact
/// larger than the gap down to the start price is clamped there, the
/// floor policy of the curve. At or under the start price the price is
/// pinned to the start price.
pub open spec fn sell_new_price(token_amount: u64, current_price: u64, start_price: u64, total_supply: u64) -> int
    recommends
        current_price > start_price ==> total_supply > 0,
{
    if current_price > start_price {
        if sell_price_decrease(token_amount, current_price, total_supply) > current_price - start_price {
            start_price as int
        } else {
            current_price - sell_price_decrease(token_amount, current_price, total_supply)
        }
    } else {
        start_price as int
    }
}

/// Prices a buy: returns the tokens handed out and the new price.
///
/// Fails with `DivisionByZero` on a zero current price (an invalid
/// initial condition), and with `ArithmeticError` where the new price or
/// the token output would leave the 64-bit range.
pub fn compute_buy(sol_amount: u64, current_price: u64) -> (r: Result<(u64, u64), ErrorCode>)
    ensures
        current_price == 0 ==> r == Err::<(u64, u64), ErrorCode>(ErrorCode::DivisionByZero),
        current_price > 0 && buy_new_price(sol_amount, current_price) > u64::MAX
            ==> r == Err::<(u64, u64), ErrorCode>(ErrorCode::ArithmeticError),
        current_price > 0 && buy_new_price(sol_amount, current_price) <= u64::MAX
            && buy_tokens_out(sol_amount, current_price) > u64::MAX
            ==> r == Err::<(u64, u64), ErrorCode>(ErrorCode::ArithmeticError),
        current_price > 0 && buy_new_price(sol_amount, current_price) <= u64::MAX
            && buy_tokens_out(sol_amount, current_price) <= u64::MAX
            ==> (r matches Ok(out)
                && out.0 == buy_tokens_out(sol_amount, current_price)
                && out.1 == buy_new_price(sol_amount, current_price)),
{
    proof {
        assert(sol_amount as int * current_price as int <= u64::MAX as int * u64::MAX as int) by (nonlinear_arith)
            requires
                sol_amount <= u64::MAX,
                current_price <= u64::MAX,
        ;
        assert(0 <= sol_amount as int * current_price as int) by (nonlinear_arith)
            requires
                0 <= sol_amount,
                0 <= current_price,
        ;
        vstd::arithmetic::div_mod::lemma_div_is_ordered(
            0,
            sol_amount as int * current_price as int,
            1_000_000,
        );
    }
    let increase: u128 = (sol_amount as u128 * current_price as u128) / 1_000_000;
    let new_price_wide: u128 = current_price as u128 + increase;
    if new_price_wide == 0 {
        return Err(ErrorCode::DivisionByZero);
    }
    if new_price_wide > u64::MAX as u128 {
        return Err(ErrorCode::ArithmeticError);
    }
    let tokens_wide: u128 = (sol_amount as u128 * 1_000_000) / new_price_wide;
    if tokens_wide > u64::MAX as u128 {
        return Err(ErrorCode::ArithmeticError);
    }
    Ok((tokens_wide as u64, new_price_wide as u64))
}

/// Prices a sell: returns the gross value owed before tax and the new
/// price, which never falls below the start price.
///
/// Fails with `ArithmeticError` where the gross value would leave the
/// 64-bit range, and with `DivisionByZero` where the impact divisor,
/// the total supply, is zero while the price stands above the start
/// price.
pub fn compute_sell(token_amount: u64, current_price: u64, start_price: u64, total_supply: u64) -> (r: Result<(u64, u64), ErrorCode>)
    ensures
        sell_sol_before_tax(token_amount, current_price) > u64::MAX
            ==> r == Err::<(u64, u64), ErrorCode>(ErrorCode::ArithmeticError),
        sell_sol_before_tax(token_amount, current_price) <= u64::MAX
            && current_price > start_price && total_supply == 0
            ==> r == Err::<(u64, u64), ErrorCode>(ErrorCode::DivisionByZero),
        sell_sol_before_tax(token_amount, current_price) <= u64::MAX
            && (current_price <= start_price || total_supply > 0)
            ==> (r matches Ok(out)
                && out.0 == sell_sol_before_tax(token_amount, current_price)
                && out.1 == sell_new_price(token_amount, current_price, start_price, total_supply)),
{
    proof {
        assert(token_amount as int * current_price as int <= u64::MAX as int * u64::MAX as int) by (nonlinear_arith)
            requires
                token_amount <= u64::MAX,
                current_price <= u64::MAX,
        ;
        assert(0 <= token_amount as int * current_price as int) by (nonlinear_arith)
            requires
                0 <= token_amount,
                0 <= current_price,
        ;
        vstd::arithmetic::div_mod::lemma_div_is_ordered(
            0,
            token_amount as int * current_price as int,
            1_000_000,
        );
    }
    let gross_wide: u128 = (token_amount as u128 * current_price as u128) / 1_000_000;
    if gross_wide > u64::MAX as u128 {
        return Err(ErrorCode::ArithmeticError);
    }
    let gross: u64 = gross_wide as u64;
    if current_price > start_price {
        if total_supply == 0 {
            return Err(ErrorCode::DivisionByZero);
        }
        let decrease_wide: u128 = (token_amount as u128 * current_price as u128) / total_supply as u128;
        if decrease_wide > (current_price - start_price) as u128 {
            Ok((gross, start_price))
        } else {
            Ok((gross, current_price - decrease_wide as u64))
        }
    } else {
        Ok((gross, start_price))
    }
}

/// A buy never lowers the price, and strictly raises it whenever the
/// value spent carries at least one unit of impact (the product of the
/// amount and the price reaches the fixed-point scale). Below that the
/// impact floors to zero and the price is unchanged.
pub proof fn lemma_buy_price_monotonic(sol_amount: u64, current_price: u64)
    ensures
        buy_new_price(sol_amount, current_price) >= current_price,
        sol_amount * current_price >= 1_000_000 ==> buy_new_price(sol_amount, current_price) > current_price,
{
    assert(0 <= sol_amount as int * current_price as int) by (nonlinear_arith)
        requires
            0 <= sol_amount,
            0 <= current_price,
    ;
    vstd::arithmetic::div_mod::lemma_div_is_ordered(0, sol_amount as int * current_price as int, 1_000_000);
    if sol_amount * current_price >= 1_000_000 {
        vstd::arithmetic::div_mod::lemma_div_is_ordered(
            1_000_000,
            sol_amount as int * current_price as int,
            1_000_000,
        );
    }
}

/// The sell price floor: starting from a price at or above the start
/// price, any sell lands the price between the start price and the
/// current price, whatever the token amount — an impact larger than the
/// gap is clamped at the start price.
pub proof fn lemma_sell_price_floor(token_amount: u64, current_price: u64, start_price: u64, total_supply: u64)
    requires
        start_price <= current_price,
        current_price > start_price ==> total_supply > 0,
    ensures
        start_price <= sell_new_price(token_amount, current_price, start_price, total_supply) <= current_price,
{
    if current_price > start_price {
        assert(0 <= token_amount as int * current_price as int) by (nonlinear_arith)
            requires
                0 <= token_amount,
                0 <= current_price,
        ;
        vstd::arithmetic::div_mod::lemma_div_is_ordered(
            0,
            token_amount as int * current_price as int,
            total_supply as int,
        );
    }
}

/// Selling while the price sits exactly at the start price leaves the
/// price at the start price, whatever the token amount.
pub proof fn lemma_sell_at_start_price(token_amount: u64, price: u64, total_supply: u64)
    ensures
        sell_new_price(token_amount, price, price, total_supply) == price,
{
}

} // verus!
