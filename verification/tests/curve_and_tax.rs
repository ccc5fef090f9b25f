use slab_bonding::compute_buy;
use slab_bonding::compute_sell;
use slab_bonding::compute_tax;
use slab_bonding::ErrorCode;

#[test]
fn buy_example_doubles_price_and_halves_output() {
    // A buy of 1_000_000 at price 1_000_000: the impact equals the price,
    // so the price doubles and the output is sized at the doubled price.
    let r = compute_buy(1_000_000, 1_000_000);
    assert_eq!(r, Ok((500_000, 2_000_000)));
}

#[test]
fn buy_small_amount_keeps_price() {
    // An impact below one fixed-point unit floors to zero, so the price
    // does not move.
    let r = compute_buy(1, 999_999);
    assert_eq!(r, Ok((1, 999_999)));
}

#[test]
fn buy_zero_price_is_division_by_zero() {
    assert_eq!(compute_buy(5, 0), Err(ErrorCode::DivisionByZero));
}

#[test]
fn buy_price_overflow_is_arithmetic_error() {
    assert_eq!(compute_buy(u64::MAX, u64::MAX), Err(ErrorCode::ArithmeticError));
}

#[test]
fn buy_never_lowers_price() {
    for sol in [1u64, 999, 1_000_000, 123_456_789] {
        for price in [1u64, 2, 999_999, 1_000_000, 5_000_000] {
            let (_, new_price) = compute_buy(sol, price).unwrap();
            assert!(new_price >= price);
        }
    }
}

#[test]
fn tax_example_fifty_bps() {
    // 20 + 20 + 10 bps on a gross of 1_000_000.
    assert_eq!(compute_tax(1_000_000, 20, 20, 10), Ok((5_000, 995_000)));
}

#[test]
fn tax_plus_net_equals_gross() {
    for gross in [0u64, 1, 9_999, 10_000, 1_000_000, u64::MAX] {
        for rates in [(0u16, 0u16, 0u16), (20, 20, 10), (200, 100, 100), (3333, 3333, 3334)] {
            let (tax, net) = compute_tax(gross, rates.0, rates.1, rates.2).unwrap();
            assert_eq!(tax as u128 + net as u128, gross as u128);
        }
    }
}

#[test]
fn tax_rounds_down() {
    // 50 bps of 1_999 is 9.995, floored to 9.
    assert_eq!(compute_tax(1_999, 20, 20, 10), Ok((9, 1_990)));
}

#[test]
fn tax_at_perpetual_rates_is_one_percent() {
    // The rates every graduation installs: 30 + 50 + 20 = 100 bps.
    assert_eq!(compute_tax(1_000_000, 30, 50, 20), Ok((10_000, 990_000)));
}

#[test]
fn tax_over_hundred_percent_is_arithmetic_error() {
    // 11_000 bps would take more than the gross amount.
    assert_eq!(compute_tax(10_000, 5_000, 5_000, 1_000), Err(ErrorCode::ArithmeticError));
}

#[test]
fn sell_at_start_price_pins_price() {
    // Selling while the price sits at the start price leaves it there,
    // whatever the token amount.
    for tokens in [1u64, 1_000_000, u64::MAX] {
        let r = compute_sell(tokens, 1_000_000, 1_000_000, 1_000_000_000);
        let (_, new_price) = r.unwrap();
        assert_eq!(new_price, 1_000_000);
    }
}

#[test]
fn sell_below_start_price_rises_to_start_price() {
    // The floor branch also catches a price that fell under the start.
    let (_, new_price) = compute_sell(10, 900_000, 1_000_000, 1_000_000_000).unwrap();
    assert_eq!(new_price, 1_000_000);
}

#[test]
fn sell_reduces_price_by_supply_scaled_impact() {
    // 500_000 tokens at price 2_000_000 against a supply of 1_000_000_000:
    // gross = 1_000_000, impact = 1_000, price 2_000_000 -> 1_999_000.
    let r = compute_sell(500_000, 2_000_000, 1_000_000, 1_000_000_000);
    assert_eq!(r, Ok((1_000_000, 1_999_000)));
}

#[test]
fn sell_zero_total_supply_is_division_by_zero() {
    assert_eq!(compute_sell(10, 2_000_000, 1_000_000, 0), Err(ErrorCode::DivisionByZero));
}

#[test]
fn sell_overshooting_impact_clamps_at_start_price() {
    // Against a total supply of 1 the impact dwarfs the price; the
    // floor policy clamps the result at the start price.
    assert_eq!(
        compute_sell(1_000_000_000, 2_000_000, 1_000_000, 1),
        Ok((2_000_000_000, 1_000_000))
    );
}

#[test]
fn sell_impact_larger_than_gap_clamps_at_start_price() {
    // Gross 2_000_000 and impact 2_000, but the price sits only 1 above
    // the start price: the floor wins over the subtraction.
    assert_eq!(
        compute_sell(1_000_000, 2_000_000, 1_999_999, 1_000_000_000),
        Ok((2_000_000, 1_999_999))
    );
}

#[test]
fn sell_gross_overflow_is_arithmetic_error() {
    assert_eq!(
        compute_sell(u64::MAX, u64::MAX, 1, u64::MAX),
        Err(ErrorCode::ArithmeticError)
    );
}
