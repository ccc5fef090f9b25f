//! Domain events handed back by the lifecycle operations. Emission is
//! fire-and-forget and belongs to the host environment; the core only
//! states what each event must carry.

use vstd::prelude::*;

use crate::market::AccountId;

verus! {

/// A buy settled: who bought, what was spent, what was received, and the
/// price and tax that resulted.
#[derive(Clone, Copy, PartialEq, Eq, Debug)]
pub struct TokenBought {
    pub market: AccountId,
    pub user: AccountId,
    pub sol_amount: u64,
    pub tokens_received: u64,
    pub new_price: u64,
    pub tax_amount: u64,
}

/// A sell settled: who sold, what was returned, what was paid out, and
/// the price and tax that resulted.
#[derive(Clone, Copy, PartialEq, Eq, Debug)]
pub struct TokenSold {
    pub market: AccountId,
    pub user: AccountId,
    pub token_amount: u64,
    pub sol_received: u64,
    pub new_price: u64,
    pub tax_amount: u64,
}

/// A market graduated to perpetual trading, at this time and price.
#[derive(Clone, Copy, PartialEq, Eq, Debug)]
pub struct MarketGraduated {
    pub market: AccountId,
    pub graduated_at: i64,
    pub final_price: u64,
}

} // verus!
