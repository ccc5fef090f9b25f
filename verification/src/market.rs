//! The market record: configuration and mutable trading state of one
//! bonding-curve market, together with the phase tag and the account
//! references it carries.

use vstd::prelude::*;

verus! {

/// Opaque reference to an account of the host ledger (a 32-byte address).
/// The core never looks inside one; it only stores and hands them back.
#[derive(Clone, Copy, PartialEq, Eq, Debug)]
pub struct AccountId {
    pub bytes: [u8; 32],
}

/// Trading phase of a market. The only transition any operation performs
/// is Bonding -> Perpetual; Paused is reserved for administrative use and
/// nothing specified here enters or leaves it.
#[derive(Clone, Copy, PartialEq, Eq, Structural, Debug)]
pub enum MarketStatus {
    Bonding,
    Perpetual,
    Paused,
}

/// Why an operation was refused. No state is committed when one of these
/// is returned.
#[derive(Clone, Copy, PartialEq, Eq, Structural, Debug)]
pub enum ErrorCode {
    /// The market is not in the bonding phase.
    MarketNotInBonding,
    /// A trade amount was zero.
    InvalidAmount,
    /// The graduation thresholds are not all met.
    GraduationConditionsNotMet,
    /// A balance was too small for the requested transfer.
    InsufficientBalance,
    /// The market is paused.
    MarketPaused,
    /// A checked multiply, add or subtract left the 64-bit range, or a
    /// computed tax exceeded the gross amount it was taken from.
    ArithmeticError,
    /// A curve divisor was zero (a zero price, or a zero total supply).
    DivisionByZero,
}

/// One bonding-curve market: identity, curve state, tax configuration,
/// phase, accounting and graduation thresholds.
#[derive(Clone, PartialEq, Eq, Debug)]
pub struct Market {
    pub authority: AccountId,
    pub name: String,
    pub symbol: String,
    pub token_mint: AccountId,
    pub token_vault: AccountId,
    pub sol_vault: AccountId,
    /// Tokens remaining in the vault, available for sale.
    pub current_supply: u64,
    /// Constant after initialization.
    pub total_supply: u64,
    /// Fixed-point price at which the curve started.
    pub start_price: u64,
    /// Fixed-point price that drives all trade math.
    pub current_price: u64,
    pub creator_tax_bps: u16,
    pub protocol_tax_bps: u16,
    pub seed_vault_tax_bps: u16,
    pub status: MarketStatus,
    /// Seconds since epoch at initialization.
    pub created_at: i64,
    /// Set exactly once, on the Bonding -> Perpetual transition.
    pub graduated_at: Option<i64>,
    /// Cumulative gross input value over all buys and sells.
    pub total_volume: u64,
    pub total_tax_collected: u64,
    /// Never changed by any operation here; counting holders belongs to
    /// an external collaborator.
    pub holder_count: u32,
    /// Volume threshold for graduation.
    pub graduation_liquidity: u64,
    pub graduation_holders: u32,
    pub graduation_age_hours: u32,
    /// Single fixed recipient of collected taxes, injected at creation.
    pub tax_destination: AccountId,
}

} // verus!
