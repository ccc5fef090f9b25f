//! Economic core of a bonding-curve token market: linear price impact on
//! buys and sells, basis-point tax skimming on every trade, and a one-way
//! graduation from the bonding phase to perpetual trading once liquidity,
//! holder and age thresholds are met.

pub mod curve;
pub mod events;
pub mod graduation;
pub mod lifecycle;
pub mod market;
pub mod tax;

pub use lifecycle::buy_tokens;
pub use lifecycle::graduate_market;
pub use lifecycle::initialize_market;
pub use lifecycle::sell_tokens;

pub use curve::compute_buy;
pub use curve::compute_sell;
pub use events::MarketGraduated;
pub use events::TokenBought;
pub use events::TokenSold;
pub use graduation::apply_graduation;
pub use graduation::check_graduation_conditions;
pub use graduation::should_graduate;

pub use market::AccountId;
pub use market::ErrorCode;
pub use market::Market;
pub use market::MarketStatus;
pub use tax::compute_tax;
