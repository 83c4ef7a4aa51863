//! The bot's settings.
use vstd::prelude::*;

verus! {

/// Settings of the bot: credentials, the two markets of the event on each
/// platform, and how to trade.
pub struct Config {
    pub kalshi_api_key_id: String,
    pub kalshi_pem_path: String,
    pub polymarket_private_key: String,
    /// Kalshi market ticker for outcome A (e.g., KXNCAAMBGAME-26FEB23LOUUNC-LOU)
    pub kalshi_market_ticker_a: String,
    /// Kalshi market ticker for outcome B (e.g., KXNCAAMBGAME-26FEB23LOUUNC-UNC)
    pub kalshi_market_ticker_b: String,
    pub polymarket_asset_id_a: String,
    pub polymarket_asset_id_b: String,
    /// Polymarket signature type code (0: EOA, 1: proxy, 2: Gnosis safe).
    pub polymarket_signature_type: u8,
    /// Number of contracts bought on each leg.
    pub trade_quantity: u64,
    /// Stop after the first opportunity that was acted on.
    pub exit_after_first_trade: bool,
}

} // verus!
