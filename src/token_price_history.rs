//! Current price and price history; every value in fixed-point units.
use vstd::prelude::*;

verus! {

#[derive(Default, Debug, Clone)]
pub struct TokenPriceHistory {
    pub status_code: u32,
    pub data: TokenPriceHistoryData,
}

/// Prices in USD and in native coin, and variations in percent, now and 5
/// minutes, 1, 6 and 24 hours ago; any past point may be absent.
#[derive(Default, Debug, Clone)]
pub struct TokenPriceHistoryData {
    pub price: i128,
    pub price_chain: Option<i128>,
    pub price_5m: Option<i128>,
    pub price_chain_5m: Option<i128>,
    pub variation_5m: Option<i128>,
    pub variation_chain_5m: Option<i128>,
    pub price_1h: Option<i128>,
    pub price_chain_1h: Option<i128>,
    pub variation_1h: Option<i128>,
    pub variation_chain_1h: Option<i128>,
    pub price_6h: Option<i128>,
    pub price_chain_6h: Option<i128>,
    pub variation_6h: Option<i128>,
    pub variation_chain_6h: Option<i128>,
    pub price_24h: Option<i128>,
    pub price_chain_24h: Option<i128>,
    pub variation_24h: Option<i128>,
    pub variation_chain_24h: Option<i128>,
}

} // verus!
