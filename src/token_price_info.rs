//! Supply and valuation of a token; amounts in fixed-point units.
use vstd::prelude::*;

verus! {

#[derive(Default, Debug, Clone)]
pub struct TokenPriceInfo {
    pub status_code: i32,
    pub data: TokenPriceInfoData,
}

#[derive(Default, Debug, Clone)]
pub struct TokenPriceInfoData {
    pub total_supply: i128,
    pub mcap: Option<i128>,
    pub fdv: i128,
    pub holders: i32,
}

} // verus!
