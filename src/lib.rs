//! Derived metrics and report text for a token's market data: fixed-point
//! prices and amounts, holder tiers, token age, and the layout of the report
//! message.

pub mod address;
pub mod age;
pub mod fixed;
pub mod numtext;
pub mod parse;
pub mod pool_liquidity;
pub mod pools;
pub mod report;
pub mod tiers;
pub mod token_audit;
pub mod token_holders;
pub mod token_info;
pub mod token_overview;
pub mod token_pool;
pub mod token_price_history;
pub mod token_price_info;
pub mod token_top50_holders;
