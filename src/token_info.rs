//! Token identity record of the token-launch service.
use vstd::prelude::*;

verus! {

/// A token as the launch service describes it. Amounts are raw on-chain
/// integers in decimal text; `price` is a decimal number in native coin.
#[derive(Default, Debug, Clone)]
pub struct TokenInfo {
    pub address: String,
    pub launch_at: Option<String>,
    pub name: String,
    pub symbol: String,
    pub total_supply: String,
    pub total_burned: String,
    pub creator: String,
    pub block_timestamp: Option<String>,
    pub loot_counter: String,
    pub bonding_curve: Option<BondingCurve>,
    pub liquidity: Option<Liquidity>,
    pub is_profane: bool,
    pub details: Option<Details>,
    pub price: String,
}

#[derive(Default, Debug, Clone)]
pub struct BondingCurve {
    pub id: String,
    pub router: String,
    pub virtual_ape_reserve: String,
    pub virtual_token_reserve: String,
    pub real_ape_reserve: String,
    pub real_token_reserve: String,
    pub initial_virtual_ape: String,
    pub final_virtual_ape: String,
    pub trade_fee_percent: String,
    pub total_trade_fees: String,
    pub apx_success_fee: String,
    pub creator_success_fee: String,
    pub king_of_the_hill_timestamp: Option<String>,
}

/// Social links and the creator of a token.
#[derive(Default, Debug, Clone)]
pub struct Details {
    pub telegram: Option<String>,
    pub twitter: Option<String>,
    pub website: Option<String>,
    pub discord: Option<String>,
    pub user: Option<User>,
    pub is_profane: bool,
}

#[derive(Default, Debug, Clone)]
pub struct User {
    pub address: String,
    pub username: Option<String>,
    pub profile: Option<String>,
}

/// The token's trading pair; reserves are raw on-chain integers.
#[derive(Default, Debug, Clone)]
pub struct Liquidity {
    pub pair: String,
    pub router: String,
    pub native_reserve: String,
    pub token_reserve: String,
    pub initial_native_reserve: String,
    pub initial_token_reserve: String,
    pub is_token0: bool,
    pub id: String,
}

} // verus!
