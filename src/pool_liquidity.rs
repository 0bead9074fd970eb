//! Reserves and liquidity of one pool; amounts in fixed-point units.
use vstd::prelude::*;

verus! {

#[derive(Default, Debug, Clone)]
pub struct PoolLiquidity {
    pub status_code: i32,
    pub data: PoolLiquidityData,
}

#[derive(Default, Debug, Clone)]
pub struct PoolLiquidityData {
    pub reserves: PoolLiquidityReserves,
    pub liquidity: Option<i128>,
}

#[derive(Default, Debug, Clone)]
pub struct PoolLiquidityReserves {
    pub main_token: i128,
    pub side_token: i128,
}

} // verus!
