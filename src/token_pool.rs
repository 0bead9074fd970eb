//! One page of a token's trading pools.
use vstd::prelude::*;

verus! {

#[derive(Default, Debug, Clone)]
pub struct TokenPool {
    pub data: TokenPooldata,
}

/// Page `page` of `total_pages`.
#[derive(Default, Debug, Clone)]
pub struct TokenPooldata {
    pub page: i32,
    pub page_size: i32,
    pub total_pages: i32,
    pub results: Vec<Pool>,
}

#[derive(Default, Debug, Clone)]
pub struct Pool {
    pub creation_block: i32,
    pub creation_time: String,
    pub exchange: Exchange,
    pub main_token: Token,
    pub side_token: Token,
    pub fee: Option<i32>,
    pub address: String,
}

#[derive(Default, Debug, Clone)]
pub struct Token {
    pub address: String,
    pub symbol: String,
    pub name: String,
}

#[derive(Default, Debug, Clone)]
pub struct Exchange {
    pub name: String,
    pub factory: String,
}

} // verus!
