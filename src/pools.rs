//! Paging through a token's pools and adding up their liquidity.
use vstd::prelude::*;
use crate::fixed::CAP;
use crate::pool_liquidity::PoolLiquidity;
use crate::token_pool::TokenPooldata;

verus! {

/// The page to ask for after `data`, or `None` when `data` is the last page
/// or `fetched` pages have reached `max_pages`.
pub open spec fn next_page_of(data: TokenPooldata, fetched: nat, max_pages: nat) -> Option<i32> {
    if data.page >= data.total_pages || fetched >= max_pages {
        None
    } else {
        Some((data.page + 1) as i32)
    }
}

/// Decides whether paging goes on; the bound `max_pages` ends it even when
/// the page numbers never reach the total.
pub fn next_page(data: &TokenPooldata, fetched: u32, max_pages: u32) -> (r: Option<i32>)
    ensures
        r == next_page_of(*data, fetched as nat, max_pages as nat),
{
    if data.page >= data.total_pages || fetched >= max_pages {
        None
    } else {
        Some(data.page + 1)
    }
}

/// A pool's liquidity; an absent or negative figure counts as zero.
pub open spec fn pool_value(p: PoolLiquidity) -> int {
    match p.data.liquidity {
        Some(v) => if v > 0 {
            if v > CAP {
                CAP as int
            } else {
                v as int
            }
        } else {
            0
        },
        None => 0,
    }
}

/// The sum of the pools' liquidity, held at `CAP` at most.
pub open spec fn liquidity_total(ps: Seq<PoolLiquidity>) -> int
    decreases ps.len(),
{
    if ps.len() == 0 {
        0
    } else {
        let t = liquidity_total(ps.drop_last()) + pool_value(ps.last());
        if t > CAP {
            CAP as int
        } else {
            t
        }
    }
}

fn pool_value_of(p: &PoolLiquidity) -> (r: i128)
    ensures
        r == pool_value(*p),
{
    match p.data.liquidity {
        Some(v) => if v > 0 {
            if v > CAP {
                CAP
            } else {
                v
            }
        } else {
            0
        },
        None => 0,
    }
}

/// Adds up the liquidity of the pools; see `liquidity_total`.
pub fn total_liquidity(pools: &Vec<PoolLiquidity>) -> (r: i128)
    ensures
        r == liquidity_total(pools@),
        0 <= r <= CAP,
{
    let mut total: i128 = 0;
    let mut i: usize = 0;
    while i < pools.len()
        invariant
            i <= pools@.len(),
            total == liquidity_total(pools@.take(i as int)),
            0 <= total <= CAP,
        decreases pools@.len() - i,
    {
        assert(pools@.take(i + 1).drop_last() =~= pools@.take(i as int));
        let t = total + pool_value_of(&pools[i]);
        total = if t > CAP {
            CAP
        } else {
            t
        };
        i = i + 1;
    }
    assert(pools@.take(i as int) =~= pools@);
    total
}

} // verus!
