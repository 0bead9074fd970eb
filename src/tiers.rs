//! Holder tiers by USD value, tier counts, the top-10 sum and the holder map.
use vstd::prelude::*;
use crate::fixed::{CAP, ONE, shifted_units, shift_mul};
use crate::numtext::{decimal_text, decimal_to_text};
use crate::parse::{raw_integer, parse_raw_integer};
use crate::token_holders;
use crate::token_top50_holders;

verus! {

/// Holder tier by the USD value of the balance.
#[derive(PartialEq, Eq, Structural, Clone, Copy, Debug)]
pub enum Tier {
    /// above $100K
    Whale,
    /// above $50K, up to $100K
    LargeFish,
    /// above $10K, up to $50K
    BigFish,
    /// above $1K, up to $10K
    SmallFish,
    /// up to $1K
    Shrimp,
}

pub open spec fn tier_of(usd: int) -> Tier {
    if usd > 100_000 * ONE {
        Tier::Whale
    } else if usd > 50_000 * ONE {
        Tier::LargeFish
    } else if usd > 10_000 * ONE {
        Tier::BigFish
    } else if usd > 1_000 * ONE {
        Tier::SmallFish
    } else {
        Tier::Shrimp
    }
}

/// The tier of a USD value (in units).
pub fn classify(usd: i128) -> (t: Tier)
    ensures
        t == tier_of(usd as int),
{
    if usd > 100_000 * ONE {
        Tier::Whale
    } else if usd > 50_000 * ONE {
        Tier::LargeFish
    } else if usd > 10_000 * ONE {
        Tier::BigFish
    } else if usd > 1_000 * ONE {
        Tier::SmallFish
    } else {
        Tier::Shrimp
    }
}

pub open spec fn tier_glyph(t: Tier) -> Seq<char> {
    match t {
        Tier::Whale => "🐳"@,
        Tier::LargeFish => "🦈"@,
        Tier::BigFish => "🐬"@,
        Tier::SmallFish => "🐟"@,
        Tier::Shrimp => "🦐"@,
    }
}

/// The glyph that stands for a tier in the holder map.
pub fn glyph(t: Tier) -> (r: &'static str)
    ensures
        r@ == tier_glyph(t),
{
    match t {
        Tier::Whale => "🐳",
        Tier::LargeFish => "🦈",
        Tier::BigFish => "🐬",
        Tier::SmallFish => "🐟",
        Tier::Shrimp => "🦐",
    }
}

/// How many holders fall in each tier.
pub struct TierCounts {
    pub whale: usize,
    pub large_fish: usize,
    pub big_fish: usize,
    pub small_fish: usize,
    pub shrimp: usize,
}

/// Holders of `vals` whose tier is `t`.
pub open spec fn count_tier(vals: Seq<int>, t: Tier) -> nat
    decreases vals.len(),
{
    if vals.len() == 0 {
        0
    } else {
        count_tier(vals.drop_last(), t) + if tier_of(vals.last()) == t {
            1nat
        } else {
            0nat
        }
    }
}

pub open spec fn seq_sum(vals: Seq<int>) -> int
    decreases vals.len(),
{
    if vals.len() == 0 {
        0
    } else {
        seq_sum(vals.drop_last()) + vals.last()
    }
}

pub open spec fn entry_values(hs: Seq<token_top50_holders::HolderInfo>) -> Seq<int> {
    hs.map_values(|h: token_top50_holders::HolderInfo| h.usd_amount as int)
}

/// The sum of the first ten values (of all of them, when there are fewer).
pub open spec fn top10_sum(vals: Seq<int>) -> int {
    seq_sum(
        vals.take(
            if vals.len() < 10 {
                vals.len() as int
            } else {
                10
            },
        ),
    )
}

pub open spec fn line_break() -> Seq<char> {
    "\n        "@
}

/// One entry of the holder map: a link to the holder's address, with its
/// value, shown as the tier glyph.
pub open spec fn holder_link(address: Seq<char>, usd: int) -> Seq<char> {
    "<a href=\"https://apescan.io/address/"@ + address + "?Amount="@ + decimal_text(usd) + "\">"@
        + tier_glyph(tier_of(usd)) + "</a>"@
}

/// The holder map: one link per holder, in order, with a line break after
/// every tenth.
pub open spec fn holder_links(hs: Seq<token_top50_holders::HolderInfo>) -> Seq<char>
    decreases hs.len(),
{
    if hs.len() == 0 {
        seq![]
    } else {
        holder_links(hs.drop_last()) + holder_link(hs.last().holder_address@, hs.last().usd_amount as int)
            + if (hs.len() - 1) % 10 == 9 {
            line_break()
        } else {
            seq![]
        }
    }
}

/// What the tiering of a holder list yields.
pub struct HolderSummary {
    pub links: String,
    pub counts: TierCounts,
    pub top10_sum: i128,
}

pub open spec fn summary_of(r: HolderSummary, hs: Seq<token_top50_holders::HolderInfo>) -> bool {
    let vals = entry_values(hs);
    &&& r.links@ == holder_links(hs)
    &&& r.counts.whale == count_tier(vals, Tier::Whale)
    &&& r.counts.large_fish == count_tier(vals, Tier::LargeFish)
    &&& r.counts.big_fish == count_tier(vals, Tier::BigFish)
    &&& r.counts.small_fish == count_tier(vals, Tier::SmallFish)
    &&& r.counts.shrimp == count_tier(vals, Tier::Shrimp)
    &&& r.top10_sum == top10_sum(vals)
}

pub open spec fn values_in_range(hs: Seq<token_top50_holders::HolderInfo>) -> bool {
    forall|i: int| 0 <= i < hs.len() ==> -CAP <= #[trigger] hs[i].usd_amount <= CAP
}

proof fn lemma_sum_bound(vals: Seq<int>)
    requires
        forall|i: int| 0 <= i < vals.len() ==> -CAP <= #[trigger] vals[i] <= CAP,
    ensures
        -CAP * vals.len() <= seq_sum(vals) <= CAP * vals.len(),
    decreases vals.len(),
{
    if vals.len() > 0 {
        let p = vals.drop_last();
        assert forall|i: int| 0 <= i < p.len() implies -CAP <= #[trigger] p[i] <= CAP by {
            assert(p[i] == vals[i]);
        }
        lemma_sum_bound(p);
        assert(vals.last() == vals[vals.len() - 1]);
    }
}

fn add_to_tier(counts: &mut TierCounts, t: Tier)
    requires
        old(counts).whale + old(counts).large_fish + old(counts).big_fish + old(counts).small_fish
            + old(counts).shrimp < usize::MAX,
    ensures
        final(counts).whale == old(counts).whale + if t == Tier::Whale { 1int } else { 0int },
        final(counts).large_fish == old(counts).large_fish + if t == Tier::LargeFish { 1int } else { 0int },
        final(counts).big_fish == old(counts).big_fish + if t == Tier::BigFish { 1int } else { 0int },
        final(counts).small_fish == old(counts).small_fish + if t == Tier::SmallFish { 1int } else { 0int },
        final(counts).shrimp == old(counts).shrimp + if t == Tier::Shrimp { 1int } else { 0int },
{
    match t {
        Tier::Whale => {
            counts.whale = counts.whale + 1;
        },
        Tier::LargeFish => {
            counts.large_fish = counts.large_fish + 1;
        },
        Tier::BigFish => {
            counts.big_fish = counts.big_fish + 1;
        },
        Tier::SmallFish => {
            counts.small_fish = counts.small_fish + 1;
        },
        Tier::Shrimp => {
            counts.shrimp = counts.shrimp + 1;
        },
    }
}

/// Appends the map entry of the holder at position `i`.
fn push_holder_link(links: &mut String, address: &String, usd: i128, i: usize)
    ensures
        final(links)@ == old(links)@ + holder_link(address@, usd as int) + if i % 10 == 9 {
            line_break()
        } else {
            seq![]
        },
{
    links.append("<a href=\"https://apescan.io/address/");
    links.append(address.as_str());
    links.append("?Amount=");
    let amount = decimal_to_text(usd);
    links.append(amount.as_str());
    links.append("\">");
    links.append(glyph(classify(usd)));
    links.append("</a>");
    if i % 10 == 9 {
        links.append("\n        ");
    }
    assert(links@ =~= old(links)@ + holder_link(address@, usd as int) + if i % 10 == 9 {
        line_break()
    } else {
        seq![]
    });
}

/// Tiers the holders in order: counts per tier, the sum of the first ten
/// values, and the holder map.
pub fn classify_and_sum(entries: &Vec<token_top50_holders::HolderInfo>) -> (r: HolderSummary)
    requires
        values_in_range(entries@),
    ensures
        summary_of(r, entries@),
{
    let ghost hs = entries@;
    let ghost vals = entry_values(hs);
    let mut links = String::new();
    let mut counts = TierCounts { whale: 0, large_fish: 0, big_fish: 0, small_fish: 0, shrimp: 0 };
    let mut sum: i128 = 0;
    let mut i: usize = 0;
    while i < entries.len()
        invariant
            hs == entries@,
            vals == entry_values(hs),
            values_in_range(hs),
            i <= hs.len(),
            links@ == holder_links(hs.take(i as int)),
            counts.whale == count_tier(vals.take(i as int), Tier::Whale),
            counts.large_fish == count_tier(vals.take(i as int), Tier::LargeFish),
            counts.big_fish == count_tier(vals.take(i as int), Tier::BigFish),
            counts.small_fish == count_tier(vals.take(i as int), Tier::SmallFish),
            counts.shrimp == count_tier(vals.take(i as int), Tier::Shrimp),
            counts.whale + counts.large_fish + counts.big_fish + counts.small_fish + counts.shrimp == i,
            sum == seq_sum(vals.take(if i < 10 { i as int } else { 10 })),
        decreases hs.len() - i,
    {
        let h = &entries[i];
        let usd = h.usd_amount;
        let ghost before = vals.take(i as int);
        let ghost after = vals.take(i + 1);
        assert(after.drop_last() =~= before);
        assert(after.last() == usd as int);
        assert(hs.take(i + 1).drop_last() =~= hs.take(i as int));
        let t = classify(usd);
        let ghost old_counts = counts;
        add_to_tier(&mut counts, t);
        if i < 10 {
            proof {
                assert forall|j: int| 0 <= j < before.len() implies -CAP <= #[trigger] before[j] <= CAP by {
                    assert(before[j] == vals[j]);
                    assert(vals[j] == hs[j].usd_amount as int);
                }
                lemma_sum_bound(before);
                assert(seq_sum(after) == seq_sum(before) + usd);
            }
            sum = sum + usd;
        }
        push_holder_link(&mut links, &h.holder_address, usd, i);
        i = i + 1;
        assert(hs.take(i as int).last() == hs[i - 1]);
        assert(links@ =~= holder_links(hs.take(i as int)));
    }
    assert(hs.take(i as int) =~= hs);
    assert(vals.take(i as int) =~= vals);
    HolderSummary { links, counts, top10_sum: sum }
}

/// Every holder lands in exactly one tier: the tier counts add up to the
/// number of holders.
pub proof fn lemma_tier_counts_total(vals: Seq<int>)
    ensures
        count_tier(vals, Tier::Whale) + count_tier(vals, Tier::LargeFish) + count_tier(vals, Tier::BigFish)
            + count_tier(vals, Tier::SmallFish) + count_tier(vals, Tier::Shrimp) == vals.len(),
    decreases vals.len(),
{
    if vals.len() > 0 {
        lemma_tier_counts_total(vals.drop_last());
    }
}

/// The top-10 sum is the sum of all values when there are at most ten, and
/// of the first ten otherwise.
pub proof fn lemma_top10_sum(vals: Seq<int>)
    ensures
        vals.len() <= 10 ==> top10_sum(vals) == seq_sum(vals),
        vals.len() > 10 ==> top10_sum(vals) == seq_sum(vals.subrange(0, 10)),
{
    if vals.len() <= 10 {
        assert(vals.take(vals.len() as int) =~= vals);
    }
}

/// Every holder is counted in exactly one tier: the counts of a tiering add
/// up to the number of holders.
pub proof fn lemma_summary_counts_total(r: HolderSummary, hs: Seq<token_top50_holders::HolderInfo>)
    requires
        summary_of(r, hs),
    ensures
        r.counts.whale + r.counts.large_fish + r.counts.big_fish + r.counts.small_fish + r.counts.shrimp
            == hs.len(),
{
    lemma_tier_counts_total(entry_values(hs));
}

/// The top-10 sum of a tiering covers every holder when there are at most
/// ten, and exactly the first ten otherwise.
pub proof fn lemma_summary_top10(r: HolderSummary, hs: Seq<token_top50_holders::HolderInfo>)
    requires
        summary_of(r, hs),
    ensures
        hs.len() <= 10 ==> r.top10_sum == seq_sum(entry_values(hs)),
        hs.len() > 10 ==> r.top10_sum == seq_sum(entry_values(hs.subrange(0, 10))),
{
    let vals = entry_values(hs);
    lemma_top10_sum(vals);
    if hs.len() > 10 {
        assert(vals.subrange(0, 10) =~= entry_values(hs.subrange(0, 10)));
    }
}

// ---------------------------------------------------------------------------
// Raw balances

/// The USD value (in units) of a holder's raw balance, after the decimal
/// shift; a balance that is not a raw integer counts as zero.
pub open spec fn holder_usd(h: token_holders::HolderInfo, price: int, decimals: nat) -> int {
    let raw = match raw_integer(h.balance@) {
        Some(v) => v,
        None => 0,
    };
    shifted_units(raw, decimals, price as nat)
}

/// The USD value of a raw balance given as text; see `holder_usd`.
pub fn balance_usd(balance: &String, price: i128, decimals: u32) -> (r: i128)
    requires
        decimals <= 19,
        0 <= price <= CAP,
    ensures
        r == shifted_units(
            match raw_integer(balance@) {
                Some(v) => v,
                None => 0,
            },
            decimals as nat,
            price as nat,
        ),
        0 <= r <= CAP,
{
    let raw = match parse_raw_integer(balance.as_str()) {
        Some(v) => v,
        None => 0,
    };
    shift_mul(raw, decimals, price)
}

/// The holders with their USD values in place of their raw balances.
pub open spec fn priced(hs: Seq<token_holders::HolderInfo>, price: int, decimals: nat) -> Seq<
    token_top50_holders::HolderInfo,
> {
    hs.map_values(
        |h: token_holders::HolderInfo|
            token_top50_holders::HolderInfo {
                holder_address: h.address,
                usd_amount: holder_usd(h, price, decimals) as i128,
            },
    )
}

/// The number of holders that a cap lets through.
pub open spec fn capped_len(len: nat, cap: nat) -> int {
    if len < cap {
        len as int
    } else {
        cap as int
    }
}

/// Prices the raw balances of the first `cap` holders at `price` units per
/// whole token.
pub fn price_holders(holders: &Vec<token_holders::HolderInfo>, price: i128, decimals: u32, cap: usize) -> (r:
    Vec<token_top50_holders::HolderInfo>)
    requires
        decimals <= 19,
        0 <= price <= CAP,
    ensures
        r@ == priced(holders@.take(capped_len(holders@.len(), cap as nat)), price as int, decimals as nat),
        values_in_range(r@),
{
    let ghost shown = holders@.take(capped_len(holders@.len(), cap as nat));
    let n = if holders.len() < cap {
        holders.len()
    } else {
        cap
    };
    let mut out: Vec<token_top50_holders::HolderInfo> = Vec::new();
    let mut i: usize = 0;
    while i < n
        invariant
            n == shown.len() <= holders@.len(),
            shown == holders@.take(n as int),
            i <= n,
            0 <= price <= CAP,
            decimals <= 19,
            out@ =~= priced(shown, price as int, decimals as nat).take(i as int),
            values_in_range(out@),
        decreases n - i,
    {
        let h = &holders[i];
        let usd = balance_usd(&h.balance, price, decimals);
        out.push(token_top50_holders::HolderInfo { holder_address: h.address.clone(), usd_amount: usd });
        i = i + 1;
        assert(out@ =~= priced(shown, price as int, decimals as nat).take(i as int));
    }
    assert(priced(shown, price as int, decimals as nat).take(n as int) =~= priced(shown, price as int, decimals as nat));
    out
}

/// Tiers the first `cap` holders of a list given with raw balances: each
/// balance is shifted by `decimals` and priced at `price` units per whole
/// token first.
pub fn classify_and_sum_holders(
    holders: &Vec<token_holders::HolderInfo>,
    price: i128,
    decimals: u32,
    cap: usize,
) -> (r: HolderSummary)
    requires
        decimals <= 19,
        0 <= price <= CAP,
    ensures
        summary_of(
            r,
            priced(holders@.take(capped_len(holders@.len(), cap as nat)), price as int, decimals as nat),
        ),
{
    let entries = price_holders(holders, price, decimals, cap);
    classify_and_sum(&entries)
}

} // verus!
