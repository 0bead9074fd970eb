//! The token report: derived prices and the text layout of the message.
use vstd::prelude::*;
use crate::fixed::{CAP, round_units, round_decimal, shifted_units, shift_mul};
use crate::numtext::{abbreviate, abbreviate_text, decimal_text, decimal_to_text, nat_digits, push_digits};
use crate::parse::{decimal_units, parse_decimal, raw_integer, parse_raw_integer};
use crate::tiers::{
    HolderSummary,
    Tier,
    count_tier,
    entry_values,
    holder_links,
    priced,
    top10_sum,
    classify_and_sum_holders,
    summary_of,
};
use crate::token_audit::TokenAudit;
use crate::token_holders::TokenTopHolders;
use crate::token_info::{Details, Liquidity, TokenInfo};
use crate::token_price_history::TokenPriceHistory;

verus! {

// ---------------------------------------------------------------------------
// Prices

/// Decimals of the tokens that the launch service lists.
pub const TOKEN_DECIMALS: u32 = 18;

/// Holders shown in the holder map at most.
pub const HOLDER_MAP_CAP: usize = 50;

/// A non-negative decimal number in units; anything else counts as zero.
pub open spec fn price_value(s: Seq<char>) -> int {
    match decimal_units(s) {
        Some(v) => if v >= 0 {
            v
        } else {
            0
        },
        None => 0,
    }
}

/// A raw on-chain integer; anything else counts as zero.
pub open spec fn raw_or_zero(s: Seq<char>) -> nat {
    match raw_integer(s) {
        Some(v) => v,
        None => 0,
    }
}

/// The USD price of the native coin from its quote, which the service gives
/// in units of 10^-8 USD.
pub open spec fn native_price_units(s: Seq<char>) -> int {
    price_value(s) / 100_000_000
}

/// The USD price of a token quoted in native coin, rounded to 5 decimals.
pub open spec fn display_price_units(s: Seq<char>, native: int) -> int {
    round_units(shifted_units(price_value(s) as nat, 9, native as nat), 5)
}

fn price_or_zero(s: &str) -> (r: i128)
    ensures
        r == price_value(s@),
        0 <= r <= CAP,
{
    match parse_decimal(s) {
        Some(v) => if v >= 0 {
            v
        } else {
            0
        },
        None => 0,
    }
}

fn raw_integer_or_zero(s: &str) -> (r: u128)
    ensures
        r == raw_or_zero(s@),
{
    match parse_raw_integer(s) {
        Some(v) => v,
        None => 0,
    }
}

/// The native coin's USD price, in units, from its quote text.
pub fn native_price_from_text(quote: &str) -> (r: i128)
    ensures
        r == native_price_units(quote@),
        0 <= r <= CAP,
{
    price_or_zero(quote) / 100_000_000
}

/// The USD price of a token quoted in native coin: the quote times the
/// native coin's USD price, rounded to 5 decimals. An unreadable quote counts
/// as zero.
pub fn display_price(raw_price: &str, native: i128) -> (r: i128)
    requires
        0 <= native <= CAP,
    ensures
        r == display_price_units(raw_price@, native as int),
        0 <= r <= CAP,
{
    let p = price_or_zero(raw_price);
    let product = shift_mul(p as u128, 9, native);
    round_decimal(product, 5)
}

// ---------------------------------------------------------------------------
// Audit flags

/// A yes/no answer that may be missing.
#[derive(PartialEq, Eq, Structural, Clone, Copy, Debug)]
pub enum Flag {
    Yes,
    No,
    Unknown,
}

/// "yes" and "no" are answers; any other text is unknown.
pub open spec fn flag_of(s: Seq<char>) -> Flag {
    if s == "yes"@ {
        Flag::Yes
    } else if s == "no"@ {
        Flag::No
    } else {
        Flag::Unknown
    }
}

fn text_equals(a: &str, b: &str) -> (r: bool)
    ensures
        r == (a@ == b@),
{
    let n = a.unicode_len();
    if n != b.unicode_len() {
        return false;
    }
    let mut i: usize = 0;
    while i < n
        invariant
            n == a@.len() == b@.len(),
            i <= n,
            forall|j: int| 0 <= j < i ==> a@[j] == b@[j],
        decreases n - i,
    {
        if a.get_char(i) != b.get_char(i) {
            return false;
        }
        i = i + 1;
    }
    assert(a@ =~= b@);
    true
}

/// Reads an audit flag; see `flag_of`.
pub fn read_flag(s: &str) -> (f: Flag)
    ensures
        f == flag_of(s@),
{
    if text_equals(s, "yes") {
        Flag::Yes
    } else if text_equals(s, "no") {
        Flag::No
    } else {
        Flag::Unknown
    }
}

/// One audit line; an unknown flag has none.
pub open spec fn flag_line(label: Seq<char>, yes_mark: Seq<char>, f: Flag) -> Seq<char> {
    match f {
        Flag::Yes => "        "@ + label + yes_mark + "\n"@,
        Flag::No => "        "@ + label + "❌"@ + "\n"@,
        Flag::Unknown => seq![],
    }
}

fn push_flag_line(s: &mut String, label: &str, yes_mark: &str, text: &String)
    ensures
        final(s)@ == old(s)@ + flag_line(label@, yes_mark@, flag_of(text@)),
{
    let f = read_flag(text.as_str());
    match f {
        Flag::Yes => {
            s.append("        ");
            s.append(label);
            s.append(yes_mark);
            s.append("\n");
        },
        Flag::No => {
            s.append("        ");
            s.append(label);
            s.append("❌");
            s.append("\n");
        },
        Flag::Unknown => {},
    }
    assert(s@ =~= old(s)@ + flag_line(label@, yes_mark@, flag_of(text@)));
}

/// The audit block: present only when the audit was fetched (status 200).
pub open spec fn audit_text(a: TokenAudit) -> Seq<char> {
    if a.status_code == 200 {
        let d = a.data;
        "🔍 Audit\n"@ + flag_line("🔓 Open source: "@, "✅"@, flag_of(d.is_open_source@))
            + flag_line("🍯 Honeypot: "@, "✅"@, flag_of(d.is_honeypot@)) + flag_line(
            "🖨 Mintable: "@,
            "✅"@,
            flag_of(d.is_mintable@),
        ) + flag_line("🔄 Proxy: "@, "✅"@, flag_of(d.is_proxy@)) + flag_line(
            "📊 Slippage modifiable: "@,
            "✅"@,
            flag_of(d.slippage_modifiable@),
        ) + flag_line("⛔ Blacklisted: "@, "❗"@, flag_of(d.is_blacklisted@)) + flag_line(
            "📜 Contract renounced: "@,
            "✅"@,
            flag_of(d.is_contract_renounced@),
        ) + flag_line("⚠️ Potentially scam: "@, "❗"@, flag_of(d.is_potentially_scam@))
    } else {
        seq![]
    }
}

/// Text of the audit block; see `audit_text`.
pub fn audit_block(a: &TokenAudit) -> (r: String)
    ensures
        r@ == audit_text(*a),
{
    let mut s = String::new();
    if a.status_code == 200 {
        let d = &a.data;
        s.append("🔍 Audit\n");
        push_flag_line(&mut s, "🔓 Open source: ", "✅", &d.is_open_source);
        push_flag_line(&mut s, "🍯 Honeypot: ", "✅", &d.is_honeypot);
        push_flag_line(&mut s, "🖨 Mintable: ", "✅", &d.is_mintable);
        push_flag_line(&mut s, "🔄 Proxy: ", "✅", &d.is_proxy);
        push_flag_line(&mut s, "📊 Slippage modifiable: ", "✅", &d.slippage_modifiable);
        push_flag_line(&mut s, "⛔ Blacklisted: ", "❗", &d.is_blacklisted);
        push_flag_line(&mut s, "📜 Contract renounced: ", "✅", &d.is_contract_renounced);
        push_flag_line(&mut s, "⚠️ Potentially scam: ", "❗", &d.is_potentially_scam);
    }
    assert(s@ =~= audit_text(*a));
    s
}

// ---------------------------------------------------------------------------
// Social links

/// A clickable glyph for a link that is present and not empty.
pub open spec fn link_piece(url: Option<String>, glyph: Seq<char>) -> Seq<char> {
    match url {
        Some(u) => if u@.len() > 0 {
            " <a href=\""@ + u@ + "\">"@ + glyph + " </a>"@
        } else {
            seq![]
        },
        None => seq![],
    }
}

/// One glyph per channel with a link: discord 💭, telegram 🕊️, twitter 𝕏,
/// website 🌐, in that order.
pub open spec fn social_text(details: Option<Details>) -> Seq<char> {
    match details {
        Some(d) => link_piece(d.discord, "💭"@) + link_piece(d.telegram, "🕊️"@) + link_piece(
            d.twitter,
            "𝕏"@,
        ) + link_piece(d.website, "🌐"@),
        None => seq![],
    }
}

fn push_link_piece(s: &mut String, url: &Option<String>, glyph: &str)
    ensures
        final(s)@ == old(s)@ + link_piece(*url, glyph@),
{
    match url {
        Some(u) => {
            if u.unicode_len() > 0 {
                s.append(" <a href=\"");
                s.append(u.as_str());
                s.append("\">");
                s.append(glyph);
                s.append(" </a>");
            }
        },
        None => {},
    }
    assert(s@ =~= old(s)@ + link_piece(*url, glyph@));
}

/// Text of the social links; see `social_text`.
pub fn social_links(details: &Option<Details>) -> (r: String)
    ensures
        r@ == social_text(*details),
{
    let mut s = String::new();
    match details {
        Some(d) => {
            push_link_piece(&mut s, &d.discord, "💭");
            push_link_piece(&mut s, &d.telegram, "🕊️");
            push_link_piece(&mut s, &d.twitter, "𝕏");
            push_link_piece(&mut s, &d.website, "🌐");
        },
        None => {},
    }
    assert(s@ =~= social_text(*details));
    s
}

// ---------------------------------------------------------------------------
// Holders

/// The total holder count from its text; anything that is not a count that
/// fits `u32` counts as zero.
pub open spec fn count_of(s: Seq<char>) -> nat {
    match raw_integer(s) {
        Some(v) => if v <= u32::MAX {
            v
        } else {
            0
        },
        None => 0,
    }
}

/// Reads the total holder count; see `count_of`.
pub fn parse_count(s: &str) -> (r: u32)
    ensures
        r == count_of(s@),
{
    match parse_raw_integer(s) {
        Some(v) => if v <= u32::MAX as u128 {
            v as u32
        } else {
            0
        },
        None => 0,
    }
}

/// The heading of the holder map: at most 50 holders are shown.
pub open spec fn map_heading(count: nat) -> Seq<char> {
    if count >= 50 {
        "<u><b><i>50 Top Holders Map</i></b></u>\n        "@
    } else if count > 0 {
        "<u><b><i>"@ + nat_digits(count) + " Top Holders Map</i></b></u>\n        "@
    } else {
        seq![]
    }
}

/// The tier legend with the count of holders in each tier.
pub open spec fn tier_legend(vals: Seq<int>) -> Seq<char> {
    "\n        🐳 ( > $100K ) :  "@ + nat_digits(count_tier(vals, Tier::Whale))
        + "\n        🦈 ( $50K - $100K ) :  "@ + nat_digits(count_tier(vals, Tier::LargeFish))
        + "\n        🐬 ( $10K - $50K ) :  "@ + nat_digits(count_tier(vals, Tier::BigFish))
        + "\n        🐟 ( $1K - $10K ) :  "@ + nat_digits(count_tier(vals, Tier::SmallFish))
        + "\n        🦐 ( $0 - $1K ) :  "@ + nat_digits(count_tier(vals, Tier::Shrimp)) + "\n"@
}

/// The holders shown: the first `HOLDER_MAP_CAP` of the list, priced.
pub open spec fn shown_holders(h: TokenTopHolders, price: int) -> Seq<
    crate::token_top50_holders::HolderInfo,
> {
    let n = if h.list@.len() < HOLDER_MAP_CAP {
        h.list@.len() as int
    } else {
        HOLDER_MAP_CAP as int
    };
    priced(h.list@.take(n), price, TOKEN_DECIMALS as nat)
}

/// The holder section: heading, map and legend (no legend without holders).
pub open spec fn holders_text(count: nat, shown: Seq<crate::token_top50_holders::HolderInfo>) -> Seq<
    char,
> {
    "\n"@ + map_heading(count) + holder_links(shown) + if shown.len() > 0 {
        tier_legend(entry_values(shown))
    } else {
        seq![]
    }
}

fn push_count(s: &mut String, label: &str, n: usize)
    ensures
        final(s)@ == old(s)@ + label@ + nat_digits(n as nat),
{
    s.append(label);
    push_digits(s, n as u128);
    assert(s@ =~= old(s)@ + label@ + nat_digits(n as nat));
}

fn push_heading(s: &mut String, count: u32)
    ensures
        final(s)@ == old(s)@ + map_heading(count as nat),
{
    if count >= 50 {
        s.append("<u><b><i>50 Top Holders Map</i></b></u>\n        ");
    } else if count > 0 {
        s.append("<u><b><i>");
        push_digits(s, count as u128);
        s.append(" Top Holders Map</i></b></u>\n        ");
    }
    assert(s@ =~= old(s)@ + map_heading(count as nat));
}

fn push_legend(s: &mut String, summary: &HolderSummary, Ghost(shown): Ghost<Seq<crate::token_top50_holders::HolderInfo>>)
    requires
        summary_of(*summary, shown),
    ensures
        final(s)@ == old(s)@ + tier_legend(entry_values(shown)),
{
    let c = &summary.counts;
    push_count(s, "\n        🐳 ( > $100K ) :  ", c.whale);
    push_count(s, "\n        🦈 ( $50K - $100K ) :  ", c.large_fish);
    push_count(s, "\n        🐬 ( $10K - $50K ) :  ", c.big_fish);
    push_count(s, "\n        🐟 ( $1K - $10K ) :  ", c.small_fish);
    push_count(s, "\n        🦐 ( $0 - $1K ) :  ", c.shrimp);
    s.append("\n");
    assert(s@ =~= old(s)@ + tier_legend(entry_values(shown)));
}

fn push_holders_text(
    s: &mut String,
    count: u32,
    summary: &HolderSummary,
    shown_len: usize,
    Ghost(shown): Ghost<Seq<crate::token_top50_holders::HolderInfo>>,
)
    requires
        summary_of(*summary, shown),
        shown_len == shown.len(),
    ensures
        final(s)@ == old(s)@ + holders_text(count as nat, shown),
{
    s.append("\n");
    push_heading(s, count);
    s.append(summary.links.as_str());
    if shown_len > 0 {
        push_legend(s, summary, Ghost(shown));
    }
    assert(s@ =~= old(s)@ + holders_text(count as nat, shown));
}

fn push_middle(
    s: &mut String,
    age: &str,
    details: &Option<Details>,
    count: u32,
    top10: i128,
    Ghost(shown): Ghost<Seq<crate::token_top50_holders::HolderInfo>>,
)
    requires
        top10 == top10_sum(entry_values(shown)),
    ensures
        final(s)@ == old(s)@ + middle_text(age@, social_text(*details), count as nat, shown),
{
    s.append("🕐 Age:  ");
    s.append(age);
    s.append("\n🧰 More: ");
    let social = social_links(details);
    s.append(social.as_str());
    s.append("\n👩‍👧‍👦 Holders: ");
    push_digits(s, count as u128);
    s.append("\n        └ Top 10 Holders :  $");
    let top = abbreviate(top10);
    s.append(top.as_str());
    s.append("\n");
    assert(s@ =~= old(s)@ + middle_text(age@, social_text(*details), count as nat, shown));
}

// ---------------------------------------------------------------------------
// The report

pub open spec fn history_row(label: Seq<char>, price: Option<i128>, variation: Option<i128>) -> Seq<char> {
    label + decimal_text(round_units(opt_units(price), 3)) + " / "@ + decimal_text(
        round_units(opt_units(variation), 2),
    ) + "%"@
}

/// An absent value counts as zero.
pub open spec fn opt_units(v: Option<i128>) -> int {
    match v {
        Some(x) => x as int,
        None => 0,
    }
}

pub open spec fn opt_in_range(v: Option<i128>) -> bool {
    match v {
        Some(x) => -CAP <= x <= CAP,
        None => true,
    }
}

/// The past prices and variations lie within the range of parsed values.
pub open spec fn history_in_range(h: TokenPriceHistory) -> bool {
    &&& opt_in_range(h.data.price_1h)
    &&& opt_in_range(h.data.price_6h)
    &&& opt_in_range(h.data.price_24h)
    &&& opt_in_range(h.data.variation_1h)
    &&& opt_in_range(h.data.variation_6h)
    &&& opt_in_range(h.data.variation_24h)
}

/// The price history block: 1, 6 and 24 hours ago, prices to 3 decimals and
/// variations to 2; an absent point shows as zero.
pub open spec fn history_text(h: TokenPriceHistory) -> Seq<char> {
    "📈 Price history\n"@ + history_row(
        "        └ <i>1H:</i>    $"@,
        h.data.price_1h,
        h.data.variation_1h,
    ) + "  \n"@ + history_row("        └ <i>6H:</i>    $"@, h.data.price_6h, h.data.variation_6h)
        + "  \n"@ + history_row("        └ <i>24H:</i>  $"@, h.data.price_24h, h.data.variation_24h)
        + " \n"@
}

fn opt_or_zero(v: Option<i128>) -> (r: i128)
    ensures
        r == opt_units(v),
{
    match v {
        Some(x) => x,
        None => 0,
    }
}

fn push_history_row(s: &mut String, label: &str, price: Option<i128>, variation: Option<i128>)
    requires
        opt_in_range(price),
        opt_in_range(variation),
    ensures
        final(s)@ == old(s)@ + history_row(label@, price, variation),
{
    s.append(label);
    let p = decimal_to_text(round_decimal(opt_or_zero(price), 3));
    s.append(p.as_str());
    s.append(" / ");
    let v = decimal_to_text(round_decimal(opt_or_zero(variation), 2));
    s.append(v.as_str());
    s.append("%");
    assert(s@ =~= old(s)@ + history_row(label@, price, variation));
}

/// Text of the price history block; see `history_text`.
pub fn history_block(h: &TokenPriceHistory) -> (r: String)
    requires
        history_in_range(*h),
    ensures
        r@ == history_text(*h),
{
    let mut s = String::new();
    s.append("📈 Price history\n");
    push_history_row(&mut s, "        └ <i>1H:</i>    $", h.data.price_1h, h.data.variation_1h);
    s.append("  \n");
    push_history_row(&mut s, "        └ <i>6H:</i>    $", h.data.price_6h, h.data.variation_6h);
    s.append("  \n");
    push_history_row(&mut s, "        └ <i>24H:</i>  $", h.data.price_24h, h.data.variation_24h);
    s.append(" \n");
    assert(s@ =~= history_text(*h));
    s
}

pub open spec fn native_reserve_text(l: Option<Liquidity>) -> Seq<char> {
    match l {
        Some(x) => x.native_reserve@,
        None => seq![],
    }
}

/// Market cap: the supply after the decimal shift, at the token's price.
pub open spec fn market_cap_units(info: TokenInfo, price: int) -> int {
    shifted_units(raw_or_zero(info.total_supply@), TOKEN_DECIMALS as nat, price as nat)
}

/// Liquidity: twice the value of the pair's native-coin reserve.
pub open spec fn liquidity_units(info: TokenInfo, native: int) -> int {
    2 * shifted_units(raw_or_zero(native_reserve_text(info.liquidity)), TOKEN_DECIMALS as nat, native as nat)
}

/// The first lines: a link with the name and symbol, price, market cap and
/// liquidity.
pub open spec fn head_text(info: TokenInfo, price: int, native: int) -> Seq<char> {
    "\n<a href=\"https://dexscreener.com/apechain/"@ + info.address@ + "\">🚀</a> "@ + info.name@
        + "  "@ + info.symbol@ + "\n💰 USD:  $"@ + decimal_text(price) + "\n💎 Mcap:  $"@
        + abbreviate_text(market_cap_units(info, price)) + "\n💦 Liquidity:  $"@ + abbreviate_text(
        liquidity_units(info, native),
    ) + "\n"@
}

/// Age, social links, holder count and the top-10 sum, one line each.
pub open spec fn middle_text(
    age: Seq<char>,
    social: Seq<char>,
    count: nat,
    shown: Seq<crate::token_top50_holders::HolderInfo>,
) -> Seq<char> {
    "🕐 Age:  "@ + age + "\n🧰 More: "@ + social + "\n👩‍👧‍👦 Holders: "@ + nat_digits(count)
        + "\n        └ Top 10 Holders :  $"@ + abbreviate_text(top10_sum(entry_values(shown))) + "\n"@
}

/// The address and the links to explorers and search.
pub open spec fn foot_text(address: Seq<char>) -> Seq<char> {
    " \n<code>"@ + address + "</code>\n<a href=\"https://dexscreener.com/apechain/"@ + address
        + "\">DEX</a> <a href=\"https://apescan.io/address/"@ + address
        + "\">EXP</a>\n\n❎ <a href=\"https://twitter.com/search?q="@ + address
        + "=typed_query&f=live\"> Search on 𝕏 </a>\n📈 <a href=\"https://apescan.io/token/"@ + address
        + "\"> APE Scan </a>\n"@
}

/// The whole report of a token.
pub open spec fn report_text(
    info: TokenInfo,
    history: TokenPriceHistory,
    holders: TokenTopHolders,
    audit: TokenAudit,
    native: int,
    age: Seq<char>,
) -> Seq<char> {
    let price = display_price_units(info.price@, native);
    let count = count_of(holders.total_holders@);
    let shown = shown_holders(holders, price);
    head_text(info, price, native) + history_text(history) + audit_text(audit) + middle_text(
        age,
        social_text(info.details),
        count,
        shown,
    ) + holders_text(count, shown) + foot_text(info.address@)
}

fn push_head(s: &mut String, info: &TokenInfo, price: i128, native: i128)
    requires
        0 <= price <= CAP,
        0 <= native <= CAP,
    ensures
        final(s)@ == old(s)@ + head_text(*info, price as int, native as int),
{
    s.append("\n<a href=\"https://dexscreener.com/apechain/");
    s.append(info.address.as_str());
    s.append("\">🚀</a> ");
    s.append(info.name.as_str());
    s.append("  ");
    s.append(info.symbol.as_str());
    s.append("\n💰 USD:  $");
    let p = decimal_to_text(price);
    s.append(p.as_str());
    s.append("\n💎 Mcap:  $");
    let supply = raw_integer_or_zero(info.total_supply.as_str());
    let mcap = abbreviate(shift_mul(supply, TOKEN_DECIMALS, price));
    s.append(mcap.as_str());
    s.append("\n💦 Liquidity:  $");
    let reserve = match &info.liquidity {
        Some(l) => raw_integer_or_zero(l.native_reserve.as_str()),
        None => {
            proof {
                assert(raw_integer(seq![]) is None);
            }
            0
        },
    };
    let liq = abbreviate(2 * shift_mul(reserve, TOKEN_DECIMALS, native));
    s.append(liq.as_str());
    s.append("\n");
    assert(s@ =~= old(s)@ + head_text(*info, price as int, native as int));
}

fn push_foot(s: &mut String, address: &String)
    ensures
        final(s)@ == old(s)@ + foot_text(address@),
{
    let a = address.as_str();
    s.append(" \n<code>");
    s.append(a);
    s.append("</code>\n<a href=\"https://dexscreener.com/apechain/");
    s.append(a);
    s.append("\">DEX</a> <a href=\"https://apescan.io/address/");
    s.append(a);
    s.append("\">EXP</a>\n\n❎ <a href=\"https://twitter.com/search?q=");
    s.append(a);
    s.append("=typed_query&f=live\"> Search on 𝕏 </a>\n📈 <a href=\"https://apescan.io/token/");
    s.append(a);
    s.append("\"> APE Scan </a>\n");
    assert(s@ =~= old(s)@ + foot_text(address@));
}

/// Composes the report of a token from its identity record, price history,
/// holder list and audit, the native coin's USD price (in units) and the
/// token's age text.
pub fn make_token_overview_message(
    token_info: &TokenInfo,
    token_price_history: &TokenPriceHistory,
    token_top_holders: &TokenTopHolders,
    token_audit: &TokenAudit,
    native_price: i128,
    age: &str,
) -> (r: String)
    requires
        0 <= native_price <= CAP,
        history_in_range(*token_price_history),
    ensures
        r@ == report_text(
            *token_info,
            *token_price_history,
            *token_top_holders,
            *token_audit,
            native_price as int,
            age@,
        ),
{
    let price = display_price(token_info.price.as_str(), native_price);
    let count = parse_count(token_top_holders.total_holders.as_str());
    let summary = classify_and_sum_holders(&token_top_holders.list, price, TOKEN_DECIMALS, HOLDER_MAP_CAP);
    let ghost shown = shown_holders(*token_top_holders, price as int);
    let shown_len = if token_top_holders.list.len() < HOLDER_MAP_CAP {
        token_top_holders.list.len()
    } else {
        HOLDER_MAP_CAP
    };
    let mut s = String::new();
    push_head(&mut s, token_info, price, native_price);
    assert(s@ =~= head_text(*token_info, price as int, native_price as int));
    let history = history_block(token_price_history);
    s.append(history.as_str());
    let audit = audit_block(token_audit);
    s.append(audit.as_str());
    push_middle(&mut s, age, &token_info.details, count, summary.top10_sum, Ghost(shown));
    push_holders_text(&mut s, count, &summary, shown_len, Ghost(shown));
    push_foot(&mut s, &token_info.address);
    assert(s@ =~= report_text(
        *token_info,
        *token_price_history,
        *token_top_holders,
        *token_audit,
        native_price as int,
        age@,
    ));
    s
}

} // verus!
