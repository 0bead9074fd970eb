use token_report::age::{age_at, age_from_days, days_between, parse_timestamp, relative_age, relative_age_at};
use token_report::fixed::ONE;
use token_report::report::{
    audit_block, display_price, history_block, make_token_overview_message, native_price_from_text, parse_count,
    read_flag, social_links, Flag,
};
use token_report::token_audit::{TokenAudit, TokenAuditData};
use token_report::token_holders::{HolderInfo, TokenTopHolders};
use token_report::token_info::{Details, Liquidity, TokenInfo};
use token_report::token_price_history::{TokenPriceHistory, TokenPriceHistoryData};

const DAY: i64 = 86_400;
const NOW: i64 = 1_731_478_337;

#[test]
fn age_of_400_days() {
    let ts = (NOW - 400 * DAY).to_string();
    assert_eq!(relative_age_at(&ts, NOW), "1.1 years");
}

#[test]
fn age_of_40_days() {
    let ts = (NOW - 40 * DAY).to_string();
    assert_eq!(relative_age_at(&ts, NOW), "1.3 months");
}

#[test]
fn age_of_10_days() {
    let ts = (NOW - 10 * DAY).to_string();
    assert_eq!(relative_age_at(&ts, NOW), "10 days");
}

#[test]
fn age_unparseable_is_sentinel() {
    assert_eq!(relative_age_at("yesterday", NOW), "🔥");
    assert_eq!(relative_age_at("", NOW), "🔥");
    assert_eq!(age_at(None, NOW), "🔥");
}

#[test]
fn age_from_date_text() {
    // 2024-11-13T06:12:17 is NOW
    assert_eq!(parse_timestamp("2024-11-13T06:12:17"), Some(NOW));
    assert_eq!(relative_age_at("2024-11-03T06:12:17", NOW), "10 days");
    assert_eq!(parse_timestamp("2024-13-03T06:12:17"), None);
}

#[test]
fn age_buckets() {
    assert_eq!(age_from_days(365), "12.2 months");
    assert_eq!(age_from_days(366), "1.0 years");
    assert_eq!(age_from_days(30), "30 days");
    assert_eq!(age_from_days(31), "1.0 months");
    assert_eq!(age_from_days(0), "0 days");
    assert_eq!(age_from_days(-2), "-2 days");
    assert_eq!(days_between(NOW, NOW + DAY - 1), 0);
    assert_eq!(days_between(NOW, NOW - DAY - 1), -1);
}

#[test]
fn age_against_the_clock() {
    let now = std::time::SystemTime::now().duration_since(std::time::UNIX_EPOCH).unwrap().as_secs() as i64;
    let ts = (now - 10 * DAY - 100).to_string();
    assert_eq!(relative_age(&ts), "10 days");
}

#[test]
fn prices() {
    assert_eq!(native_price_from_text("123456789"), 1_234_567_890);
    assert_eq!(native_price_from_text("oops"), 0);
    assert_eq!(display_price("1", ONE), ONE);
    assert_eq!(display_price("0.000005113345517685", 1_234_567_890), 10_000);
    assert_eq!(display_price("-1", ONE), 0);
    assert_eq!(display_price("n/a", ONE), 0);
    assert_eq!(parse_count("120"), 120);
    assert_eq!(parse_count("x"), 0);
    assert_eq!(parse_count("4294967296"), 0);
}

fn audit(status: u32, flag: &str) -> TokenAudit {
    let mut data = TokenAuditData::default();
    data.is_open_source = "yes".to_string();
    data.is_honeypot = "no".to_string();
    data.is_blacklisted = "yes".to_string();
    data.is_mintable = flag.to_string();
    TokenAudit { status_code: status, data }
}

#[test]
fn audit_flags() {
    assert_eq!(read_flag("yes"), Flag::Yes);
    assert_eq!(read_flag("no"), Flag::No);
    assert_eq!(read_flag("Yes"), Flag::Unknown);
    assert_eq!(read_flag(""), Flag::Unknown);
    let text = audit_block(&audit(200, "maybe"));
    assert_eq!(
        text,
        "🔍 Audit\n        🔓 Open source: ✅\n        🍯 Honeypot: ❌\n        ⛔ Blacklisted: ❗\n"
    );
    assert_eq!(audit_block(&audit(404, "yes")), "");
}

#[test]
fn social_glyphs() {
    let details = Details {
        telegram: Some("https://t.me/x".to_string()),
        twitter: Some(String::new()),
        website: Some("https://x.io".to_string()),
        discord: None,
        user: None,
        is_profane: false,
    };
    assert_eq!(
        social_links(&Some(details)),
        " <a href=\"https://t.me/x\">🕊️ </a> <a href=\"https://x.io\">🌐 </a>"
    );
    assert_eq!(social_links(&None), "");
}

#[test]
fn price_history_rows() {
    let mut data = TokenPriceHistoryData::default();
    data.price_1h = Some(1_234_567_000);
    data.variation_1h = Some(-12_345_000_000);
    let h = TokenPriceHistory { status_code: 200, data };
    assert_eq!(
        history_block(&h),
        "📈 Price history\n        └ <i>1H:</i>    $1.235 / -12.35%  \n        └ <i>6H:</i>    $0 / 0%  \n        └ <i>24H:</i>  $0 / 0% \n"
    );
}

fn minimal_info() -> TokenInfo {
    let mut info = TokenInfo::default();
    info.address = "0x6874c70e43657fe9c6aee57d200db949e093b127".to_string();
    info.name = "Test".to_string();
    info.symbol = "TST".to_string();
    info.price = "1".to_string();
    info
}

#[test]
fn end_to_end_minimal_report() {
    let info = minimal_info();
    let history = TokenPriceHistory::default();
    let holders = TokenTopHolders { list: Vec::new(), total_holders: String::new() };
    let audit = TokenAudit { status_code: 404, data: TokenAuditData::default() };
    let text = make_token_overview_message(&info, &history, &holders, &audit, ONE, "🔥");
    assert!(text.contains("</a> Test  TST\n"));
    assert!(text.contains("💰 USD:  $1\n"));
    assert!(!text.contains("Audit"));
    assert!(!text.contains("Top Holders Map"));
    assert!(text.contains("👩‍👧‍👦 Holders: 0\n        └ Top 10 Holders :  $0.000\n\n \n<code>"));
}

#[test]
fn full_report_layout() {
    let mut info = minimal_info();
    info.total_supply = "1000000000000000000000000000".to_string();
    info.liquidity = Some(Liquidity { native_reserve: "500000000000000000000".to_string(), ..Liquidity::default() });
    let history = TokenPriceHistory::default();
    let holders = TokenTopHolders {
        list: vec![
            HolderInfo { address: "0xa".to_string(), balance: "200000000000000000000000".to_string(), username: None, profile: None },
            HolderInfo { address: "0xb".to_string(), balance: "500000000000000000000".to_string(), username: None, profile: None },
        ],
        total_holders: "2".to_string(),
    };
    let audit = TokenAudit { status_code: 404, data: TokenAuditData::default() };
    let text = make_token_overview_message(&info, &history, &holders, &audit, 2 * ONE, "3 days");
    let a = &info.address;
    let expected = format!(
        "\n<a href=\"https://dexscreener.com/apechain/{a}\">🚀</a> Test  TST\n💰 USD:  $2\n💎 Mcap:  $2000.0M\n💦 Liquidity:  $2.00K\n📈 Price history\n        └ <i>1H:</i>    $0 / 0%  \n        └ <i>6H:</i>    $0 / 0%  \n        └ <i>24H:</i>  $0 / 0% \n🕐 Age:  3 days\n🧰 More: \n👩‍👧‍👦 Holders: 2\n        └ Top 10 Holders :  $401.00K\n\n<u><b><i>2 Top Holders Map</i></b></u>\n        <a href=\"https://apescan.io/address/0xa?Amount=400000\">🐳</a><a href=\"https://apescan.io/address/0xb?Amount=1000\">🦐</a>\n        🐳 ( > $100K ) :  1\n        🦈 ( $50K - $100K ) :  0\n        🐬 ( $10K - $50K ) :  0\n        🐟 ( $1K - $10K ) :  0\n        🦐 ( $0 - $1K ) :  1\n \n<code>{a}</code>\n<a href=\"https://dexscreener.com/apechain/{a}\">DEX</a> <a href=\"https://apescan.io/address/{a}\">EXP</a>\n\n❎ <a href=\"https://twitter.com/search?q={a}=typed_query&f=live\"> Search on 𝕏 </a>\n📈 <a href=\"https://apescan.io/token/{a}\"> APE Scan </a>\n"
    );
    assert_eq!(text, expected);
}
