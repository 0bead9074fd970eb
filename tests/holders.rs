use token_report::fixed::ONE;
use token_report::tiers::{classify, classify_and_sum, classify_and_sum_holders, Tier};
use token_report::token_holders::{HolderInfo, TokenTopHolders};
use token_report::token_top50_holders as top50;

fn entry(address: &str, usd_whole: i128) -> top50::HolderInfo {
    top50::HolderInfo { holder_address: address.to_string(), usd_amount: usd_whole * ONE }
}

fn raw_holder(address: &str, balance: &str) -> HolderInfo {
    HolderInfo { address: address.to_string(), balance: balance.to_string(), username: None, profile: None }
}

#[test]
fn tier_thresholds() {
    assert_eq!(classify(100_000 * ONE + 1), Tier::Whale);
    assert_eq!(classify(100_000 * ONE), Tier::LargeFish);
    assert_eq!(classify(50_000 * ONE), Tier::BigFish);
    assert_eq!(classify(10_000 * ONE), Tier::SmallFish);
    assert_eq!(classify(1_000 * ONE), Tier::Shrimp);
    assert_eq!(classify(0), Tier::Shrimp);
}

#[test]
fn three_holders_in_three_tiers() {
    let entries = vec![entry("0xa", 200_000), entry("0xb", 5_000), entry("0xc", 500)];
    let r = classify_and_sum(&entries);
    assert_eq!(r.counts.whale, 1);
    assert_eq!(r.counts.large_fish, 0);
    assert_eq!(r.counts.big_fish, 0);
    assert_eq!(r.counts.small_fish, 1);
    assert_eq!(r.counts.shrimp, 1);
    let c = &r.counts;
    assert_eq!(c.whale + c.large_fish + c.big_fish + c.small_fish + c.shrimp, entries.len());
    assert_eq!(r.top10_sum, 205_500 * ONE);
}

#[test]
fn top10_sum_of_few_holders_is_total() {
    let entries: Vec<_> = (1..=7).map(|i| entry("0x1", i)).collect();
    assert_eq!(classify_and_sum(&entries).top10_sum, 28 * ONE);
}

#[test]
fn top10_sum_takes_first_ten_only() {
    let entries: Vec<_> = (1..=12).map(|i| entry("0x1", i)).collect();
    let r = classify_and_sum(&entries);
    assert_eq!(r.top10_sum, 55 * ONE);
    assert_eq!(r.counts.shrimp, 12);
}

#[test]
fn holder_map_breaks_after_every_tenth() {
    let entries: Vec<_> = (0..11).map(|_| entry("0x1", 1)).collect();
    let r = classify_and_sum(&entries);
    assert_eq!(r.links.matches("\n        ").count(), 1);
    let first = "<a href=\"https://apescan.io/address/0x1?Amount=1\">🦐</a>";
    assert!(r.links.starts_with(first));
    assert!(r.links.ends_with(&format!("\n        {}", first)));
}

#[test]
fn empty_holder_list() {
    let r = classify_and_sum(&Vec::new());
    assert_eq!(r.links, "");
    assert_eq!(r.top10_sum, 0);
    assert_eq!(r.counts.shrimp, 0);
}

#[test]
fn decimal_shift_gives_holder_value() {
    let holders = vec![raw_holder("0xa", "1000000000000000000")];
    let r = classify_and_sum_holders(&holders, 2 * ONE, 18, 50);
    assert_eq!(r.top10_sum, 2 * ONE);
    assert!(r.links.contains("?Amount=2\""));
}

#[test]
fn unreadable_balance_counts_as_zero() {
    let holders = vec![raw_holder("0xa", "12abc"), raw_holder("0xb", "5000000000000000000000")];
    let r = classify_and_sum_holders(&holders, ONE, 18, 50);
    assert_eq!(r.counts.shrimp, 1);
    assert_eq!(r.counts.small_fish, 1);
    assert_eq!(r.top10_sum, 5_000 * ONE);
}

#[test]
fn cap_truncates_holders() {
    let holders: Vec<_> = (0..60).map(|_| raw_holder("0xa", "1")).collect();
    let r = classify_and_sum_holders(&holders, ONE, 0, 50);
    assert_eq!(r.counts.shrimp, 50);
    let r = classify_and_sum_holders(&holders, ONE, 0, 100);
    assert_eq!(r.counts.shrimp, 60);
}

#[test]
fn holders_from_entries_keep_order() {
    let t = TokenTopHolders::from_entries(vec![
        ("0xa".to_string(), "10".to_string(), Some("@a".to_string()), None),
        ("0xb".to_string(), "20".to_string(), None, Some("p".to_string())),
    ]);
    assert_eq!(t.list.len(), 2);
    assert_eq!(t.list[0].address, "0xa");
    assert_eq!(t.list[1].balance, "20");
    assert_eq!(t.list[0].username.as_deref(), Some("@a"));
    assert_eq!(t.total_holders, "");
    let u = top50::TokenTopHolders::from_entries(vec![("0xc".to_string(), 7)]);
    assert_eq!(u.holders[0].holder_address, "0xc");
    assert_eq!(u.holders[0].usd_amount, 7);
}
