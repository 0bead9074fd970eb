use token_report::address::is_valid_address;
use token_report::fixed::{round_decimal, shift_mul, ONE};
use token_report::numtext::{abbreviate, decimal_to_text, int_to_text};
use token_report::parse::{parse_decimal, parse_i64, parse_raw_integer};
use token_report::pool_liquidity::{PoolLiquidity, PoolLiquidityData, PoolLiquidityReserves};
use token_report::pools::{next_page, total_liquidity};
use token_report::token_pool::TokenPooldata;

fn units(whole: i128) -> i128 {
    whole * ONE
}

#[test]
fn abbreviate_millions() {
    assert_eq!(abbreviate(units(2_500_000)), "2.5M");
}

#[test]
fn abbreviate_thousands() {
    assert_eq!(abbreviate(units(1_500)), "1.50K");
}

#[test]
fn abbreviate_small_value() {
    assert_eq!(abbreviate(42_100_000_000), "42.100");
}

#[test]
fn abbreviate_thresholds_are_strict() {
    assert_eq!(abbreviate(units(1_000_000)), "1000.00K");
    assert_eq!(abbreviate(units(1_000)), "1000.000");
    assert!(abbreviate(units(1_000_000) + 1).ends_with('M'));
    assert!(abbreviate(units(1_000) + 1).ends_with('K'));
}

#[test]
fn abbreviate_negative_is_symmetric() {
    assert_eq!(abbreviate(-units(2_500_000)), "-2.5M");
    assert_eq!(abbreviate(-units(1_500)), "-1.50K");
    assert_eq!(abbreviate(0), "0.000");
    assert_eq!(abbreviate(i128::MIN).chars().last(), Some('M'));
}

#[test]
fn round_decimal_example() {
    assert_eq!(round_decimal(123_456_000, 3), 123_000_000);
}

#[test]
fn round_decimal_is_idempotent() {
    for &(x, n) in &[(123_456_789i128, 3u32), (-987_654_321, 2), (5_000_000, 2), (units(7) + 1, 5)] {
        let once = round_decimal(x, n);
        assert_eq!(round_decimal(once, n), once);
    }
}

#[test]
fn round_decimal_halves_away_from_zero() {
    assert_eq!(round_decimal(500_000, 3), 1_000_000);
    assert_eq!(round_decimal(-500_000, 3), -1_000_000);
    assert_eq!(round_decimal(499_999, 3), 0);
}

#[test]
fn decimal_text_is_shortest() {
    assert_eq!(decimal_to_text(units(1)), "1");
    assert_eq!(decimal_to_text(10_000), "0.00001");
    assert_eq!(decimal_to_text(-2_750_000_000), "-2.75");
    assert_eq!(int_to_text(-42), "-42");
}

#[test]
fn decimal_shift_of_one_token() {
    assert_eq!(shift_mul(1_000_000_000_000_000_000, 18, units(2)), units(2));
}

#[test]
fn decimal_shift_large_balance() {
    // 953512509.617109549450551909 tokens at $0.00001
    assert_eq!(shift_mul(953_512_509_617_109_549_450_551_909, 18, 10_000), 9_535_125_096_171);
}

#[test]
fn decimal_shift_caps() {
    assert_eq!(shift_mul(u128::MAX, 0, 10 * units(1)), token_report::fixed::CAP);
}

#[test]
fn parse_decimal_forms() {
    assert_eq!(parse_decimal("1"), Some(units(1)));
    assert_eq!(parse_decimal("0.000005113345517685"), Some(5_113));
    assert_eq!(parse_decimal("-3.25"), Some(-3_250_000_000));
    assert_eq!(parse_decimal("1."), None);
    assert_eq!(parse_decimal(".5"), None);
    assert_eq!(parse_decimal("abc"), None);
    assert_eq!(parse_decimal(""), None);
    assert_eq!(parse_decimal("1000000000000000000000000000"), None);
}

#[test]
fn parse_raw_integer_forms() {
    assert_eq!(parse_raw_integer("17"), Some(17));
    assert_eq!(parse_raw_integer("340282366920938463463374607431768211455"), Some(u128::MAX));
    assert_eq!(parse_raw_integer("340282366920938463463374607431768211456"), None);
    assert_eq!(parse_raw_integer("1e5"), None);
    assert_eq!(parse_raw_integer(""), None);
}

#[test]
fn parse_i64_forms() {
    assert_eq!(parse_i64("1731478337"), Some(1_731_478_337));
    assert_eq!(parse_i64("-9223372036854775808"), Some(i64::MIN));
    assert_eq!(parse_i64("+5"), Some(5));
    assert_eq!(parse_i64("9223372036854775808"), None);
    assert_eq!(parse_i64("-"), None);
}

#[test]
fn address_validation() {
    assert!(is_valid_address("0x6874c70e43657fe9c6aee57d200db949e093b127"));
    assert!(is_valid_address("0x6874C70E43657FE9C6AEE57D200DB949E093B127"));
    assert!(!is_valid_address("0x6874c70e43657fe9c6aee57d200db949e093b12"));
    assert!(!is_valid_address("1x6874c70e43657fe9c6aee57d200db949e093b127"));
    assert!(!is_valid_address("0x6874c70e43657fe9c6aee57d200db949e093b12g"));
    assert!(!is_valid_address(""));
}

fn page(page: i32, total_pages: i32) -> TokenPooldata {
    TokenPooldata { page, page_size: 10, total_pages, results: Vec::new() }
}

#[test]
fn paging_stops_at_last_page_or_bound() {
    assert_eq!(next_page(&page(0, 3), 1, 10), Some(1));
    assert_eq!(next_page(&page(3, 3), 4, 10), None);
    assert_eq!(next_page(&page(1, 1000), 10, 10), None);
}

fn pool(liquidity: Option<i128>) -> PoolLiquidity {
    PoolLiquidity {
        status_code: 200,
        data: PoolLiquidityData {
            reserves: PoolLiquidityReserves { main_token: 0, side_token: 0 },
            liquidity,
        },
    }
}

#[test]
fn liquidity_adds_up() {
    let pools = vec![pool(Some(units(10))), pool(None), pool(Some(units(5))), pool(Some(-units(3)))];
    assert_eq!(total_liquidity(&pools), units(15));
    assert_eq!(total_liquidity(&Vec::new()), 0);
}
