use balans::assets::depreciation::{
    calculate_linear_depreciation, depreciation_for_period, depreciation_log_message, depreciation_summary,
    period_of, plan_depreciation_vouchers, DepreciationRefusal,
};
use balans::assets::models::{asset_type_label, default_accounts, suggested_useful_life, FixedAsset};
use balans::date::{months_between, Date};
use balans::money::Money;

#[test]
fn test_linear_depreciation() {
    // 120,000 SEK over 60 months = 2,000 SEK/month
    let monthly = calculate_linear_depreciation(Money::from_ore(12_000_000), Money::zero(), 60);
    assert_eq!(monthly.to_ore(), 200_000); // 2000.00 SEK
}

#[test]
fn test_depreciation_with_residual() {
    // 100,000 cost - 10,000 residual = 90,000 depreciable over 36 months = 2,500/month
    let monthly = calculate_linear_depreciation(Money::from_ore(10_000_000), Money::from_ore(1_000_000), 36);
    assert_eq!(monthly.to_ore(), 250_000); // 2500.00 SEK
}

#[test]
fn test_months_between() {
    let start = Date { year: 2025, month: 1, day: 1 };
    let end = Date { year: 2025, month: 12, day: 31 };
    assert_eq!(months_between(&start, &end), 12);

    let start = Date { year: 2025, month: 7, day: 1 };
    let end = Date { year: 2025, month: 12, day: 31 };
    assert_eq!(months_between(&start, &end), 6);
}

#[test]
fn test_zero_useful_life() {
    let monthly = calculate_linear_depreciation(Money::from_ore(10_000_000), Money::zero(), 0);
    assert!(monthly.is_zero());
}

#[test]
fn depreciable_amount_below_zero_gives_nothing() {
    assert!(calculate_linear_depreciation(Money::from_ore(100), Money::from_ore(200), 12).is_zero());
    // rounds toward zero
    assert_eq!(calculate_linear_depreciation(Money::from_ore(1000), Money::zero(), 3).to_ore(), 333);
    assert_eq!(months_between(&Date { year: 2025, month: 5, day: 1 }, &Date { year: 2025, month: 4, day: 30 }), 0);
}

fn asset(start: &str, cost: i64, life: i32, disposal: Option<&str>) -> FixedAsset {
    FixedAsset {
        id: "a1".to_string(),
        company_id: "c1".to_string(),
        name: "Dator".to_string(),
        description: None,
        asset_type: "computer".to_string(),
        acquisition_date: start.to_string(),
        acquisition_cost: Money::from_ore(cost),
        useful_life_months: life,
        residual_value: Money::zero(),
        depreciation_start_date: start.to_string(),
        asset_account: 1250,
        depreciation_account: 1259,
        expense_account: 7834,
        is_disposed: disposal.is_some(),
        disposal_date: disposal.map(|s| s.to_string()),
        disposal_amount: Money::zero(),
        created_at: String::new(),
        updated_at: String::new(),
    }
}

fn ymd(y: i32, m: u32, d: u32) -> Date {
    Date { year: y, month: m, day: d }
}

#[test]
fn depreciation_in_a_period() {
    let a = asset("2025-07-01", 36_000_00, 36, None);
    // July to December: 6 months of 1000 kr
    assert_eq!(depreciation_for_period(&a, &ymd(2025, 1, 1), &ymd(2025, 12, 31)).to_ore(), 6_000_00);
    // a full year later
    assert_eq!(depreciation_for_period(&a, &ymd(2026, 1, 1), &ymd(2026, 12, 31)).to_ore(), 12_000_00);
    // months already depreciated run from the start month up to the period's first month
    // (30 by January 2028), so 2028 gets what remains of 36 000 - 30 000
    assert_eq!(depreciation_for_period(&a, &ymd(2028, 1, 1), &ymd(2028, 12, 31)).to_ore(), 6_000_00);
    assert_eq!(depreciation_for_period(&a, &ymd(2029, 1, 1), &ymd(2029, 12, 31)).to_ore(), 0);
    // not started yet
    assert_eq!(depreciation_for_period(&a, &ymd(2024, 1, 1), &ymd(2024, 12, 31)).to_ore(), 0);
}

#[test]
fn disposed_assets_stop_depreciating() {
    let a = asset("2025-01-01", 12_000_00, 12, Some("2025-03-15"));
    assert_eq!(depreciation_for_period(&a, &ymd(2025, 1, 1), &ymd(2025, 12, 31)).to_ore(), 3_000_00);
    assert_eq!(depreciation_for_period(&a, &ymd(2026, 1, 1), &ymd(2026, 12, 31)).to_ore(), 0);
}

#[test]
fn summary_and_vouchers() {
    let assets = vec![asset("2025-07-01", 36_000_00, 36, None), asset("2030-01-01", 1_000_00, 10, None)];
    let s = depreciation_summary("fy1".to_string(), "2025-01-01", "2025-12-31", &assets);
    assert_eq!(s.fiscal_year_id, "fy1");
    assert_eq!(s.total_depreciation.to_ore(), 6_000_00);
    assert_eq!(s.assets[0].accumulated_depreciation.to_ore(), 6_000_00);
    assert_eq!(s.assets[0].book_value.to_ore(), 30_000_00);
    assert_eq!(s.assets[1].depreciation_this_year.to_ore(), 0);
    let vouchers = plan_depreciation_vouchers(&s, false).ok().unwrap();
    assert_eq!(vouchers.len(), 1);
    assert_eq!(vouchers[0].description, "Avskrivning Dator");
    assert_eq!(vouchers[0].expense_account, 7834);
    assert_eq!(vouchers[0].depreciation_account, 1259);
    assert_eq!(vouchers[0].amount.to_ore(), 6_000_00);
    assert_eq!(plan_depreciation_vouchers(&s, true).err(), Some(DepreciationRefusal::AlreadyClosed));
    assert_eq!(depreciation_log_message(1, s.total_depreciation), "Generated 1 depreciation vouchers, total: 6000.00");
}

#[test]
fn unreadable_fiscal_year_dates_fall_back() {
    let (s, e) = period_of("x", "2025-13-01");
    assert_eq!((s.year, s.month, s.day), (2025, 1, 1));
    assert_eq!((e.year, e.month, e.day), (2025, 12, 31));
}

#[test]
fn asset_type_defaults() {
    assert_eq!(default_accounts("building"), (1110, 1119, 7820));
    assert_eq!(default_accounts("something"), (1220, 1229, 7832));
    assert_eq!(suggested_useful_life("computer"), 36);
    assert_eq!(suggested_useful_life("financial"), 0);
    assert_eq!(asset_type_label("vehicle"), "Fordon");
    assert_eq!(asset_type_label("boat"), "Övrigt");
}

#[test]
fn a_long_period_books_at_most_the_depreciable_amount() {
    // 12 months of life inside a 24-month period: 24 000 is capped at the cost
    let a = asset("2025-01-01", 12_000_00, 12, None);
    let amount = depreciation_for_period(&a, &ymd(2025, 1, 1), &ymd(2026, 12, 31)).to_ore();
    assert_eq!(amount, 12_000_00);
}

#[test]
fn assets_disposed_before_the_year_are_not_summarised() {
    let gone = asset("2023-01-01", 12_000_00, 36, Some("2024-03-15"));
    let held = asset("2025-07-01", 36_000_00, 36, None);
    let s = depreciation_summary("fy".to_string(), "2025-01-01", "2025-12-31", &[gone, held]);
    assert_eq!(s.assets.len(), 1);
    assert_eq!(s.total_depreciation.to_ore(), 6_000_00);
}

#[test]
fn an_asset_starting_with_the_period_is_depreciated_in_full() {
    let a = asset("2025-01-01", 1_200_00, 12, None);
    assert_eq!(depreciation_for_period(&a, &ymd(2025, 1, 1), &ymd(2025, 12, 31)).to_ore(), 1_200_00);
    assert_eq!(depreciation_for_period(&a, &ymd(2026, 1, 1), &ymd(2026, 12, 31)).to_ore(), 0);
}
