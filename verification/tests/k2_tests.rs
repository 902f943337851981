use balans::date::Date;
use balans::k2::closing::{
    closing_log_message, default_true, next_fiscal_year, opening_balance_lines, plan_closing, ClosingError,
};
use balans::k2::eligibility::{
    evaluate_eligibility, EligibilityInput, YearFigures, MAX_BALANCE_SHEET_SEK, MAX_EMPLOYEES, MAX_NET_REVENUE_SEK,
};
use balans::k2::validation::{estimated_tax, evaluate_closing, IssueSeverity};
use balans::ledger::AccountBalance;
use balans::money::Money;

fn bal(n: i32, d: i64, c: i64) -> AccountBalance {
    AccountBalance { account_number: n, total_debit: Money::from_ore(d), total_credit: Money::from_ore(c) }
}

#[test]
fn test_tax_calculation() {
    // 20.6 % of a profit of 100 000.00 kronor, rounded to whole kronor
    let tax = estimated_tax(Money::from_ore(100_000_00));
    assert_eq!(tax.to_ore(), 20600_00);
}

#[test]
fn test_tax_on_loss() {
    // No tax on losses
    let tax = estimated_tax(Money::from_ore(-50_000_00));
    assert!(tax.is_zero());
}

#[test]
fn tax_rounds_half_to_even_kronor() {
    // 20.6 % of 1213.59 kr is 249.99954 kr
    assert_eq!(estimated_tax(Money::from_ore(1213_59)).to_ore(), 250_00); // 249.9995 -> 250
    assert_eq!(estimated_tax(Money::from_ore(242)).to_ore(), 0); // 0.49852 -> 0
    assert_eq!(estimated_tax(Money::from_ore(243)).to_ore(), 100); // 0.50058 -> 1
}

#[test]
fn test_thresholds() {
    assert_eq!(MAX_EMPLOYEES, 50);
    assert_eq!(Money::from_ore(MAX_BALANCE_SHEET_SEK).to_text(), "40000000.00");
    assert_eq!(Money::from_ore(MAX_NET_REVENUE_SEK).to_text(), "80000000.00");
}

#[test]
fn eligibility_allows_one_threshold() {
    let r = evaluate_eligibility("AB", 50_000_000_00, 1_000_00, &EligibilityInput { average_employees: Some(3) }, None);
    assert!(r.is_eligible);
    assert_eq!(r.checks.thresholds_exceeded, 1);
    assert!(r.reason.is_none());
    // over two thresholds this year, none the year before: still eligible
    let quiet = YearFigures { balance_total: 1_000_00, revenue_total: 1_000_00, average_employees: 2 };
    let r = evaluate_eligibility("AB", 50_000_000_00, 90_000_000_00, &EligibilityInput { average_employees: None }, Some(quiet));
    assert!(r.is_eligible);
    assert_eq!(r.checks.previous_thresholds_exceeded, Some(0));
    // with no earlier year there are no two consecutive years
    let r = evaluate_eligibility("AB", 50_000_000_00, 90_000_000_00, &EligibilityInput { average_employees: None }, None);
    assert!(r.is_eligible);
    // two consecutive years over two thresholds
    let busy = YearFigures { balance_total: 50_000_000_00, revenue_total: 90_000_000_00, average_employees: 0 };
    let r = evaluate_eligibility("AB", 50_000_000_00, 90_000_000_00, &EligibilityInput { average_employees: None }, Some(busy));
    assert!(!r.is_eligible);
    assert_eq!(r.checks.average_employees, 0);
    assert_eq!(r.reason.as_deref(), Some("Företaget överskrider 2 av 3 gränsvärden. Högst 1 får överskridas."));
    let r = evaluate_eligibility("Stiftelse", 0, 0, &EligibilityInput { average_employees: Some(51) }, None);
    assert!(!r.is_eligible);
    assert!(r.checks.employees_exceeded);
    assert_eq!(r.reason.as_deref(), Some("Företagsformen Stiftelse är inte tillåten för K2."));
}

#[test]
fn validation_reports_errors_and_warnings() {
    let balances = vec![bal(1910, 100_00, 0), bal(2081, 0, 50_00), bal(3010, 0, 1000_00), bal(5010, 400_00, 0)];
    let r = evaluate_closing(true, 0, 2, &balances);
    assert!(!r.passed);
    let codes: Vec<&str> = r.errors.iter().map(|e| e.code.as_str()).collect();
    assert_eq!(codes, vec!["FY_ALREADY_CLOSED", "NO_VOUCHERS", "UNBALANCED_VOUCHERS"]);
    assert_eq!(r.errors[2].message, "2 verifikation(er) är inte balanserade.");
    assert_eq!(r.warnings.len(), 1);
    assert_eq!(r.warnings[0].code, "BALANCE_SHEET_DIFF");
    assert_eq!(r.warnings[0].severity, IssueSeverity::Warning);
    assert!(r.warnings[0].message.contains("(diff: 50.00)"));
    let s = &r.summary;
    assert_eq!(s.total_revenue.to_ore(), 1000_00);
    assert_eq!(s.total_expenses.to_ore(), 400_00);
    assert_eq!(s.result_before_tax.to_ore(), 600_00);
    assert_eq!(s.estimated_tax.to_ore(), 124_00); // 123.60 -> 124
    assert_eq!(s.net_result.to_ore(), 476_00);
    assert_eq!(s.total_assets.to_ore(), 100_00);
    assert_eq!(s.total_equity_and_liabilities.to_ore(), 50_00);
}

#[test]
fn validation_passes_a_clean_year() {
    let balances = vec![bal(1910, 1000_00, 0), bal(2081, 0, 1000_00), bal(3010, 0, 10_00), bal(4010, 10_00, 0)];
    let r = evaluate_closing(false, 3, 0, &balances);
    assert!(r.passed);
    assert!(r.warnings.is_empty());
}

#[test]
fn closing_plan_closes_the_income_statement() {
    let balances = vec![bal(1910, 1000_00, 0), bal(3010, 0, 1000_00), bal(5010, 400_00, 0)];
    let plan = match plan_closing(false, &balances, None) {
        Ok(p) => p,
        Err(_) => panic!("refused"),
    };
    assert_eq!(plan.vouchers.len(), 3);
    // Result voucher: close 3010 and 5010 against 8999
    let v1 = &plan.vouchers[0];
    assert_eq!(v1.description, "Avslut resultaträkning");
    let l: Vec<(i32, i64, i64)> = v1.lines.iter().map(|l| (l.account_number, l.debit.to_ore(), l.credit.to_ore())).collect();
    assert_eq!(l, vec![(3010, 1000_00, 0), (5010, 0, 400_00), (8999, 0, 600_00)]);
    assert_eq!(v1.total_amount.to_ore(), 1400_00);
    // Tax: 20.6 % of 600 = 123.60 -> 124
    assert_eq!(plan.tax_amount.to_ore(), 124_00);
    let v2 = &plan.vouchers[1];
    let l: Vec<(i32, i64, i64)> = v2.lines.iter().map(|l| (l.account_number, l.debit.to_ore(), l.credit.to_ore())).collect();
    assert_eq!(l, vec![(8910, 124_00, 0), (2510, 0, 124_00)]);
    // Transfer to equity
    let v3 = &plan.vouchers[2];
    assert_eq!(v3.description, "Överföring årets resultat till eget kapital");
    let l: Vec<(i32, i64, i64)> = v3.lines.iter().map(|l| (l.account_number, l.debit.to_ore(), l.credit.to_ore())).collect();
    assert_eq!(l, vec![(8910, 0, 124_00), (8999, 600_00, 0), (2099, 0, 476_00)]);
    assert_eq!(v3.total_amount.to_ore(), 476_00);
    // every voucher balances
    for v in &plan.vouchers {
        let d: i64 = v.lines.iter().map(|l| l.debit.to_ore()).sum();
        let c: i64 = v.lines.iter().map(|l| l.credit.to_ore()).sum();
        assert_eq!(d, c);
    }
}

#[test]
fn closing_a_loss_with_given_tax() {
    let balances = vec![bal(3010, 0, 100_00), bal(5010, 300_00, 0)];
    let plan = plan_closing(false, &balances, Some(Money::zero())).ok().unwrap();
    assert_eq!(plan.vouchers.len(), 2);
    let v3 = &plan.vouchers[1];
    let l: Vec<(i32, i64, i64)> = v3.lines.iter().map(|l| (l.account_number, l.debit.to_ore(), l.credit.to_ore())).collect();
    assert_eq!(l, vec![(8999, 0, 200_00), (2099, 200_00, 0)]);
}

#[test]
fn closed_year_is_refused() {
    assert!(matches!(plan_closing(true, &[], None), Err(ClosingError::AlreadyClosed)));
    assert!(default_true());
}

#[test]
fn next_fiscal_year_follows() {
    let (s, e) = next_fiscal_year(Date { year: 2025, month: 12, day: 31 });
    assert_eq!((s.year, s.month, s.day), (2026, 1, 1));
    assert_eq!((e.year, e.month, e.day), (2026, 12, 31));
    // A year that does not end in December: the next one ends on the same day one year on
    let (s, e) = next_fiscal_year(Date { year: 2025, month: 6, day: 30 });
    assert_eq!((s.year, s.month, s.day), (2025, 7, 1));
    assert_eq!((e.year, e.month, e.day), (2026, 6, 30));
    // 29 February has no match the year after: the month's last day
    let (s, e) = next_fiscal_year(Date { year: 2024, month: 2, day: 29 });
    assert_eq!((s.year, s.month, s.day), (2024, 3, 1));
    assert_eq!((e.year, e.month, e.day), (2025, 2, 28));
}

#[test]
fn opening_balances_carry_the_final_balances() {
    let lines = opening_balance_lines(&[bal(1910, 500_00, 100_00), bal(2081, 0, 400_00), bal(1930, 10, 10)]);
    let l: Vec<(i32, i64, i64)> = lines.iter().map(|l| (l.account_number, l.debit.to_ore(), l.credit.to_ore())).collect();
    assert_eq!(l, vec![(1910, 400_00, 0), (2081, 0, 400_00)]);
}

#[test]
fn closing_log_names_count_and_tax() {
    assert_eq!(closing_log_message(3, Money::from_ore(124_00)), "Closed with 3 closing vouchers, tax: 124.00");
}

#[test]
fn closing_tax_defaults_to_the_summary_estimate() {
    let bs = vec![bal(1930, 500_000, 0), bal(3010, 0, 1_000_000), bal(8810, 500_000, 0)];
    let plan = plan_closing(false, &bs, None).unwrap();
    assert_eq!(plan.tax_amount.to_ore(), 206_000);
}
