use balans::ledger::AccountBalance;
use balans::models::company::Company;
use balans::models::fiscal_year::FiscalYear;
use balans::money::Money;
use balans::report::annual_report::{assemble_annual_report, AnnualReport};
use balans::report::balance_sheet::{balance_sheet_data, BalanceSheet};
use balans::report::income_statement::{income_statement_data, IncomeStatement};
use balans::report::multi_year::{equity_ratio, multi_year_overview, year_summary, YearBalances};
use balans::report::notes::required_notes;
use balans::report::pdf::{format_sek, page_header, pdf_plan, push_section, Align, PdfBlock, PdfPlan};

fn bal(n: i32, d: i64, c: i64) -> AccountBalance {
    AccountBalance { account_number: n, total_debit: Money::from_ore(d), total_credit: Money::from_ore(c) }
}

fn company() -> Company {
    Company {
        id: "c1".to_string(),
        name: "Exempel AB".to_string(),
        org_number: "5561234567".to_string(),
        company_form: "AB".to_string(),
        fiscal_year_start_month: 1,
        address: None,
        postal_code: None,
        city: None,
        created_at: String::new(),
        updated_at: String::new(),
    }
}

fn report(with_previous: bool) -> AnnualReport {
    let fy = FiscalYear {
        id: "fy".to_string(),
        company_id: "c1".to_string(),
        start_date: "2025-01-01".to_string(),
        end_date: "2025-12-31".to_string(),
        is_closed: true,
        closed_at: None,
        created_at: String::new(),
    };
    let ops = vec![bal(3010, 0, 1_234_567_50), bal(5010, 250_000_00, 0), bal(7830, 10_000_00, 0)];
    let all = vec![bal(1910, 750_000_00, 0), bal(2099, 0, 750_000_00)];
    let previous = if with_previous {
        Some(income_statement_data("2024-01-01", "2024-12-31", &[bal(3010, 0, 500_000_00)]))
    } else {
        None
    };
    let is = IncomeStatement { current: income_statement_data("2025-01-01", "2025-12-31", &ops), previous };
    let bs = BalanceSheet { current: balance_sheet_data("2025-12-31", &all), previous: None };
    assemble_annual_report(&company(), &fy, is, bs, required_notes())
}

fn texts(plan: &PdfPlan) -> Vec<String> {
    plan.blocks
        .iter()
        .filter_map(|b| match b {
            PdfBlock::Text(p) => Some(p.text.clone()),
            _ => None,
        })
        .collect()
}

fn tables(plan: &PdfPlan) -> Vec<Vec<Vec<String>>> {
    plan.blocks
        .iter()
        .filter_map(|b| match b {
            PdfBlock::Table(t) => {
                Some(t.rows.iter().map(|r| r.iter().map(|c| c.text.clone()).collect()).collect())
            }
            _ => None,
        })
        .collect()
}

#[test]
fn kronor_are_rounded_half_to_even_and_grouped() {
    assert_eq!(format_sek(-1234500), "-12 345");
    assert_eq!(format_sek(123456700), "1 234 567");
    assert_eq!(format_sek(250), "2");
    assert_eq!(format_sek(350), "4");
    assert_eq!(format_sek(-40), "0");
    assert_eq!(format_sek(0), "0");
    assert_eq!(format_sek(99999999), "1 000 000");
}

#[test]
fn plan_has_title_and_header() {
    let plan = pdf_plan(&report(false));
    assert_eq!(plan.title, "Årsredovisning Exempel AB 2025-12-31");
    assert_eq!(plan.header, "Exempel AB  ·  556123-4567");
    let t = texts(&plan);
    assert_eq!(t[0], "ÅRSREDOVISNING");
    assert!(t.contains(&"Org.nr 556123-4567".to_string()));
    assert!(t.contains(&"Räkenskapsår 2025-01-01 – 2025-12-31".to_string()));
    assert!(t.contains(&"Exempel AB, den _______________".to_string()));
    assert_eq!(t.last().unwrap(), "Vår revisionsberättelse har lämnats denna dag.");
    let pages = plan.blocks.iter().filter(|b| matches!(b, PdfBlock::NewPage)).count();
    assert_eq!(pages, 5);
}

#[test]
fn income_statement_rows_follow_the_figures() {
    let plan = pdf_plan(&report(true));
    let tabs = tables(&plan);
    // allocation tables come first, then the income statement
    let is = &tabs[2];
    assert_eq!(is[0], vec!["", "2025-01-01 — 2025-12-31", "2024-01-01 — 2024-12-31"]);
    assert_eq!(is[1], vec!["Nettoomsättning", "1 234 568", "500 000"]);
    assert_eq!(is[2][0], "Råvaror och förnödenheter");
    assert_eq!(is[3], vec!["Övriga externa kostnader", "-250 000", "0"]);
    assert!(is.iter().any(|r| r[0] == "Av- och nedskrivningar" && r[1] == "-10 000"));
    assert!(!is.iter().any(|r| r[0] == "Finansiella intäkter"));
    assert_eq!(is.last().unwrap()[0], "Årets resultat");
}

#[test]
fn previous_column_is_dashed_without_a_previous_year() {
    let plan = pdf_plan(&report(false));
    let tabs = tables(&plan);
    assert_eq!(tabs[2][0][2], "—");
    assert_eq!(tabs[2][1][2], "");
}

#[test]
fn balance_sheet_shows_only_what_it_has() {
    let plan = pdf_plan(&report(false));
    let tabs = tables(&plan);
    let assets = &tabs[3];
    let labels: Vec<&str> = assets.iter().map(|r| r[0].as_str()).collect();
    assert_eq!(
        labels,
        vec![
            "",
            "Anläggningstillgångar",
            "Summa anläggningstillgångar",
            "Omsättningstillgångar",
            "  Kortfristiga fordringar",
            "  Kassa och bank",
            "Summa omsättningstillgångar",
            "Summa tillgångar"
        ]
    );
    assert_eq!(assets[7][1], "750 000");
    let equity = &tabs[4];
    assert_eq!(equity.last().unwrap()[0], "Summa eget kapital och skulder");
    assert_eq!(equity.last().unwrap()[1], "750 000");
}

#[test]
fn allocation_has_no_dividend_row_when_none_is_proposed() {
    let plan = pdf_plan(&report(false));
    let tabs = tables(&plan);
    assert_eq!(tabs[0].len(), 3);
    assert_eq!(tabs[1].len(), 2);
    assert_eq!(tabs[1][0][0], "I ny räkning överföres");
}

#[test]
fn notes_split_into_lines() {
    let plan = pdf_plan(&report(false));
    let t = texts(&plan);
    assert!(t.contains(&"Not 3  Ställda säkerheter och ansvarsförbindelser".to_string()));
    assert!(t.contains(&"Ställda säkerheter: Inga".to_string()));
    assert!(t.contains(&"Ansvarsförbindelser: Inga".to_string()));
}

#[test]
fn sections_join_lines_and_skip_blank_pieces() {
    let mut out = Vec::new();
    push_section(&mut out, "Rubrik", "Rad ett  \nrad två\n\n\n\nNytt stycke", balans::report::pdf::heading_style(11));
    let t: Vec<String> = out
        .iter()
        .filter_map(|b| match b {
            PdfBlock::Text(p) => Some(p.text.clone()),
            _ => None,
        })
        .collect();
    assert_eq!(t, vec!["Rubrik", "Rad ett rad två", "Nytt stycke"]);
    let mut out2 = Vec::new();
    push_section(&mut out2, "Tom", "   ", balans::report::pdf::heading_style(11));
    match &out2[2] {
        PdfBlock::Text(p) => assert_eq!(p.text, "—"),
        _ => panic!("expected a paragraph"),
    }
}

#[test]
fn page_headers_start_on_page_two() {
    assert!(page_header("X AB  ·  556123-4567", 1).is_empty());
    let h = page_header("X AB  ·  556123-4567", 3);
    assert_eq!(h.len(), 3);
    match &h[1] {
        PdfBlock::Text(p) => {
            assert_eq!(p.text, "Sida 3");
            assert!(p.align == Align::Right);
        }
        _ => panic!("expected a paragraph"),
    }
}

#[test]
fn equity_ratio_is_a_rounded_percentage() {
    assert_eq!(equity_ratio(Money::from_ore(50_000_00), Money::from_ore(100_000_00)), "50.0%");
    assert_eq!(equity_ratio(Money::from_ore(100_000_00), Money::from_ore(100_000_00)), "100%");
    assert_eq!(equity_ratio(Money::from_ore(1_00), Money::from_ore(3_00)), "33.3%");
    assert_eq!(equity_ratio(Money::from_ore(5_00), Money::zero()), "N/A");
    assert_eq!(equity_ratio(Money::from_ore(5_00), Money::from_ore(-1_00)), "N/A");
}

#[test]
fn year_summary_sums_the_ranges() {
    let year = YearBalances {
        start_date: "2025-01-01".to_string(),
        end_date: "2025-12-31".to_string(),
        is_closed: true,
        ordinary: vec![
            bal(3010, 0, 200_000_00),
            bal(3100, 0, 5_000_00),
            bal(5010, 50_000_00, 0),
            bal(8310, 0, 1_000_00),
            bal(8410, 3_000_00, 0),
        ],
        all: vec![bal(1910, 400_000_00, 0), bal(2081, 0, 100_000_00), bal(2440, 0, 300_000_00)],
    };
    let y = year_summary(&year);
    assert_eq!(y.fiscal_year, "2025-01-01 — 2025-12-31");
    assert_eq!(y.net_revenue.to_ore(), 200_000_00);
    assert_eq!(y.operating_result.to_ore(), 150_000_00);
    assert_eq!(y.result_after_financial.to_ore(), 148_000_00);
    assert_eq!(y.total_assets.to_ore(), 400_000_00);
    assert_eq!(y.equity_ratio, "25.0%");
    let mut open = year.clone();
    open.is_closed = false;
    open.start_date = "2026-01-01".to_string();
    let o = multi_year_overview(&[year.clone(), open, year]);
    // the open year is left out
    assert_eq!(o.years.len(), 2);
}

#[test]
fn every_equity_account_has_a_line() {
    let d = balance_sheet_data("2025-12-31", &[bal(1910, 100, 0), bal(2005, 0, 60), bal(2050, 0, 40)]);
    assert_eq!(d.total_assets.to_ore(), 100);
    assert_eq!(d.equity_and_liabilities.restricted_equity.to_ore(), 60);
    assert_eq!(d.equity_and_liabilities.unrestricted_equity.to_ore(), 40);
    assert_eq!(d.total_equity_and_liabilities.to_ore(), 100);
}

#[test]
fn appropriations_are_the_net_credit_of_88xx() {
    let d = income_statement_data("2025-01-01", "2025-12-31", &[bal(3010, 0, 1000), bal(8810, 200, 500)]);
    assert_eq!(d.appropriations.to_ore(), 300);
    assert_eq!(d.result_before_tax.to_ore(), 1300);
}
