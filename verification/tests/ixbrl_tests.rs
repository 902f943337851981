use balans::filing::ixbrl::{compute_checksum, escape_xml, fmt_sek, format_org_number, generate_ixbrl};
use balans::ledger::AccountBalance;
use balans::models::company::Company;
use balans::models::fiscal_year::FiscalYear;
use balans::money::Money;
use balans::report::annual_report::assemble_annual_report;
use balans::report::balance_sheet::{balance_sheet_data, BalanceSheet};
use balans::report::income_statement::{income_statement_data, IncomeStatement};
use balans::report::notes::required_notes;

#[test]
fn test_fmt_sek() {
    // from_ore(15000) = 150.00 SEK → 150 SEK → "150"
    assert_eq!(fmt_sek(Money::from_ore(15000)), "150");
    // from_ore(10000000) = 100000.00 SEK → "100 000"
    assert_eq!(fmt_sek(Money::from_ore(10000000)), "100 000");
    assert_eq!(fmt_sek(Money::zero()), "-");
    assert_eq!(fmt_sek(Money::from_ore(-500000)), "-5 000");
}

#[test]
fn test_escape_xml() {
    assert_eq!(escape_xml("a & b"), "a &amp; b");
    assert_eq!(escape_xml("<tag>"), "&lt;tag&gt;");
}

#[test]
fn test_checksum() {
    let content = "test content";
    let hash = compute_checksum(content);
    assert_eq!(hash.len(), 64); // SHA-256 hex = 64 chars
}

#[test]
fn checksum_is_sha256_in_lowercase_hex() {
    assert_eq!(compute_checksum("abc"), "ba7816bf8f01cfea414140de5dae2223b00361a396177a9cb410ff61f20015ad");
}

#[test]
fn fmt_sek_truncates_to_kronor() {
    assert_eq!(fmt_sek(Money::from_ore(99)), "0");
    assert_eq!(fmt_sek(Money::from_ore(-123456789)), "-1 234 567");
    assert_eq!(fmt_sek(Money::from_ore(100000000)), "1 000 000");
}

#[test]
fn quotes_are_escaped_too() {
    assert_eq!(escape_xml("\"x\" & 'y'"), "&quot;x&quot; &amp; 'y'");
}

#[test]
fn org_numbers_get_a_dash() {
    assert_eq!(format_org_number("5561234567"), "556123-4567");
    assert_eq!(format_org_number("556123-4567"), "556123-4567");
    assert_eq!(format_org_number("123"), "123");
}

fn bal(n: i32, d: i64, c: i64) -> AccountBalance {
    AccountBalance { account_number: n, total_debit: Money::from_ore(d), total_credit: Money::from_ore(c) }
}

fn company() -> Company {
    Company {
        id: "c1".to_string(),
        name: "Test & Co AB".to_string(),
        org_number: "5561234567".to_string(),
        company_form: "AB".to_string(),
        fiscal_year_start_month: 1,
        address: None,
        postal_code: None,
        city: Some("Lund".to_string()),
        created_at: String::new(),
        updated_at: String::new(),
    }
}

#[test]
fn ixbrl_document_tags_the_figures() {
    let fy = FiscalYear {
        id: "fy".to_string(),
        company_id: "c1".to_string(),
        start_date: "2025-01-01".to_string(),
        end_date: "2025-12-31".to_string(),
        is_closed: true,
        closed_at: None,
        created_at: String::new(),
    };
    let ops = vec![bal(3010, 0, 1_000_000_00), bal(5010, 250_000_00, 0)];
    let all = vec![bal(1910, 750_000_00, 0), bal(2099, 0, 750_000_00)];
    let is = IncomeStatement {
        current: income_statement_data("2025-01-01", "2025-12-31", &ops),
        previous: Some(income_statement_data("2024-01-01", "2024-12-31", &[])),
    };
    let bs = BalanceSheet { current: balance_sheet_data("2025-12-31", &all), previous: None };
    let report = assemble_annual_report(&company(), &fy, is, bs, required_notes());
    let doc = generate_ixbrl(&report);
    assert!(doc.starts_with("<?xml version=\"1.0\" encoding=\"UTF-8\"?>\n<!DOCTYPE html>"));
    assert!(doc.ends_with("</body>\n</html>"));
    assert!(doc.contains("<title>Årsredovisning Test & Co AB 2025-12-31</title>"));
    assert!(doc.contains("<p>Org.nr: 556123-4567</p>"));
    assert!(doc.contains("<xbrli:context id=\"previous\">"));
    assert!(doc.contains("<xbrli:startDate>2024-01-01</xbrli:startDate>"));
    assert!(doc.contains(
        "name=\"se-gen-base:Nettoomsattning\" contextRef=\"current\" unitRef=\"SEK\" decimals=\"0\" format=\"ixt:num-dot-decimal\">1 000 000</ix:nonFraction>"
    ));
    assert!(doc.contains("name=\"se-gen-base:OvrigaExternaKostnader\" contextRef=\"current\" unitRef=\"SEK\" decimals=\"0\" format=\"ixt:num-dot-decimal\">-250 000</ix:nonFraction>"));
    assert!(doc.contains("contextRef=\"current_instant\" unitRef=\"SEK\" decimals=\"0\" format=\"ixt:num-dot-decimal\">750 000</ix:nonFraction>"));
    assert!(doc.contains("Test &amp; Co AB bedriver verksamhet med säte i Lund."));
    assert!(doc.contains("<p class=\"note-title\">Not 3: Ställda säkerheter och ansvarsförbindelser</p>"));
    assert!(doc.contains("Ställda säkerheter: Inga<br/>Ansvarsförbindelser: Inga"));
    assert!(doc.contains("<tr><th class=\"label\">I ny räkning överföres</th><td>750 000</td></tr>"));
}
