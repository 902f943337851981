use balans::money::parse_decimal_text;
use balans::sie::parser::{
    format_sie_date, parse_balance_line, parse_konto_line, parse_quoted_fields, parse_rar_line,
    parse_sie_str, parse_trans_line, split_tag, to_sie_date, try_parse_sie_str, unquote,
    SieParseError,
};
use balans::sie::types::{BalanceType, SieImportPreview, SieType};

const SAMPLE_SIE4: &str = r#"#FLAGGA 0
#FORMAT PC8
#SIETYP 4
#PROGRAM "Balans" "1.0"
#GEN 20260101
#FNAMN "Testföretaget AB"
#ORGNR 5561234567
#RAR 0 20250101 20251231
#RAR -1 20240101 20241231
#KONTO 1910 "Kassa"
#KONTO 3010 "Försäljning tjänster"
#KTYP 1910 T
#KTYP 3010 I
#IB 0 1910 50000.00
#UB 0 1910 75000.00
#VER A 1 20250115 "Kundbetalning"
{
  #TRANS 1910 {} 10000.00
  #TRANS 3010 {} -10000.00
}
#VER A 2 20250220 "Kontantförsäljning"
{
  #TRANS 1910 {} 5000.00
  #TRANS 3010 {} -5000.00
}
"#;

fn dec(s: &str) -> balans::money::DecimalNumber {
    parse_decimal_text(s).unwrap()
}

#[test]
fn test_parse_full_sie4() {
    let file = parse_sie_str(SAMPLE_SIE4).unwrap();

    assert_eq!(file.sie_type, SieType::Type4);
    assert_eq!(file.company_name.as_deref(), Some("Testföretaget AB"));
    assert_eq!(file.org_number.as_deref(), Some("5561234567"));
    assert_eq!(file.program.as_deref(), Some("Balans"));

    // Fiscal years
    assert_eq!(file.fiscal_years.len(), 2);
    assert_eq!(file.fiscal_years[0].index, 0);
    assert_eq!(file.fiscal_years[0].start_date, "2025-01-01");

    // Accounts
    assert_eq!(file.accounts.len(), 2);
    assert_eq!(file.accounts[0].number, 1910);
    assert_eq!(file.accounts[0].name, "Kassa");
    assert_eq!(file.accounts[0].account_type.as_deref(), Some("T"));

    // Balances
    assert_eq!(file.balances.len(), 2);
    let ib = &file.balances[0];
    assert_eq!(ib.balance_type, BalanceType::Opening);
    assert_eq!(ib.account_number, 1910);
    assert_eq!(ib.amount, dec("50000.00"));

    // Vouchers
    assert_eq!(file.vouchers.len(), 2);
    assert_eq!(file.vouchers[0].series, "A");
    assert_eq!(file.vouchers[0].number, Some(1));
    assert_eq!(file.vouchers[0].date, "2025-01-15");
    assert_eq!(file.vouchers[0].description, "Kundbetalning");
    assert_eq!(file.vouchers[0].lines.len(), 2);
    assert_eq!(file.vouchers[0].lines[0].amount, dec("10000.00"));
    assert_eq!(file.vouchers[0].lines[1].amount, dec("-10000.00"));
}

#[test]
fn test_parse_preview() {
    let file = parse_sie_str(SAMPLE_SIE4).unwrap();
    let preview = SieImportPreview::from(&file);

    assert_eq!(preview.sie_type, "4");
    assert_eq!(preview.account_count, 2);
    assert_eq!(preview.voucher_count, 2);
    assert_eq!(preview.transaction_count, 4);
    assert_eq!(preview.opening_balances, 1);
    assert_eq!(preview.closing_balances, 1);
}

#[test]
fn test_unquote() {
    assert_eq!(unquote("\"hello\""), "hello");
    assert_eq!(unquote("hello"), "hello");
    assert_eq!(unquote("\"\""), "");
}

#[test]
fn test_format_sie_date() {
    assert_eq!(format_sie_date("20250115"), "2025-01-15");
    assert_eq!(format_sie_date("2025-01-15"), "2025-01-15");
}

#[test]
fn test_parse_quoted_fields() {
    let fields = parse_quoted_fields("\"Balans\" \"1.0\"");
    assert_eq!(fields, vec!["Balans", "1.0"]);

    let fields = parse_quoted_fields("A 1 20250115 \"Kundbetalning\"");
    assert_eq!(fields, vec!["A", "1", "20250115", "Kundbetalning"]);
}

#[test]
fn quoted_field_without_closing_quote_runs_to_the_end() {
    assert_eq!(parse_quoted_fields("a \"b c"), vec!["a", "b c"]);
    assert_eq!(parse_quoted_fields("   "), Vec::<String>::new());
}

#[test]
fn split_tag_separates_tag_and_rest() {
    assert_eq!(split_tag("#KONTO 1910 \"Kassa\""), ("#KONTO".to_string(), "1910 \"Kassa\"".to_string()));
    assert_eq!(split_tag("#FLAGGA"), ("#FLAGGA".to_string(), String::new()));
}

#[test]
fn to_sie_date_removes_dashes() {
    assert_eq!(to_sie_date("2025-01-15"), "20250115");
    assert_eq!(to_sie_date("20250115"), "20250115");
}

#[test]
fn rar_line_errors() {
    match parse_rar_line("0 20250101", 7) {
        Err(SieParseError::ParseError { line, message }) => {
            assert_eq!(line, 7);
            assert_eq!(message, "RAR requires index, start_date, end_date");
        }
        other => panic!("unexpected {other:?}"),
    }
    match parse_rar_line("x 20250101 20251231", 3) {
        Err(SieParseError::ParseError { message, .. }) => assert_eq!(message, "Invalid RAR index: x"),
        other => panic!("unexpected {other:?}"),
    }
    let fy = parse_rar_line("-1 20240101 20241231", 0).unwrap().unwrap();
    assert_eq!(fy.index, -1);
    assert_eq!(fy.end_date, "2024-12-31");
}

#[test]
fn konto_and_balance_line_errors() {
    match parse_konto_line("1910", 2) {
        Err(SieParseError::ParseError { message, .. }) => assert_eq!(message, "KONTO requires number and name"),
        other => panic!("unexpected {other:?}"),
    }
    match parse_konto_line("abc \"Kassa\"", 2) {
        Err(SieParseError::ParseError { message, .. }) => assert_eq!(message, "Invalid account number: abc"),
        other => panic!("unexpected {other:?}"),
    }
    match parse_balance_line("0 1910 12x", BalanceType::Closing, 4) {
        Err(SieParseError::InvalidAmount(s)) => assert_eq!(s, "12x"),
        other => panic!("unexpected {other:?}"),
    }
    let b = parse_balance_line("0 1910 -12.5", BalanceType::Closing, 4).unwrap().unwrap();
    assert_eq!(b.account_number, 1910);
    assert_eq!(b.amount, dec("-12.5"));
}

#[test]
fn trans_line_with_date_and_description() {
    let t = parse_trans_line("#TRANS 1910 {1 \"x\"} 250.00 20250301 \"Kaffe\"", 0).unwrap();
    assert_eq!(t.account_number, 1910);
    assert_eq!(t.amount, dec("250.00"));
    assert_eq!(t.date.as_deref(), Some("2025-03-01"));
    assert_eq!(t.description.as_deref(), Some("Kaffe"));
    match parse_trans_line("#TRANS 1910 {}", 9) {
        Err(SieParseError::ParseError { line, message }) => {
            assert_eq!(line, 9);
            assert_eq!(message, "TRANS requires amount");
        }
        other => panic!("unexpected {other:?}"),
    }
    match parse_trans_line("#TRANS abc {} 1", 9) {
        Err(e) => assert_eq!(e.to_text(), "Parse error on line 9: Invalid account in TRANS: abc"),
        other => panic!("unexpected {other:?}"),
    }
}

#[test]
fn invalid_sie_type_is_reported() {
    match parse_sie_str("#SIETYP 3\n") {
        Err(e) => assert_eq!(e.to_text(), "Invalid SIE type: 3"),
        Ok(_) => panic!("type 3 accepted"),
    }
}

#[test]
fn unterminated_voucher_is_dropped_and_lines_outside_blocks_ignored() {
    let file = parse_sie_str("#VER A 1 20250101 \"x\"\n#TRANS 1910 {} 1\n{\n#TRANS 1910 {} 2\n").unwrap();
    assert_eq!(file.vouchers.len(), 0);
}

#[test]
fn date_cut_inside_a_character_is_refused_by_the_total_reader() {
    // eight bytes whose fourth byte lies inside the second '€'
    assert!(try_parse_sie_str("#GEN €€ab\n").is_none());
    assert!(try_parse_sie_str("#GEN 20250101\n").is_some());
}

#[test]
fn sie_dates_convert_both_ways() {
    assert_eq!(format_sie_date(&to_sie_date("2025-03-15")), "2025-03-15");
    assert_eq!(to_sie_date(&format_sie_date("20250315")), "20250315");
}

#[test]
fn unknown_tags_are_passed_over() {
    let plain = "#SIETYP 4\n#KONTO 1910 \"Kassa\"\n#VER A 1 20250101 \"x\"\n{\n#TRANS 1910 {} 1.00\n}\n";
    let noisy = "#SIETYP 4\n#OKANT 1 2 3\n#KONTO 1910 \"Kassa\"\n#VER A 1 20250101 \"x\"\n{\n#RTRANS 1910 {} 1.00\n#TRANS 1910 {} 1.00\n}\n";
    let a = parse_sie_str(plain).unwrap();
    let b = parse_sie_str(noisy).unwrap();
    assert_eq!(a.accounts.len(), b.accounts.len());
    assert_eq!(b.vouchers.len(), 1);
    assert_eq!(b.vouchers[0].lines.len(), 1);
    assert_eq!(a.vouchers[0].lines[0].amount, b.vouchers[0].lines[0].amount);
}

#[test]
fn an_inserted_dim_line_changes_nothing() {
    let base = "#SIETYP 4\n#FNAMN \"Test AB\"\n#KONTO 1910 \"Kassa\"\n#IB 0 1910 12.50\n";
    let with_dim = "#SIETYP 4\n#FNAMN \"Test AB\"\n#DIM 1 Kst\n#KONTO 1910 \"Kassa\"\n#IB 0 1910 12.50\n";
    let a = parse_sie_str(base).unwrap();
    let b = parse_sie_str(with_dim).unwrap();
    assert_eq!(a.company_name, b.company_name);
    assert_eq!(a.accounts.len(), b.accounts.len());
    assert_eq!(a.balances, b.balances);
    // an error stays an error
    assert!(parse_sie_str("#KONTO x \"Kassa\"\n").is_err());
    assert!(parse_sie_str("#DIM 1 Kst\n#KONTO x \"Kassa\"\n").is_err());
}
