use balans::date::Date;
use balans::money::{parse_decimal_text, DecimalNumber};
use balans::sie::encoding::{decode_sie_bytes, encode_to_latin1};
use balans::sie::parser::{parse_sie, parse_sie_str};
use balans::sie::types::{
    BalanceType, SieAccount, SieBalance, SieFile, SieFiscalYear, SieTransaction, SieType, SieVoucher,
};
use balans::sie::writer::{write_sie, write_sie_string, SieType1Builder, SieType4Builder, PROGRAM_VERSION};

fn dec(s: &str) -> DecimalNumber {
    parse_decimal_text(s).unwrap()
}

#[test]
fn test_write_type1() {
    let builder = SieType1Builder {
        company_name: "Test AB".to_string(),
        org_number: "5561234567".to_string(),
        fiscal_year_start: "2025-01-01".to_string(),
        fiscal_year_end: "2025-12-31".to_string(),
        accounts: vec![
            (1910, "Kassa".to_string(), Some("T".to_string())),
            (3010, "Försäljning".to_string(), Some("I".to_string())),
        ],
        closing_balances: vec![(1910, dec("75000.00")), (3010, dec("-50000.00"))],
    };

    let file = builder.build();
    let output = write_sie_string(&file);

    assert!(output.contains("#SIETYP 1"));
    assert!(output.contains("#FNAMN \"Test AB\""));
    assert!(output.contains("#KONTO 1910 \"Kassa\""));
    assert!(output.contains("#UB 0 1910 75000.00"));
    // Type 1 should not contain vouchers
    assert!(!output.contains("#VER"));
}

fn roundtrip_builder() -> SieType4Builder {
    let voucher = SieVoucher {
        series: "A".to_string(),
        number: Some(1),
        date: "2025-03-15".to_string(),
        description: "Testverifikation".to_string(),
        lines: vec![
            SieTransaction { account_number: 1910, amount: dec("5000.00"), date: None, description: None },
            SieTransaction { account_number: 3010, amount: dec("-5000.00"), date: None, description: None },
        ],
    };
    SieType4Builder {
        company_name: "Roundtrip AB".to_string(),
        org_number: "5561234567".to_string(),
        fiscal_year_start: "2025-01-01".to_string(),
        fiscal_year_end: "2025-12-31".to_string(),
        accounts: vec![
            (1910, "Kassa".to_string(), Some("T".to_string())),
            (3010, "Försäljning".to_string(), Some("I".to_string())),
        ],
        opening_balances: vec![(1910, dec("10000.00"))],
        closing_balances: vec![(1910, dec("15000.00"))],
        vouchers: vec![voucher],
    }
}

#[test]
fn test_roundtrip_type4() {
    let original = roundtrip_builder().build();
    let written = write_sie_string(&original);

    // Parse it back
    let parsed = parse_sie_str(&written).unwrap();

    assert_eq!(parsed.sie_type, SieType::Type4);
    assert_eq!(parsed.company_name.as_deref(), Some("Roundtrip AB"));
    assert_eq!(parsed.accounts.len(), 2);
    assert_eq!(parsed.vouchers.len(), 1);
    assert_eq!(parsed.vouchers[0].lines.len(), 2);
    assert_eq!(parsed.vouchers[0].lines[0].amount, dec("5000.00"));

    // Balances
    let opening: Vec<_> = parsed.balances.iter().filter(|b| b.balance_type == BalanceType::Opening).collect();
    assert_eq!(opening.len(), 1);
    assert_eq!(opening[0].amount, dec("10000.00"));
}

#[test]
fn builder_with_a_date_writes_the_exact_file() {
    let file = roundtrip_builder().build_with_date("2026-02-03".to_string());
    let text = write_sie_string(&file);
    let expected = format!(
        "#FLAGGA 0\n#FORMAT PC8\n#SIETYP 4\n#PROGRAM \"Balans\" \"{PROGRAM_VERSION}\"\n#GEN 20260203\n\
         #FNAMN \"Roundtrip AB\"\n#ORGNR 5561234567\n#RAR 0 20250101 20251231\n\
         #KONTO 1910 \"Kassa\"\n#KTYP 1910 T\n#KONTO 3010 \"Försäljning\"\n#KTYP 3010 I\n\
         #IB 0 1910 10000.00\n#UB 0 1910 15000.00\n\
         #VER A 1 20250315 \"Testverifikation\"\n{{\n\t#TRANS 1910 {{}} 5000.00\n\t#TRANS 3010 {{}} -5000.00\n}}\n"
    );
    assert_eq!(text, expected);
}

#[test]
fn builder_leaves_out_zero_balances() {
    let mut builder = roundtrip_builder();
    builder.closing_balances = vec![(1910, dec("0.00")), (3010, dec("-1.50"))];
    let file = builder.build_with_date("2026-01-01".to_string());
    assert_eq!(file.balances.len(), 2);
    assert_eq!(file.balances[0].balance_type, BalanceType::Opening);
    assert_eq!(file.balances[1].account_number, 3010);
    assert_eq!(file.balances[1].amount, dec("-1.50"));
}

#[test]
fn built_file_has_todays_date() {
    let file = roundtrip_builder().build();
    let gen = file.gen_date.unwrap();
    assert_eq!(gen.len(), 10);
    assert_eq!(&gen[4..5], "-");
    assert_eq!(&gen[7..8], "-");
}

#[test]
fn write_sie_encodes_latin1() {
    let file = roundtrip_builder().build_with_date("2026-01-01".to_string());
    let bytes = write_sie(&file);
    assert!(bytes.windows(2).any(|w| w == [0xE4, 0x6C])); // "äl" of Försäljning
    let back = decode_sie_bytes(&bytes);
    assert_eq!(back, write_sie_string(&file));
}

#[test]
fn type1_file_has_no_vouchers_even_when_given() {
    let mut file = roundtrip_builder().build_with_date("2026-01-01".to_string());
    file.sie_type = SieType::Type1;
    assert!(!write_sie_string(&file).contains("#VER"));
}

#[test]
fn dates_of_a_year_print_as_iso() {
    let d = Date { year: 2025, month: 3, day: 9 };
    assert_eq!(balans::date::date_to_string(d), "2025-03-09");
    let d = Date { year: -5, month: 1, day: 1 };
    assert_eq!(balans::date::date_to_string(d), "-0005-01-01");
    let d = Date { year: 12345, month: 12, day: 31 };
    assert_eq!(balans::date::date_to_string(d), "+12345-12-31");
}

#[test]
fn test_utf8_passthrough() {
    let input = "Försäljning tjänster".as_bytes();
    let result = decode_sie_bytes(input);
    assert_eq!(result, "Försäljning tjänster");
}

#[test]
fn test_latin1_decode() {
    // "Försäljning" in Latin-1
    let latin1_bytes: Vec<u8> = vec![0x46, 0xF6, 0x72, 0x73, 0xE4, 0x6C, 0x6A, 0x6E, 0x69, 0x6E, 0x67];
    let result = decode_sie_bytes(&latin1_bytes);
    assert_eq!(result, "Försäljning");
}

#[test]
fn test_latin1_encode_roundtrip() {
    let original = "Årsredovisning för företaget";
    let encoded = encode_to_latin1(original);
    let decoded = decode_sie_bytes(&encoded);
    assert_eq!(decoded, original);
}

#[test]
fn characters_outside_latin1_become_question_marks() {
    assert_eq!(encode_to_latin1("a€b"), vec![b'a', b'?', b'b']);
}

#[test]
fn written_file_reads_back_field_by_field() {
    let mut file = SieFile::new(SieType::Type4);
    file.program = Some("Balans".to_string());
    file.program_version = Some("2.3".to_string());
    file.gen_date = Some("2026-02-03".to_string());
    file.company_name = Some("Åkeri \"Norr\" AB".to_string());
    file.org_number = Some("556123-4567".to_string());
    file.fiscal_years = vec![
        SieFiscalYear { index: 0, start_date: "2025-01-01".to_string(), end_date: "2025-12-31".to_string() },
        SieFiscalYear { index: -1, start_date: "2024-01-01".to_string(), end_date: "2024-12-31".to_string() },
    ];
    file.accounts = vec![
        SieAccount { number: 1910, name: "Kassa".to_string(), account_type: Some("T".to_string()) },
        SieAccount { number: 2440, name: "Leverantörsskulder".to_string(), account_type: None },
    ];
    file.balances = vec![
        SieBalance { balance_type: BalanceType::Opening, year_index: 0, account_number: 1910, amount: dec("-12.5") },
        SieBalance { balance_type: BalanceType::Closing, year_index: -1, account_number: 2440, amount: dec("7") },
    ];
    file.vouchers = vec![SieVoucher {
        series: "B".to_string(),
        number: Some(-3),
        date: "2025-06-30".to_string(),
        description: "".to_string(),
        lines: vec![
            SieTransaction {
                account_number: 1910,
                amount: dec("100.25"),
                date: Some("2025-06-29".to_string()),
                description: Some("Kontant".to_string()),
            },
            SieTransaction {
                account_number: 2440,
                amount: dec("-100.25"),
                date: Some("2025-06-28".to_string()),
                description: None,
            },
        ],
    }];
    let parsed = parse_sie_str(&write_sie_string(&file)).unwrap();
    assert_eq!(parsed.sie_type, SieType::Type4);
    assert_eq!(parsed.program, file.program);
    assert_eq!(parsed.program_version, file.program_version);
    assert_eq!(parsed.gen_date, file.gen_date);
    assert_eq!(parsed.company_name, file.company_name);
    assert_eq!(parsed.org_number, file.org_number);
    assert_eq!(parsed.fiscal_years.len(), 2);
    for (p, f) in parsed.fiscal_years.iter().zip(file.fiscal_years.iter()) {
        assert_eq!((p.index, &p.start_date, &p.end_date), (f.index, &f.start_date, &f.end_date));
    }
    assert_eq!(parsed.accounts.len(), 2);
    for (p, f) in parsed.accounts.iter().zip(file.accounts.iter()) {
        assert_eq!((p.number, &p.name, &p.account_type), (f.number, &f.name, &f.account_type));
    }
    assert_eq!(parsed.balances, file.balances);
    assert_eq!(parsed.vouchers.len(), 1);
    let (p, f) = (&parsed.vouchers[0], &file.vouchers[0]);
    assert_eq!((&p.series, p.number, &p.date, &p.description), (&f.series, f.number, &f.date, &f.description));
    assert_eq!(p.lines.len(), 2);
    for (a, b) in p.lines.iter().zip(f.lines.iter()) {
        assert_eq!((a.account_number, a.amount, &a.date, &a.description), (b.account_number, b.amount, &b.date, &b.description));
    }
}

#[test]
fn written_bytes_read_back() {
    let file = roundtrip_builder().build_with_date("2026-02-03".to_string());
    let parsed = parse_sie(&write_sie(&file)).unwrap();
    assert_eq!(parsed.company_name.as_deref(), Some("Roundtrip AB"));
    assert_eq!(parsed.accounts[1].name, "Försäljning");
    assert_eq!(parsed.accounts[1].account_type.as_deref(), Some("I"));
    assert_eq!(parsed.gen_date.as_deref(), Some("2026-02-03"));
    assert_eq!(parsed.balances, file.balances);
}

#[test]
fn a_text_without_a_date_keeps_its_place() {
    let mut file = SieFile::new(SieType::Type4);
    file.vouchers = vec![SieVoucher {
        series: "A".to_string(),
        number: Some(1),
        date: "2025-03-15".to_string(),
        description: "V".to_string(),
        lines: vec![SieTransaction {
            account_number: 1910,
            amount: dec("100.00"),
            date: None,
            description: Some("Moms".to_string()),
        }],
    }];
    let text = write_sie_string(&file);
    assert!(text.contains("\t#TRANS 1910 {} 100.00 \"\" \"Moms\"\n"));
    let parsed = parse_sie_str(&text).unwrap();
    // the text keeps its place; the empty date field reads back as an empty date
    assert_eq!(parsed.vouchers[0].lines[0].description.as_deref(), Some("Moms"));
    assert_eq!(parsed.vouchers[0].lines[0].date.as_deref(), Some(""));
}
