use balans::ledger::AccountBalance;
use balans::money::Money;
use balans::tax::ink2::{build_ink2_data, sru_label, sru_section, AccountSru, Ink2Data, Ink2Field};
use balans::tax::sru::generate_sru;

fn field(code: &str, label: &str, ore: i64, accounts: Vec<i32>) -> Ink2Field {
    Ink2Field { sru_code: code.to_string(), label: label.to_string(), amount: Money::from_ore(ore), accounts }
}

#[test]
fn test_generate_sru_basic() {
    let data = Ink2Data {
        company_name: "Test AB".to_string(),
        org_number: "5561234567".to_string(),
        fiscal_year_start: "2025-01-01".to_string(),
        fiscal_year_end: "2025-12-31".to_string(),
        fields: vec![
            field("7410", "Nettoomsättning", 10_000_00, vec![3010]),
            field("7430", "Övriga externa kostnader", 3_000_00, vec![5010]),
        ],
        sections: vec![],
    };

    let sru = generate_sru(&data);

    assert!(sru.contains("#PRODUKT SRU"));
    assert!(sru.contains("#ORGNR 5561234567"));
    assert!(sru.contains("#BLANESSION INK2R"));
    assert!(sru.contains("#UPPGIFT 7410 100")); // 10000 ören = 100 SEK
    assert!(sru.contains("#UPPGIFT 7430 30")); // 3000 ören = 30 SEK
    assert!(sru.contains("#BLANESSION INK2S"));
    assert!(sru.contains("#BLANKETTSLUT"));
}

#[test]
fn test_sru_format_structure() {
    let data = Ink2Data {
        company_name: "Empty AB".to_string(),
        org_number: "5561234567".to_string(),
        fiscal_year_start: "2025-01-01".to_string(),
        fiscal_year_end: "2025-12-31".to_string(),
        fields: vec![],
        sections: vec![],
    };

    let sru = generate_sru(&data);

    // Verify required sections exist
    assert!(sru.contains("#DATABESKRIVNING_START"));
    assert!(sru.contains("#DATABESKRIVNING_SLUT"));
    assert!(sru.contains("#MEDGIVANDE_START"));
    assert!(sru.contains("#MEDGIVANDE_SLUT"));
    // Two blankett blocks (INK2R + INK2S)
    assert_eq!(sru.matches("#BLANKETTSTART").count(), 2);
    assert_eq!(sru.matches("#BLANKETTSLUT").count(), 2);
}

#[test]
fn sru_reports_whole_kronor_and_the_booked_result() {
    let data = Ink2Data {
        company_name: "Test AB".to_string(),
        org_number: "5561234567".to_string(),
        fiscal_year_start: "2025-01-01".to_string(),
        fiscal_year_end: "2025-12-31".to_string(),
        fields: vec![
            field("7410", "Nettoomsättning", 1_000_050, vec![3010]),
            field("7430", "Övriga externa kostnader", 300_099, vec![5010]),
            field("7511", "Räntekostnader och liknande", -150, vec![8410]),
            field("7260", "Kassa och bank", 0, vec![1910]),
        ],
        sections: vec![],
    };
    let sru = generate_sru(&data);
    assert!(sru.contains("#UPPGIFT 7410 10000\n"));
    assert!(sru.contains("#UPPGIFT 7430 3000\n"));
    assert!(sru.contains("#UPPGIFT 7511 -1\n"));
    assert!(!sru.contains("#UPPGIFT 7260"));
    // (1_000_050 - 300_099 + 150) / 100 = 7001
    assert!(sru.contains("#UPPGIFT 7650 7001\n"));
    assert!(sru.contains("#IDENTITET 5561234567 20251231\n"));
    assert!(sru.contains("#UPPGIFT 7011 20250101\n"));
}

#[test]
fn labels_and_sections_of_codes() {
    assert_eq!(sru_label("7410"), "Nettoomsättning");
    assert_eq!(sru_label("9999"), "Okänt fält");
    assert_eq!(sru_section("7260"), "Kassa, bank och placeringar");
    assert_eq!(sru_section("7600"), "Skatt");
    assert_eq!(sru_section("x"), "Övrigt");
}

fn acc(number: i32, sru: Option<&str>) -> AccountSru {
    AccountSru {
        number,
        name: format!("Konto {number}"),
        sru_code: sru.map(|s| s.to_string()),
        account_type: "asset".to_string(),
    }
}

fn bal(n: i32, d: i64, c: i64) -> AccountBalance {
    AccountBalance { account_number: n, total_debit: Money::from_ore(d), total_credit: Money::from_ore(c) }
}

#[test]
fn ink2_sums_accounts_by_code_in_code_order() {
    let accounts = vec![
        acc(1910, Some("7260")),
        acc(1930, Some("7260")),
        acc(2440, Some("7360")),
        acc(3010, Some("7410")),
        acc(3740, None),
        acc(5010, Some("7430")),
        acc(6110, Some("7430")),
    ];
    let all = vec![bal(1910, 5000, 1000), bal(1930, 2000, 0), bal(2440, 100, 600), bal(3010, 0, 99999)];
    let operational = vec![bal(3010, 0, 8000), bal(5010, 3000, 0), bal(6110, 500, 3500)];
    let data = build_ink2_data(
        "Test AB".to_string(),
        "5561234567".to_string(),
        "2025-01-01".to_string(),
        "2025-12-31".to_string(),
        &accounts,
        &all,
        &operational,
    );
    let codes: Vec<&str> = data.fields.iter().map(|f| f.sru_code.as_str()).collect();
    // 7430 sums 3000 + (500 - 3500) = 0 and is left out
    assert_eq!(codes, vec!["7260", "7360", "7410"]);
    assert_eq!(data.fields[0].amount.to_ore(), 6000);
    assert_eq!(data.fields[0].accounts, vec![1910, 1930]);
    assert_eq!(data.fields[1].amount.to_ore(), 500);
    assert_eq!(data.fields[2].amount.to_ore(), 8000);
    assert_eq!(data.fields[2].label, "Nettoomsättning");
    let titles: Vec<&str> = data.sections.iter().map(|s| s.title.as_str()).collect();
    assert_eq!(titles, vec!["Kassa, bank och placeringar", "Kortfristiga skulder", "Rörelseintäkter"]);
    assert_eq!(data.sections[1].fields[0].sru_code, "7360");
}

#[test]
fn sru_description_and_consent_carry_the_session() {
    let data = Ink2Data {
        company_name: "Empty AB".to_string(),
        org_number: "5561234567".to_string(),
        fiscal_year_start: "2025-01-01".to_string(),
        fiscal_year_end: "2025-12-31".to_string(),
        fields: vec![],
        sections: vec![],
    };
    let sru = generate_sru(&data);
    assert!(sru.starts_with(
        "#DATABESKRIVNING_START\n#PRODUKT SRU\n#SESSION 20251231\n#FLAGGA 0\n#PROGRAM Balans "
    ));
    assert!(sru.contains(
        "\n#MEDESSION 20251231\n#DATABESKRIVNING_SLUT\n#MEDGIVANDE_START\n#ORGNR 5561234567\n#MEDESSION 20251231\n#MEDGIVANDE_SLUT\n"
    ));
    assert!(!sru.contains("#SKATEFIL"));
}
