use balans::assets::models::CreateFixedAsset;
use balans::auth::{hash_password, sign_in, LoginOutcome, SignInError};
use balans::k2::validation::{IssueSeverity, ValidationIssue};
use balans::models::account::{Account, UpdateAccount};
use balans::models::company::{Company, CreateCompany, UpdateCompany};
use balans::money::Money;
use balans::requests::{
    account_update, asset_log_message, audit_log_limit, check_disposal, check_file_size, check_filing_allowed,
    check_fiscal_year_dates, check_new_asset, check_new_company, closing_refusal_message, company_log_message,
    company_update, depreciation_start, download_name, filing_log_message, new_account_type, trial_balance_row,
};

fn create(org: &str, form: &str, month: i32) -> CreateCompany {
    CreateCompany {
        name: "Exempel AB".to_string(),
        org_number: org.to_string(),
        company_form: form.to_string(),
        fiscal_year_start_month: month,
        address: None,
        postal_code: None,
        city: None,
    }
}

fn existing() -> Company {
    Company {
        id: "c1".to_string(),
        name: "Gamla AB".to_string(),
        org_number: "5560360793".to_string(),
        company_form: "AB".to_string(),
        fiscal_year_start_month: 1,
        address: Some("Storgatan 1".to_string()),
        postal_code: None,
        city: Some("Lund".to_string()),
        created_at: String::new(),
        updated_at: String::new(),
    }
}

#[test]
fn new_companies_are_checked_in_order() {
    assert!(check_new_company(&create("556036-0793", "AB", 1)).is_ok());
    assert_eq!(check_new_company(&create("5560360792", "XX", 13)).unwrap_err(), "Invalid organisationsnummer");
    assert_eq!(
        check_new_company(&create("5560360793", "XX", 13)).unwrap_err(),
        "company_form must be one of: AB, HB, KB, EF, EK"
    );
    assert_eq!(
        check_new_company(&create("5560360793", "HB", 13)).unwrap_err(),
        "fiscal_year_start_month must be between 1 and 12"
    );
}

#[test]
fn company_updates_keep_what_is_not_given() {
    let input = UpdateCompany {
        name: None,
        org_number: Some("556036-0793".to_string()),
        company_form: Some("EK".to_string()),
        address: None,
        postal_code: Some("22100".to_string()),
        city: None,
    };
    let c = company_update(&existing(), &input).unwrap();
    assert_eq!(c.name, "Gamla AB");
    assert_eq!(c.org_number, "5560360793");
    assert_eq!(c.company_form, "EK");
    assert_eq!(c.address.as_deref(), Some("Storgatan 1"));
    assert_eq!(c.postal_code.as_deref(), Some("22100"));
    assert_eq!(c.city.as_deref(), Some("Lund"));
    let bad = UpdateCompany { company_form: Some("LLC".to_string()), ..input };
    assert_eq!(company_update(&existing(), &bad).unwrap_err(), "company_form must be one of: AB, HB, KB, EF, EK");
    assert_eq!(company_log_message("X AB", "5560360793"), "X AB (5560360793)");
}

#[test]
fn fiscal_year_dates_are_checked() {
    assert!(check_fiscal_year_dates("2025-01-01", "2025-12-31").is_ok());
    assert!(check_fiscal_year_dates("2025-01-01", "2026-07-31").is_ok());
    assert_eq!(check_fiscal_year_dates("2025-01-01", "2026-08-31").unwrap_err(), "Fiscal year cannot exceed 18 months");
    assert_eq!(check_fiscal_year_dates("2025-12-31", "2025-01-01").unwrap_err(), "end_date must be after start_date");
    assert_eq!(check_fiscal_year_dates("2025-01-01", "2025-01-01").unwrap_err(), "end_date must be after start_date");
    assert_eq!(check_fiscal_year_dates("2025/01/01", "x").unwrap_err(), "Invalid start_date format, use YYYY-MM-DD");
    assert_eq!(check_fiscal_year_dates("2025-01-01", "x").unwrap_err(), "Invalid end_date format, use YYYY-MM-DD");
}

#[test]
fn accounts_take_their_type_from_the_number() {
    assert_eq!(new_account_type(1930, &None).unwrap(), "asset");
    assert_eq!(new_account_type(3010, &Some("expense".to_string())).unwrap(), "expense");
    assert_eq!(new_account_type(999, &None).unwrap_err(), "Account number must be between 1000 and 9999");
    let acc = Account {
        id: "a".to_string(),
        company_id: "c".to_string(),
        number: 1930,
        name: "Bank".to_string(),
        account_type: "asset".to_string(),
        is_active: true,
        created_at: String::new(),
    };
    let (name, active) = account_update(&acc, &UpdateAccount { name: None, is_active: Some(false) });
    assert_eq!(name, "Bank");
    assert!(!active);
}

fn asset(t: &str, cost: i64, life: i32) -> CreateFixedAsset {
    CreateFixedAsset {
        name: "Dator".to_string(),
        description: None,
        asset_type: t.to_string(),
        acquisition_date: "2025-03-15".to_string(),
        acquisition_cost: Money::from_ore(cost),
        useful_life_months: life,
        residual_value: Money::zero(),
        depreciation_start_date: None,
    }
}

#[test]
fn new_assets_are_checked() {
    assert!(check_new_asset(&asset("computer", 1_500_000, 36)).is_ok());
    assert!(check_new_asset(&asset("financial", 1_500_000, 0)).is_ok());
    assert_eq!(
        check_new_asset(&asset("boat", 1, 1)).unwrap_err(),
        "Invalid asset type: boat. Must be one of: intangible, building, machinery, equipment, vehicle, computer, financial"
    );
    assert_eq!(check_new_asset(&asset("computer", 0, 36)).unwrap_err(), "Acquisition cost must be positive");
    assert_eq!(check_new_asset(&asset("computer", 100, 0)).unwrap_err(), "Useful life must be positive");
    assert_eq!(depreciation_start(&asset("computer", 100, 1)), "2025-03-15");
    assert_eq!(asset_log_message("Dator", "computer", Money::from_ore(1_500_000)), "Dator (computer, 15000.00 SEK)");
    assert_eq!(check_disposal(true).unwrap_err(), "Asset already disposed");
    assert!(check_disposal(false).is_ok());
}

#[test]
fn uploads_and_limits() {
    assert!(check_file_size(10 * 1024 * 1024).is_ok());
    assert_eq!(check_file_size(10 * 1024 * 1024 + 1).unwrap_err(), "File too large: 10485761 bytes (max 10485760 bytes)");
    assert_eq!(audit_log_limit(None), 100);
    assert_eq!(audit_log_limit(Some(5000)), 1000);
    assert_eq!(audit_log_limit(Some(7)), 7);
}

#[test]
fn trial_balance_rows_carry_the_balance() {
    let r = trial_balance_row(1930, "Bank".to_string(), Money::from_ore(500), Money::from_ore(800));
    assert_eq!(r.balance.to_ore(), -300);
}

#[test]
fn closing_and_filing_texts() {
    let issue = |m: &str| ValidationIssue { code: "X".to_string(), message: m.to_string(), severity: IssueSeverity::Error };
    assert_eq!(
        closing_refusal_message(&[issue("a"), issue("b")]),
        "Bokslutsvalidering misslyckades: a; b"
    );
    assert_eq!(closing_refusal_message(&[]), "Bokslutsvalidering misslyckades: ");
    assert!(check_filing_allowed(true).is_ok());
    assert!(check_filing_allowed(false).is_err());
    assert_eq!(filing_log_message(true, false, &None), "Filed to TEST — success: false, ref: N/A");
    assert_eq!(filing_log_message(false, true, &Some("R1".to_string())), "Filed to PROD — success: true, ref: R1");
    assert_eq!(download_name("ink2", "5560360793", "2025-12-31", "sru"), "ink2_5560360793_2025-12-31.sru");
}

#[test]
fn a_hashed_password_signs_in() {
    let h = hash_password("hemligt123").unwrap();
    assert!(matches!(sign_in("hemligt123", &h, true, "approved"), Ok(LoginOutcome::Approved)));
    assert!(matches!(sign_in("fel", &h, true, "approved"), Err(SignInError::WrongPassword)));
    match sign_in("x", "not a hash", true, "approved") {
        Err(SignInError::CheckFailed(m)) => assert!(m.starts_with("Password verification failed: ")),
        _ => panic!("expected a failed check"),
    }
}
