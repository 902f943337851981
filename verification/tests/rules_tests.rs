use balans::admin::{check_company_role, check_deactivation, check_role_change, company_user_log_message};
use balans::auth::{
    bearer_token, check_registration, company_access, login_outcome, new_user_roles, require_admin, role_level,
    token_claims, AuthUser, Claims, LoginOutcome,
};
use balans::config::{app_mode_from, lacks_fixed_company, AppConfig, AppMode};
use balans::filing::api::{
    after_submission, after_verification, base_url, http_failure, submit_url, token_url, verification_token,
    verify_url, AfterVerification, FilingError, FilingIssue, FilingStep, SubmissionResponse, TokenResponse,
    VerificationResponse, TEST_BASE,
};
use balans::models::company::{default_fy_start, Company, CreateCompany};
use balans::models::fiscal_year::{CreateFiscalYear, FiscalYear};
use balans::models::voucher::{CreateVoucher, CreateVoucherLine};
use balans::money::Money;
use balans::seed::{bas_accounts, sru_codes};
use balans::voucher_checks::{validate_voucher, voucher_log_message, VoucherError};

fn fy(closed: bool) -> FiscalYear {
    FiscalYear {
        id: "fy".to_string(),
        company_id: "c".to_string(),
        start_date: "2025-01-01".to_string(),
        end_date: "2025-12-31".to_string(),
        is_closed: closed,
        closed_at: None,
        created_at: String::new(),
    }
}

fn line(n: i32, d: i64, c: i64) -> CreateVoucherLine {
    CreateVoucherLine { account_number: n, debit: Money::from_ore(d), credit: Money::from_ore(c), description: None }
}

fn voucher(date: &str, lines: Vec<CreateVoucherLine>) -> CreateVoucher {
    CreateVoucher { date: date.to_string(), description: "Test".to_string(), lines }
}

fn message(r: Result<(), VoucherError>) -> String {
    match r {
        Err(VoucherError::Validation(m)) => m,
        Err(VoucherError::UnbalancedVoucher { debit, credit }) => format!("unbalanced {debit} {credit}"),
        Err(VoucherError::Internal(m)) => format!("internal {m}"),
        Err(VoucherError::FiscalYearClosed) => "closed".to_string(),
        Ok(()) => "ok".to_string(),
    }
}

#[test]
fn vouchers_are_checked_in_order() {
    let ok = voucher("2025-05-01", vec![line(1910, 100, 0), line(3010, 0, 100)]);
    assert_eq!(message(validate_voucher(&fy(false), &ok, &[true, true])), "ok");
    assert_eq!(message(validate_voucher(&fy(true), &ok, &[true, true])), "closed");
    let one = voucher("2025-05-01", vec![line(1910, 100, 0)]);
    assert_eq!(message(validate_voucher(&fy(false), &one, &[true])), "A voucher must have at least 2 lines");
    let bad_date = voucher("2025-5-1x", vec![line(1910, 100, 0), line(3010, 0, 100)]);
    assert_eq!(message(validate_voucher(&fy(false), &bad_date, &[true, true])), "Invalid date format, use YYYY-MM-DD");
    let outside = voucher("2026-01-01", vec![line(1910, 100, 0), line(3010, 0, 100)]);
    assert_eq!(
        message(validate_voucher(&fy(false), &outside, &[true, true])),
        "Voucher date 2026-01-01 is outside fiscal year (2025-01-01 to 2025-12-31)"
    );
    let bad_account = voucher("2025-05-01", vec![line(999, 100, 0), line(3010, 0, 100)]);
    assert_eq!(message(validate_voucher(&fy(false), &bad_account, &[true, true])), "Invalid account number: 999");
    assert_eq!(
        message(validate_voucher(&fy(false), &ok, &[true, false])),
        "Account 3010 not found for this company"
    );
    let unbalanced = voucher("2025-05-01", vec![line(1910, 100, 0), line(3010, 0, 90)]);
    assert_eq!(message(validate_voucher(&fy(false), &unbalanced, &[true, true])), "unbalanced 1.00 0.90");
    let both = voucher("2025-05-01", vec![line(1910, 100, 100), line(3010, 0, 0)]);
    assert_eq!(
        message(validate_voucher(&fy(false), &both, &[true, true])),
        "Line 1 has both debit and credit. Each line should use only one."
    );
    let zero = voucher("2025-05-01", vec![line(1910, 100, 0), line(3010, 0, 100), line(2440, 0, 0)]);
    assert_eq!(message(validate_voucher(&fy(false), &zero, &[true, true, true])), "Line 3 has zero debit and credit.");
    assert_eq!(voucher_log_message(7, "2025-05-01", "Hyra"), "#7 2025-05-01 Hyra");
}

#[test]
fn registration_and_login_rules() {
    assert_eq!(check_registration("", "password1", "A").as_deref(), Some("Invalid email address"));
    assert_eq!(check_registration("a.b", "password1", "A").as_deref(), Some("Invalid email address"));
    assert_eq!(check_registration("a@b", "short", "A").as_deref(), Some("Password must be at least 8 characters"));
    // eight bytes in four characters
    assert_eq!(check_registration("a@b", "åäöü", "A"), None);
    assert_eq!(check_registration("a@b", "password1", "").as_deref(), Some("Name is required"));
    let first = new_user_roles(0);
    assert_eq!((first.role, first.status, first.company_role), ("admin", "approved", "owner"));
    let later = new_user_roles(4);
    assert_eq!((later.role, later.status, later.company_role), ("user", "pending", "member"));
    assert_eq!(login_outcome(false, "approved"), LoginOutcome::Inactive);
    assert_eq!(login_outcome(true, "pending"), LoginOutcome::Pending);
    assert_eq!(login_outcome(true, "rejected"), LoginOutcome::Rejected);
    assert_eq!(login_outcome(true, "approved"), LoginOutcome::Approved);
    assert_eq!(login_outcome(true, "odd"), LoginOutcome::UnknownStatus);
}

#[test]
fn tokens_and_headers() {
    let c = token_claims("user-123", "test@example.com", "user", 1_700_000_000);
    assert_eq!(c.sub, "user-123");
    assert_eq!(c.exp - c.iat, 24 * 3600);
    assert_eq!(bearer_token("Bearer abc.def").as_deref(), Some("abc.def"));
    assert_eq!(bearer_token("Basic abc"), None);
}

#[test]
fn roles_and_access() {
    assert_eq!(role_level("owner"), 4);
    assert_eq!(role_level("viewer"), 1);
    assert_eq!(role_level("guest"), 0);
    assert_eq!(company_access(Some("admin"), None, "owner"), Ok("admin".to_string()));
    assert_eq!(company_access(Some("user"), Some("member"), "viewer"), Ok("member".to_string()));
    assert_eq!(
        company_access(Some("user"), Some("viewer"), "member"),
        Err("Otillräcklig behörighet för detta företag".to_string())
    );
    assert_eq!(company_access(None, None, "viewer"), Err("Ingen åtkomst till detta företag".to_string()));
    let claims = Claims { sub: "u".to_string(), email: "e".to_string(), role: "user".to_string(), exp: 0, iat: 0 };
    assert_eq!(require_admin(&AuthUser(claims)), Err("Administratörsbehörighet krävs".to_string()));
    assert_eq!(check_role_change("me", "me", "user"), Err("Du kan inte ta bort din egen administratörsroll".to_string()));
    assert_eq!(check_role_change("me", "you", "boss"), Err("Rollen måste vara admin, user eller viewer".to_string()));
    assert_eq!(check_role_change("me", "you", "viewer"), Ok(()));
    assert_eq!(check_company_role("member"), Ok(()));
    assert!(check_company_role("user").is_err());
    assert_eq!(check_deactivation("me", "me"), Err("Du kan inte inaktivera ditt eget konto".to_string()));
    assert_eq!(company_user_log_message("u1", "member"), "user=u1 role=member");
}

#[test]
fn app_mode_setting() {
    assert_eq!(app_mode_from("FiXeD"), AppMode::Fixed);
    assert_eq!(app_mode_from("saas"), AppMode::Saas);
    assert_eq!(app_mode_from(""), AppMode::Saas);
    assert!(lacks_fixed_company(&AppConfig { mode: AppMode::Fixed, fixed_company_id: None }));
    assert!(!lacks_fixed_company(&AppConfig { mode: AppMode::Saas, fixed_company_id: None }));
}

fn issue(m: &str) -> FilingIssue {
    FilingIssue { kod: None, meddelande: m.to_string() }
}

#[test]
fn filing_steps() {
    assert_eq!(base_url(true), TEST_BASE);
    assert_eq!(token_url("https://x"), "https://x/skapa-inlamningtoken");
    assert_eq!(verify_url("https://x", "t1"), "https://x/kontrollera/t1");
    assert_eq!(submit_url("https://x", "t2"), "https://x/inlamning/t2");
    assert_eq!(http_failure("Submission", "500 Internal Server Error", "oops").message(), "API error: Submission failed (500 Internal Server Error): oops");
    let t = verification_token(&TokenResponse { kontrolltoken: None, inlamningtoken: None });
    assert!(matches!(t, Err(FilingError::Api(m)) if m == "No kontrolltoken in response"));
    let v = VerificationResponse { status: "x".to_string(), fel: vec![issue("a"), issue("b")], varningar: vec![], inlamningtoken: None };
    match after_verification(v) {
        Ok(AfterVerification::Stop(r)) => {
            assert_eq!(r.step, FilingStep::Failed);
            assert_eq!(r.message, "Verifieringen misslyckades med 2 fel");
        },
        _ => panic!("expected a stop"),
    }
    let v = VerificationResponse { status: "ok".to_string(), fel: vec![], varningar: vec![issue("w")], inlamningtoken: Some("s1".to_string()) };
    assert!(matches!(after_verification(v), Ok(AfterVerification::Submit(t)) if t == "s1"));
    let done = after_submission(
        SubmissionResponse { status: "ok".to_string(), arendenummer: Some("A-1".to_string()), fel: vec![] },
        vec![issue("w")],
    );
    assert!(done.success);
    assert_eq!(done.message, "Årsredovisningen har lämnats in. Ärendenummer: A-1");
    assert_eq!(done.verification_warnings.len(), 1);
    let none = after_submission(SubmissionResponse { status: "ok".to_string(), arendenummer: None, fel: vec![] }, vec![]);
    assert_eq!(none.message, "Årsredovisningen har lämnats in. Ärendenummer: (inget nummer)");
    let failed = after_submission(SubmissionResponse { status: "x".to_string(), arendenummer: None, fel: vec![issue("e")] }, vec![]);
    assert_eq!(failed.message, "Inlämningen misslyckades med 1 fel");
}

#[test]
fn new_records() {
    let input = CreateCompany {
        name: "Test AB".to_string(),
        org_number: "556123-4567".to_string(),
        company_form: "AB".to_string(),
        fiscal_year_start_month: default_fy_start(),
        address: None,
        postal_code: None,
        city: None,
    };
    let c = Company::new(&input);
    assert_eq!(c.org_number, "5561234567");
    assert_eq!(c.fiscal_year_start_month, 1);
    assert_eq!(c.id.len(), 36);
    let f = FiscalYear::new("c1", &CreateFiscalYear { start_date: "2025-01-01".to_string(), end_date: "2025-12-31".to_string() });
    assert!(!f.is_closed);
    assert_eq!(f.company_id, "c1");
}

#[test]
fn the_chart_of_accounts() {
    let chart = bas_accounts();
    assert_eq!(chart.len(), 497);
    assert_eq!(chart[0], (1010, "Utvecklingsutgifter", "asset"));
    assert!(chart.iter().any(|a| *a == (8999, "Årets resultat", "revenue")));
    let codes = sru_codes();
    assert_eq!(codes.len(), 308);
    assert_eq!(codes[0], (1010, "7201"));
    assert!(codes.iter().all(|(n, _)| chart.iter().any(|a| a.0 == *n)));
}
