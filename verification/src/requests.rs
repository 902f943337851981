//! The rules that requests to the books follow before anything is stored:
//! new and changed companies, fiscal years, accounts and assets, uploads,
//! and the texts and names that answers carry.
use vstd::prelude::*;
use crate::assets::models::CreateFixedAsset;
use crate::date::{parse_iso_date, parsed_date, Date};
use crate::k2::validation::ValidationIssue;
use crate::models::account::{Account, UpdateAccount};
use crate::models::company::{Company, CreateCompany, UpdateCompany};
use crate::money::{fits_i64, money_text, Money};
use crate::sie::syntax::{push_without_dashes, without_dashes};
use crate::sie::types::{clone_opt, opt_text};
use crate::text::{nat_digits, push_str, same_text, to_string};
use crate::validation::{account_type_from_number, account_type_of, valid_org_number, validate_organisationsnummer};

verus! {

/// The company forms the books know: AB, HB, KB, EF, EK.
pub open spec fn known_form(form: Seq<char>) -> bool {
    form == "AB"@ || form == "HB"@ || form == "KB"@ || form == "EF"@ || form == "EK"@
}

/// Whether a company form is one the books know.
pub fn company_form_known(form: &str) -> (b: bool)
    ensures
        b == known_form(form@),
{
    same_text(form, "AB") || same_text(form, "HB") || same_text(form, "KB") || same_text(form, "EF")
        || same_text(form, "EK")
}

/// Why a new company is refused, in the order of the checks; `None` when it
/// is accepted.
pub open spec fn new_company_refusal(org: Seq<char>, form: Seq<char>, start_month: i32) -> Option<Seq<char>> {
    if !valid_org_number(org) {
        Some("Invalid organisationsnummer"@)
    } else if !known_form(form) {
        Some("company_form must be one of: AB, HB, KB, EF, EK"@)
    } else if !(1 <= start_month <= 12) {
        Some("fiscal_year_start_month must be between 1 and 12"@)
    } else {
        None
    }
}

/// Checks a new company: its organisation number, its form and the month
/// its fiscal year starts in.
pub fn check_new_company(input: &CreateCompany) -> (r: Result<(), String>)
    ensures
        match new_company_refusal(input.org_number@, input.company_form@, input.fiscal_year_start_month) {
            Some(m) => r matches Err(e) && e@ == m,
            None => r is Ok,
        },
{
    if !validate_organisationsnummer(input.org_number.as_str()) {
        return Err(to_string("Invalid organisationsnummer"));
    }
    if !company_form_known(input.company_form.as_str()) {
        return Err(to_string("company_form must be one of: AB, HB, KB, EF, EK"));
    }
    if !(1 <= input.fiscal_year_start_month && input.fiscal_year_start_month <= 12) {
        return Err(to_string("fiscal_year_start_month must be between 1 and 12"));
    }
    Ok(())
}

/// The stored fields of a company after a change.
#[derive(Debug, Clone)]
pub struct CompanyChange {
    pub name: String,
    pub org_number: String,
    pub company_form: String,
    pub address: Option<String>,
    pub postal_code: Option<String>,
    pub city: Option<String>,
}

/// A given value, or the one that stands.
pub open spec fn or_else(given: Option<Seq<char>>, standing: Seq<char>) -> Seq<char> {
    match given {
        Some(v) => v,
        None => standing,
    }
}

/// A given optional value, or the one that stands.
pub open spec fn or_opt(given: Option<Seq<char>>, standing: Option<Seq<char>>) -> Option<Seq<char>> {
    match given {
        Some(v) => Some(v),
        None => standing,
    }
}

/// Why a change to a company is refused: a new organisation number that is
/// not valid, then a new form that the books do not know.
pub open spec fn company_update_refusal(input: UpdateCompany) -> Option<Seq<char>> {
    if input.org_number matches Some(o) && !valid_org_number(o@) {
        Some("Invalid organisationsnummer"@)
    } else if input.company_form matches Some(f) && !known_form(f@) {
        Some("company_form must be one of: AB, HB, KB, EF, EK"@)
    } else {
        None
    }
}

fn take_or(given: &Option<String>, standing: &String) -> (s: String)
    ensures
        s@ == or_else(opt_text(*given), standing@),
{
    match given {
        Some(v) => to_string(v.as_str()),
        None => to_string(standing.as_str()),
    }
}

fn take_opt_or(given: &Option<String>, standing: &Option<String>) -> (s: Option<String>)
    ensures
        opt_text(s) == or_opt(opt_text(*given), opt_text(*standing)),
{
    match given {
        Some(v) => Some(to_string(v.as_str())),
        None => clone_opt(standing),
    }
}

/// A company changed by `input`: each field given replaces the one that
/// stands (a new organisation number is kept without dashes); a field not
/// given keeps its value.
pub fn company_update(existing: &Company, input: &UpdateCompany) -> (r: Result<CompanyChange, String>)
    ensures
        match company_update_refusal(*input) {
            Some(m) => r matches Err(e) && e@ == m,
            None => r matches Ok(c) && {
                &&& c.name@ == or_else(opt_text(input.name), existing.name@)
                &&& c.org_number@ == match input.org_number {
                    Some(o) => without_dashes(o@),
                    None => existing.org_number@,
                }
                &&& c.company_form@ == or_else(opt_text(input.company_form), existing.company_form@)
                &&& opt_text(c.address) == or_opt(opt_text(input.address), opt_text(existing.address))
                &&& opt_text(c.postal_code) == or_opt(opt_text(input.postal_code), opt_text(existing.postal_code))
                &&& opt_text(c.city) == or_opt(opt_text(input.city), opt_text(existing.city))
            },
        },
{
    let name = take_or(&input.name, &existing.name);
    let org_number = match &input.org_number {
        Some(org) => {
            if !validate_organisationsnummer(org.as_str()) {
                return Err(to_string("Invalid organisationsnummer"));
            }
            let mut o = String::new();
            push_without_dashes(&mut o, org.as_str());
            assert(o@ =~= without_dashes(org@));
            o
        },
        None => to_string(existing.org_number.as_str()),
    };
    let company_form = match &input.company_form {
        Some(form) => {
            if !company_form_known(form.as_str()) {
                return Err(to_string("company_form must be one of: AB, HB, KB, EF, EK"));
            }
            to_string(form.as_str())
        },
        None => to_string(existing.company_form.as_str()),
    };
    Ok(
        CompanyChange {
            name,
            org_number,
            company_form,
            address: take_opt_or(&input.address, &existing.address),
            postal_code: take_opt_or(&input.postal_code, &existing.postal_code),
            city: take_opt_or(&input.city, &existing.city),
        },
    )
}

/// The text of the audit entry of a new company: "<name> (<org number>)".
pub fn company_log_message(name: &str, org_number: &str) -> (s: String)
    ensures
        s@ == name@ + " ("@ + org_number@ + ")"@,
{
    let mut s = to_string(name);
    push_str(&mut s, " (");
    push_str(&mut s, org_number);
    push_str(&mut s, ")");
    s
}

/// Months from one date's month to another's, the days not counted.
pub open spec fn month_span(start: Date, end: Date) -> int {
    (end.year - start.year) * 12 + (end.month - start.month)
}

/// Why the dates of a new fiscal year are refused: a start or an end that
/// does not read as a date, an end not after the start, or a span of more
/// than 18 months.
pub open spec fn fiscal_year_refusal(start: Seq<char>, end: Seq<char>) -> Option<Seq<char>> {
    match (parsed_date(start), parsed_date(end)) {
        (None, _) => Some("Invalid start_date format, use YYYY-MM-DD"@),
        (Some(_), None) => Some("Invalid end_date format, use YYYY-MM-DD"@),
        (Some(s), Some(e)) => if !s.before(e) {
            Some("end_date must be after start_date"@)
        } else if month_span(s, e) > 18 {
            Some("Fiscal year cannot exceed 18 months"@)
        } else {
            None
        },
    }
}

/// Checks the dates of a new fiscal year.
pub fn check_fiscal_year_dates(start: &str, end: &str) -> (r: Result<(), String>)
    ensures
        match fiscal_year_refusal(start@, end@) {
            Some(m) => r matches Err(e) && e@ == m,
            None => r is Ok,
        },
{
    let s = match parse_iso_date(start) {
        Some(d) => d,
        None => return Err(to_string("Invalid start_date format, use YYYY-MM-DD")),
    };
    let e = match parse_iso_date(end) {
        Some(d) => d,
        None => return Err(to_string("Invalid end_date format, use YYYY-MM-DD")),
    };
    if !s.lt(&e) {
        return Err(to_string("end_date must be after start_date"));
    }
    proof {
        assert(parsed_date(start@) == Some(s));
        assert(s.wf() && e.wf());
    }
    let months: i64 = (e.year as i64 - s.year as i64) * 12 + (e.month as i64 - s.month as i64);
    if months > 18 {
        return Err(to_string("Fiscal year cannot exceed 18 months"));
    }
    Ok(())
}

/// The type of a new account: the one given, or the one its number implies;
/// refused where the number is not a BAS number.
pub fn new_account_type(number: i32, account_type: &Option<String>) -> (r: Result<String, String>)
    ensures
        !(1000 <= number <= 9999) ==> (r matches Err(e) && e@ == "Account number must be between 1000 and 9999"@),
        (1000 <= number <= 9999) ==> (r matches Ok(t) && t@ == or_else(opt_text(*account_type), account_type_of(number as int))),
{
    if !(1000 <= number && number <= 9999) {
        return Err(to_string("Account number must be between 1000 and 9999"));
    }
    match account_type {
        Some(t) => Ok(to_string(t.as_str())),
        None => Ok(to_string(account_type_from_number(number))),
    }
}

/// The name and active flag of an account after a change: each given value
/// replaces the one that stands.
pub fn account_update(existing: &Account, input: &UpdateAccount) -> (r: (String, bool))
    ensures
        r.0@ == or_else(opt_text(input.name), existing.name@),
        r.1 == match input.is_active {
            Some(a) => a,
            None => existing.is_active,
        },
{
    let name = take_or(&input.name, &existing.name);
    let active = match input.is_active {
        Some(a) => a,
        None => existing.is_active,
    };
    (name, active)
}

/// The kinds of fixed asset the books know.
pub open spec fn known_asset_type(t: Seq<char>) -> bool {
    t == "intangible"@ || t == "building"@ || t == "machinery"@ || t == "equipment"@ || t == "vehicle"@
        || t == "computer"@ || t == "financial"@
}

/// Why a new fixed asset is refused: an unknown kind, a cost that is not
/// positive, or (for any kind but financial assets) a useful life that is
/// not positive.
pub open spec fn new_asset_refusal(t: Seq<char>, cost: int, life: i32) -> Option<Seq<char>> {
    if !known_asset_type(t) {
        Some(
            "Invalid asset type: "@ + t
                + ". Must be one of: intangible, building, machinery, equipment, vehicle, computer, financial"@,
        )
    } else if cost <= 0 {
        Some("Acquisition cost must be positive"@)
    } else if life <= 0 && t != "financial"@ {
        Some("Useful life must be positive"@)
    } else {
        None
    }
}

/// Checks a new fixed asset.
pub fn check_new_asset(input: &CreateFixedAsset) -> (r: Result<(), String>)
    ensures
        match new_asset_refusal(input.asset_type@, input.acquisition_cost@, input.useful_life_months) {
            Some(m) => r matches Err(e) && e@ == m,
            None => r is Ok,
        },
{
    let t = input.asset_type.as_str();
    let known = same_text(t, "intangible") || same_text(t, "building") || same_text(t, "machinery")
        || same_text(t, "equipment") || same_text(t, "vehicle") || same_text(t, "computer") || same_text(
        t,
        "financial",
    );
    if !known {
        let mut m = to_string("Invalid asset type: ");
        push_str(&mut m, t);
        push_str(
            &mut m,
            ". Must be one of: intangible, building, machinery, equipment, vehicle, computer, financial",
        );
        return Err(m);
    }
    if input.acquisition_cost.to_ore() <= 0 {
        return Err(to_string("Acquisition cost must be positive"));
    }
    if input.useful_life_months <= 0 && !same_text(t, "financial") {
        return Err(to_string("Useful life must be positive"));
    }
    Ok(())
}

/// When depreciation of a new asset starts: the date given, or the date it
/// was acquired.
pub fn depreciation_start(input: &CreateFixedAsset) -> (s: String)
    ensures
        s@ == or_else(opt_text(input.depreciation_start_date), input.acquisition_date@),
{
    take_or(&input.depreciation_start_date, &input.acquisition_date)
}

/// The text of the audit entry of a new asset: "<name> (<type>, <cost> SEK)".
pub fn asset_log_message(name: &str, asset_type: &str, cost: Money) -> (s: String)
    ensures
        s@ == name@ + " ("@ + asset_type@ + ", "@ + money_text(cost@) + " SEK)"@,
{
    let mut s = to_string(name);
    push_str(&mut s, " (");
    push_str(&mut s, asset_type);
    push_str(&mut s, ", ");
    cost.push_text(&mut s);
    push_str(&mut s, " SEK)");
    s
}

/// Checks that an asset may be disposed of: not twice.
pub fn check_disposal(is_disposed: bool) -> (r: Result<(), String>)
    ensures
        is_disposed ==> (r matches Err(e) && e@ == "Asset already disposed"@),
        !is_disposed ==> r is Ok,
{
    if is_disposed {
        Err(to_string("Asset already disposed"))
    } else {
        Ok(())
    }
}

/// The text of the audit entry of a disposal: "<name> disposed for <amount>".
pub fn disposal_log_message(name: &str, amount: Money) -> (s: String)
    ensures
        s@ == name@ + " disposed for "@ + money_text(amount@),
{
    let mut s = to_string(name);
    push_str(&mut s, " disposed for ");
    amount.push_text(&mut s);
    s
}

/// The largest file that may be attached: 10 MB.
pub const MAX_FILE_SIZE: usize = 10485760;

/// Checks the size of an uploaded file.
pub fn check_file_size(len: usize) -> (r: Result<(), String>)
    ensures
        len > MAX_FILE_SIZE ==> (r matches Err(e) && e@ == "File too large: "@ + nat_digits(len as nat) + " bytes (max 10485760 bytes)"@),
        len <= MAX_FILE_SIZE ==> r is Ok,
{
    if len > MAX_FILE_SIZE {
        let mut m = to_string("File too large: ");
        crate::money::push_nat(&mut m, len as u128);
        push_str(&mut m, " bytes (max 10485760 bytes)");
        Err(m)
    } else {
        Ok(())
    }
}

/// How many audit entries are shown: 100 unless asked, never more than 1000.
pub fn audit_log_limit(limit: Option<i32>) -> (n: i32)
    ensures
        n == match limit {
            Some(l) => if l < 1000 {
                l
            } else {
                1000
            },
            None => 100,
        },
{
    let l = match limit {
        Some(l) => l,
        None => 100,
    };
    if l < 1000 {
        l
    } else {
        1000
    }
}

/// One row of a trial balance: an account's debits, credits and balance.
#[derive(Debug, Clone)]
pub struct TrialBalanceRow {
    pub account_number: i32,
    pub account_name: String,
    pub debit_total: Money,
    pub credit_total: Money,
    pub balance: Money,
}

/// A row of the trial balance: the balance is debit less credit.
pub fn trial_balance_row(account_number: i32, account_name: String, debit: Money, credit: Money) -> (r: TrialBalanceRow)
    requires
        fits_i64(debit@ - credit@),
    ensures
        r.account_number == account_number,
        r.account_name@ == account_name@,
        r.debit_total@ == debit@,
        r.credit_total@ == credit@,
        r.balance@ == debit@ - credit@,
{
    TrialBalanceRow {
        account_number,
        account_name,
        debit_total: debit,
        credit_total: credit,
        balance: debit.sub(credit),
    }
}

/// The messages of some issues joined by "; ".
pub open spec fn joined_messages(issues: Seq<ValidationIssue>) -> Seq<char>
    decreases issues.len(),
{
    if issues.len() == 0 {
        Seq::empty()
    } else if issues.len() == 1 {
        issues[0].message@
    } else {
        joined_messages(issues.drop_last()) + "; "@ + issues.last().message@
    }
}

/// Why a closing is refused after its validation failed:
/// "Bokslutsvalidering misslyckades: " and the errors' messages.
pub fn closing_refusal_message(errors: &[ValidationIssue]) -> (s: String)
    ensures
        s@ == "Bokslutsvalidering misslyckades: "@ + joined_messages(errors@),
{
    let mut s = to_string("Bokslutsvalidering misslyckades: ");
    let ghost head = s@;
    let mut i: usize = 0;
    while i < errors.len()
        invariant
            i <= errors@.len(),
            s@ == head + joined_messages(errors@.take(i as int)),
        decreases errors.len() - i,
    {
        if i > 0 {
            push_str(&mut s, "; ");
        }
        push_str(&mut s, errors[i].message.as_str());
        proof {
            let t = errors@.take(i + 1);
            assert(t.drop_last() =~= errors@.take(i as int));
            assert(s@ =~= head + joined_messages(t));
        }
        i += 1;
    }
    assert(errors@.take(errors@.len() as int) =~= errors@);
    s
}

/// Checks that an annual report may be filed: its fiscal year is closed.
pub fn check_filing_allowed(is_closed: bool) -> (r: Result<(), String>)
    ensures
        !is_closed ==> (r matches Err(e) && e@ == "Räkenskapsåret måste vara stängt innan årsredovisningen kan lämnas in."@),
        is_closed ==> r is Ok,
{
    if is_closed {
        Ok(())
    } else {
        Err(to_string("Räkenskapsåret måste vara stängt innan årsredovisningen kan lämnas in."))
    }
}

/// The text of the audit entry of a filing: where it went, whether it
/// succeeded, and its reference ("N/A" without one).
pub open spec fn filing_log_text(use_test: bool, success: bool, reference: Option<Seq<char>>) -> Seq<char> {
    "Filed to "@ + (if use_test {
        "TEST"@
    } else {
        "PROD"@
    }) + " — success: "@ + (if success {
        "true"@
    } else {
        "false"@
    }) + ", ref: "@ + match reference {
        Some(r) => r,
        None => "N/A"@,
    }
}

/// The text of the audit entry of a filing.
pub fn filing_log_message(use_test: bool, success: bool, reference: &Option<String>) -> (s: String)
    ensures
        s@ == filing_log_text(use_test, success, opt_text(*reference)),
{
    let mut s = to_string("Filed to ");
    push_str(&mut s, if use_test { "TEST" } else { "PROD" });
    push_str(&mut s, " — success: ");
    push_str(&mut s, if success { "true" } else { "false" });
    push_str(&mut s, ", ref: ");
    match reference {
        Some(r) => push_str(&mut s, r.as_str()),
        None => push_str(&mut s, "N/A"),
    }
    s
}

/// The name of a downloaded document: "<stem>_<org number>_<end date>.<extension>".
pub fn download_name(stem: &str, org_number: &str, end_date: &str, extension: &str) -> (s: String)
    ensures
        s@ == stem@ + "_"@ + org_number@ + "_"@ + end_date@ + "."@ + extension@,
{
    let mut s = to_string(stem);
    push_str(&mut s, "_");
    push_str(&mut s, org_number);
    push_str(&mut s, "_");
    push_str(&mut s, end_date);
    push_str(&mut s, ".");
    push_str(&mut s, extension);
    s
}

} // verus!
