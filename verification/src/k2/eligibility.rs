//! Whether a company may close its books under K2.
//!
//! A company may use K2 if it is a "smaller company", meaning it does not
//! exceed more than one of the thresholds of ÅRL in two consecutive fiscal
//! years, and its form is one that K2 covers.
use vstd::prelude::*;
use crate::money::Money;
use crate::text::{int_text, push_int, push_str, same_text, to_string};

verus! {

/// Threshold on the average number of employees.
pub const MAX_EMPLOYEES: i32 = 50;

/// Threshold on the balance sheet total: 40 MSEK, in öre.
pub const MAX_BALANCE_SHEET_SEK: i64 = 40_000_000_00;

/// Threshold on the net revenue: 80 MSEK, in öre.
pub const MAX_NET_REVENUE_SEK: i64 = 80_000_000_00;

/// K2 eligibility check result.
#[derive(Debug, Clone)]
pub struct EligibilityResult {
    pub is_eligible: bool,
    pub reason: Option<String>,
    pub checks: EligibilityChecks,
    pub thresholds: EligibilityThresholds,
}

#[derive(Debug, Clone)]
pub struct EligibilityChecks {
    pub average_employees: i32,
    pub balance_sheet_total: Money,
    pub net_revenue: Money,
    pub employees_exceeded: bool,
    pub balance_exceeded: bool,
    pub revenue_exceeded: bool,
    pub thresholds_exceeded: i32,
    /// Thresholds exceeded in the previous fiscal year, when it is known.
    pub previous_thresholds_exceeded: Option<i32>,
    pub company_form_allowed: bool,
}

#[derive(Debug, Clone)]
pub struct EligibilityThresholds {
    pub max_employees: i32,
    pub max_balance_sheet: Money,
    pub max_net_revenue: Money,
}

#[derive(Debug, Clone, Copy)]
pub struct EligibilityInput {
    pub average_employees: Option<i32>,
}

/// The figures of a fiscal year that the thresholds are held against: the
/// balance sheet total and net revenue in öre, and the average number of
/// employees.
#[derive(Debug, Clone, Copy)]
pub struct YearFigures {
    pub balance_total: i64,
    pub revenue_total: i64,
    pub average_employees: i32,
}

/// How many of the three thresholds the figures exceed.
pub open spec fn exceeded_count(employees: int, balance: int, revenue: int) -> int {
    count(employees > MAX_EMPLOYEES) + count(balance > MAX_BALANCE_SHEET_SEK) + count(revenue > MAX_NET_REVENUE_SEK)
}

/// Whether the figures exceed more than one threshold.
pub open spec fn over_thresholds(y: YearFigures) -> bool {
    exceeded_count(y.average_employees as int, y.balance_total as int, y.revenue_total as int) > 1
}

/// Whether more than one threshold is exceeded in this year (`current` of
/// them) and in the previous year.
pub open spec fn over_two_years(current: int, previous: Option<YearFigures>) -> bool {
    current > 1 && match previous {
        Some(p) => over_thresholds(p),
        None => false,
    }
}

fn exceeded(y: YearFigures) -> (n: i32)
    ensures
        n == exceeded_count(y.average_employees as int, y.balance_total as int, y.revenue_total as int),
{
    let mut n: i32 = 0;
    if y.average_employees > MAX_EMPLOYEES {
        n += 1;
    }
    if y.balance_total > MAX_BALANCE_SHEET_SEK {
        n += 1;
    }
    if y.revenue_total > MAX_NET_REVENUE_SEK {
        n += 1;
    }
    n
}

/// The company forms that K2 covers: AB, HB, KB, EF and EK.
pub open spec fn k2_form(form: Seq<char>) -> bool {
    form == "AB"@ || form == "HB"@ || form == "KB"@ || form == "EF"@ || form == "EK"@
}

/// Whether the company form is one that K2 covers.
pub fn company_form_allowed(form: &str) -> (b: bool)
    ensures
        b == k2_form(form@),
{
    same_text(form, "AB") || same_text(form, "HB") || same_text(form, "KB") || same_text(form, "EF")
        || same_text(form, "EK")
}

pub open spec fn count(b: bool) -> int {
    if b {
        1
    } else {
        0
    }
}

/// The text that refuses a company form.
pub open spec fn form_reason(form: Seq<char>) -> Seq<char> {
    "Företagsformen "@ + form + " är inte tillåten för K2."@
}

/// The text that refuses a company over the thresholds.
pub open spec fn threshold_reason(n: int) -> Seq<char> {
    "Företaget överskrider "@ + int_text(n) + " av 3 gränsvärden. Högst 1 får överskridas."@
}

/// Check K2 eligibility from the company's form, the sum of the debits on
/// class 1 (the balance sheet total) and the credits on 30xx outside closing
/// entries (the net revenue), both in öre, the average number of employees
/// (none given counts as zero), and the figures of the previous fiscal year
/// where there is one. The company is refused when it exceeds more than one
/// threshold in this year and in the previous one.
pub fn evaluate_eligibility(
    company_form: &str,
    balance_total: i64,
    revenue_total: i64,
    input: &EligibilityInput,
    previous: Option<YearFigures>,
) -> (r: EligibilityResult)
    ensures
        r.checks.average_employees == (match input.average_employees {
            Some(n) => n,
            None => 0,
        }),
        r.checks.balance_sheet_total@ == balance_total,
        r.checks.net_revenue@ == revenue_total,
        r.checks.employees_exceeded == (r.checks.average_employees > MAX_EMPLOYEES),
        r.checks.balance_exceeded == (balance_total > MAX_BALANCE_SHEET_SEK),
        r.checks.revenue_exceeded == (revenue_total > MAX_NET_REVENUE_SEK),
        r.checks.thresholds_exceeded == count(r.checks.employees_exceeded) + count(
            r.checks.balance_exceeded,
        ) + count(r.checks.revenue_exceeded),
        r.checks.previous_thresholds_exceeded == (match previous {
            Some(p) => Some(
                exceeded_count(p.average_employees as int, p.balance_total as int, p.revenue_total as int) as i32,
            ),
            None => None,
        }),
        r.checks.company_form_allowed == k2_form(company_form@),
        r.is_eligible == (k2_form(company_form@) && !over_two_years(r.checks.thresholds_exceeded as int, previous)),
        !k2_form(company_form@) ==> (r.reason matches Some(t) && t@ == form_reason(company_form@)),
        k2_form(company_form@) && !r.is_eligible ==> (r.reason matches Some(t) && t@ == threshold_reason(
            r.checks.thresholds_exceeded as int,
        )),
        r.is_eligible ==> r.reason is None,
        r.thresholds.max_employees == MAX_EMPLOYEES,
        r.thresholds.max_balance_sheet@ == MAX_BALANCE_SHEET_SEK,
        r.thresholds.max_net_revenue@ == MAX_NET_REVENUE_SEK,
{
    let form_allowed = company_form_allowed(company_form);
    let avg_employees = match input.average_employees {
        Some(n) => n,
        None => 0,
    };
    let employees_exceeded = avg_employees > MAX_EMPLOYEES;
    let balance_exceeded = balance_total > MAX_BALANCE_SHEET_SEK;
    let revenue_exceeded = revenue_total > MAX_NET_REVENUE_SEK;
    let mut thresholds_exceeded: i32 = 0;
    if employees_exceeded {
        thresholds_exceeded += 1;
    }
    if balance_exceeded {
        thresholds_exceeded += 1;
    }
    if revenue_exceeded {
        thresholds_exceeded += 1;
    }
    let previous_exceeded = match previous {
        Some(p) => Some(exceeded(p)),
        None => None,
    };
    let over_both = thresholds_exceeded > 1 && match previous_exceeded {
        Some(n) => n > 1,
        None => false,
    };
    let is_eligible = form_allowed && !over_both;
    let reason = if !form_allowed {
        let mut t = String::new();
        push_str(&mut t, "Företagsformen ");
        push_str(&mut t, company_form);
        push_str(&mut t, " är inte tillåten för K2.");
        assert(t@ =~= form_reason(company_form@));
        Some(t)
    } else if over_both {
        let mut t = String::new();
        push_str(&mut t, "Företaget överskrider ");
        push_int(&mut t, thresholds_exceeded as i64);
        push_str(&mut t, " av 3 gränsvärden. Högst 1 får överskridas.");
        assert(t@ =~= threshold_reason(thresholds_exceeded as int));
        Some(t)
    } else {
        None
    };
    EligibilityResult {
        is_eligible,
        reason,
        checks: EligibilityChecks {
            average_employees: avg_employees,
            balance_sheet_total: Money::from_ore(balance_total),
            net_revenue: Money::from_ore(revenue_total),
            employees_exceeded,
            balance_exceeded,
            revenue_exceeded,
            thresholds_exceeded,
            previous_thresholds_exceeded: previous_exceeded,
            company_form_allowed: form_allowed,
        },
        thresholds: EligibilityThresholds {
            max_employees: MAX_EMPLOYEES,
            max_balance_sheet: Money::from_ore(MAX_BALANCE_SHEET_SEK),
            max_net_revenue: Money::from_ore(MAX_NET_REVENUE_SEK),
        },
    }
}

/// The company forms that K2 covers are exactly the limited company (AB),
/// the trading and limited partnerships (HB, KB), the sole trader (EF) and the
/// economic association (EK); a company of one of these forms that exceeds at
/// most one threshold is never refused on thresholds.
pub proof fn lemma_k2_forms(form: Seq<char>, current: int, previous: Option<YearFigures>)
    ensures
        k2_form("AB"@),
        k2_form("HB"@),
        k2_form("KB"@),
        k2_form("EF"@),
        k2_form("EK"@),
        k2_form(form) <==> (form == "AB"@ || form == "HB"@ || form == "KB"@ || form == "EF"@ || form == "EK"@),
        current <= 1 ==> !over_two_years(current, previous),
{
}

} // verus!
