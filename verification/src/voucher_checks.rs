//! The rules a new voucher must follow before it is booked.
use vstd::prelude::*;
use crate::date::{date_text, date_to_string, parse_iso_date, parsed_date, Date};
use crate::models::fiscal_year::FiscalYear;
use crate::models::voucher::{CreateVoucher, CreateVoucherLine};
use crate::money::{fits_i64, money_text, Money};
use crate::text::{int_text, push_int, push_str, to_string};
use crate::validation::validate_bas_account_number;

verus! {

/// Why a voucher is refused.
#[derive(Debug, Clone)]
pub enum VoucherError {
    /// The fiscal year is closed.
    FiscalYearClosed,
    /// The voucher breaks a rule; the text says which.
    Validation(String),
    /// Debits and credits differ; the two totals as text.
    UnbalancedVoucher { debit: String, credit: String },
    /// The fiscal year's own dates do not read as dates.
    Internal(String),
}

/// A refusal as the contracts see it: its kind (0 closed, 1 validation,
/// 2 unbalanced, 3 internal) and its texts.
pub open spec fn error_view(e: VoucherError) -> (int, Seq<char>, Seq<char>) {
    match e {
        VoucherError::FiscalYearClosed => (0, Seq::empty(), Seq::empty()),
        VoucherError::Validation(m) => (1, m@, Seq::empty()),
        VoucherError::UnbalancedVoucher { debit, credit } => (2, debit@, credit@),
        VoucherError::Internal(m) => (3, m@, Seq::empty()),
    }
}

pub open spec fn invalid(m: Seq<char>) -> Option<(int, Seq<char>, Seq<char>)> {
    Some((1, m, Seq::empty()))
}

/// The sum of the debits of some lines.
pub open spec fn debit_sum(ls: Seq<CreateVoucherLine>) -> int
    decreases ls.len(),
{
    if ls.len() == 0 {
        0
    } else {
        debit_sum(ls.drop_last()) + ls.last().debit@
    }
}

/// The sum of the credits of some lines.
pub open spec fn credit_sum(ls: Seq<CreateVoucherLine>) -> int
    decreases ls.len(),
{
    if ls.len() == 0 {
        0
    } else {
        credit_sum(ls.drop_last()) + ls.last().credit@
    }
}

/// The first line, from `i` on, whose account number is not a BAS number or
/// not in the company's chart (`known`), with the text that refuses it.
pub open spec fn account_error(ls: Seq<CreateVoucherLine>, known: Seq<bool>, i: int) -> Option<Seq<char>>
    decreases ls.len() - i,
{
    if i < 0 || i >= ls.len() {
        None
    } else if !(1000 <= ls[i].account_number <= 9999) {
        Some("Invalid account number: "@ + int_text(ls[i].account_number as int))
    } else if !known[i] {
        Some("Account "@ + int_text(ls[i].account_number as int) + " not found for this company"@)
    } else {
        account_error(ls, known, i + 1)
    }
}

/// The first line, from `i` on, with both a debit and a credit, or with
/// neither, with the text that refuses it (lines count from 1).
pub open spec fn line_error(ls: Seq<CreateVoucherLine>, i: int) -> Option<Seq<char>>
    decreases ls.len() - i,
{
    if i < 0 || i >= ls.len() {
        None
    } else if ls[i].debit@ != 0 && ls[i].credit@ != 0 {
        Some("Line "@ + int_text(i + 1) + " has both debit and credit. Each line should use only one."@)
    } else if ls[i].debit@ == 0 && ls[i].credit@ == 0 {
        Some("Line "@ + int_text(i + 1) + " has zero debit and credit."@)
    } else {
        line_error(ls, i + 1)
    }
}

/// What is refused of a voucher for a fiscal year, in the order the checks
/// are made: a closed year; fewer than two lines; a date that does not read
/// as one; fiscal year dates that do not read; a date outside the year; an
/// account that is not a BAS number or not in the chart; debits that differ
/// from credits; a line with both or neither. `None` when it may be booked.
pub open spec fn voucher_refusal(
    is_closed: bool,
    fy_start: Seq<char>,
    fy_end: Seq<char>,
    date: Seq<char>,
    ls: Seq<CreateVoucherLine>,
    known: Seq<bool>,
) -> Option<(int, Seq<char>, Seq<char>)> {
    if is_closed {
        Some((0, Seq::empty(), Seq::empty()))
    } else if ls.len() < 2 {
        invalid("A voucher must have at least 2 lines"@)
    } else if parsed_date(date) is None {
        invalid("Invalid date format, use YYYY-MM-DD"@)
    } else if parsed_date(fy_start) is None {
        Some((3, "Invalid fiscal year start date"@, Seq::empty()))
    } else if parsed_date(fy_end) is None {
        Some((3, "Invalid fiscal year end date"@, Seq::empty()))
    } else {
        let d = parsed_date(date)->0;
        let s = parsed_date(fy_start)->0;
        let e = parsed_date(fy_end)->0;
        if d.before(s) || e.before(d) {
            invalid(
                "Voucher date "@ + date_text(d) + " is outside fiscal year ("@ + fy_start + " to "@ + fy_end
                    + ")"@,
            )
        } else if account_error(ls, known, 0) is Some {
            invalid(account_error(ls, known, 0)->0)
        } else if debit_sum(ls) != credit_sum(ls) {
            Some((2, money_text(debit_sum(ls)), money_text(credit_sum(ls))))
        } else if line_error(ls, 0) is Some {
            invalid(line_error(ls, 0)->0)
        } else {
            None
        }
    }
}

/// The running totals of the lines stay in the range of amounts.
pub open spec fn totals_fit(ls: Seq<CreateVoucherLine>) -> bool {
    &&& forall|i: int| 0 <= i <= ls.len() ==> fits_i64(#[trigger] debit_sum(ls.take(i)))
    &&& forall|i: int| 0 <= i <= ls.len() ==> fits_i64(#[trigger] credit_sum(ls.take(i)))
}

fn first_account_error(ls: &Vec<CreateVoucherLine>, known: &[bool]) -> (r: Option<String>)
    requires
        known@.len() == ls@.len(),
    ensures
        match r {
            Some(m) => account_error(ls@, known@, 0) == Some(m@),
            None => account_error(ls@, known@, 0) is None,
        },
{
    let mut i: usize = 0;
    while i < ls.len()
        invariant
            i <= ls@.len(),
            known@.len() == ls@.len(),
            account_error(ls@, known@, 0) == account_error(ls@, known@, i as int),
        decreases ls.len() - i,
    {
        let n = ls[i].account_number;
        if !validate_bas_account_number(n) {
            let mut m = String::new();
            push_str(&mut m, "Invalid account number: ");
            push_int(&mut m, n as i64);
            assert(m@ =~= "Invalid account number: "@ + int_text(n as int));
            return Some(m);
        }
        if !known[i] {
            let mut m = String::new();
            push_str(&mut m, "Account ");
            push_int(&mut m, n as i64);
            push_str(&mut m, " not found for this company");
            assert(m@ =~= "Account "@ + int_text(n as int) + " not found for this company"@);
            return Some(m);
        }
        i += 1;
    }
    None
}

fn first_line_error(ls: &Vec<CreateVoucherLine>) -> (r: Option<String>)
    ensures
        match r {
            Some(m) => line_error(ls@, 0) == Some(m@),
            None => line_error(ls@, 0) is None,
        },
{
    let mut i: usize = 0;
    while i < ls.len()
        invariant
            i <= ls@.len(),
            line_error(ls@, 0) == line_error(ls@, i as int),
        decreases ls.len() - i,
    {
        let line = &ls[i];
        if !line.debit.is_zero() && !line.credit.is_zero() {
            let mut m = String::new();
            push_str(&mut m, "Line ");
            crate::money::push_nat(&mut m, (i + 1) as u128);
            push_str(&mut m, " has both debit and credit. Each line should use only one.");
            assert(m@ =~= "Line "@ + int_text(i + 1) + " has both debit and credit. Each line should use only one."@);
            return Some(m);
        }
        if line.debit.is_zero() && line.credit.is_zero() {
            let mut m = String::new();
            push_str(&mut m, "Line ");
            crate::money::push_nat(&mut m, (i + 1) as u128);
            push_str(&mut m, " has zero debit and credit.");
            assert(m@ =~= "Line "@ + int_text(i + 1) + " has zero debit and credit."@);
            return Some(m);
        }
        i += 1;
    }
    None
}

fn line_totals(ls: &Vec<CreateVoucherLine>) -> (r: (Money, Money))
    requires
        totals_fit(ls@),
    ensures
        r.0@ == debit_sum(ls@),
        r.1@ == credit_sum(ls@),
{
    let mut debit = Money::zero();
    let mut credit = Money::zero();
    let mut i: usize = 0;
    while i < ls.len()
        invariant
            i <= ls@.len(),
            totals_fit(ls@),
            debit@ == debit_sum(ls@.take(i as int)),
            credit@ == credit_sum(ls@.take(i as int)),
        decreases ls.len() - i,
    {
        assert(ls@.take(i + 1).drop_last() =~= ls@.take(i as int));
        assert(fits_i64(debit_sum(ls@.take(i + 1))));
        assert(fits_i64(credit_sum(ls@.take(i + 1))));
        debit = debit.add(ls[i].debit);
        credit = credit.add(ls[i].credit);
        i += 1;
    }
    assert(ls@.take(ls@.len() as int) =~= ls@);
    (debit, credit)
}

fn validation(m: &str) -> (e: VoucherError)
    ensures
        error_view(e) == (1int, m@, Seq::<char>::empty()),
{
    VoucherError::Validation(to_string(m))
}

/// Check a new voucher against its fiscal year. `known[i]` tells whether
/// the account of line `i` is in the company's chart (it is not consulted
/// for a number that is not a BAS number).
pub fn validate_voucher(fy: &FiscalYear, input: &CreateVoucher, known: &[bool]) -> (r: Result<(), VoucherError>)
    requires
        known@.len() == input.lines@.len(),
        totals_fit(input.lines@),
    ensures
        match r {
            Ok(()) => voucher_refusal(
                fy.is_closed,
                fy.start_date@,
                fy.end_date@,
                input.date@,
                input.lines@,
                known@,
            ) is None,
            Err(e) => voucher_refusal(
                fy.is_closed,
                fy.start_date@,
                fy.end_date@,
                input.date@,
                input.lines@,
                known@,
            ) == Some(error_view(e)),
        },
{
    if fy.is_closed {
        return Err(VoucherError::FiscalYearClosed);
    }
    if input.lines.len() < 2 {
        return Err(validation("A voucher must have at least 2 lines"));
    }
    let voucher_date = match parse_iso_date(input.date.as_str()) {
        Some(d) => d,
        None => return Err(validation("Invalid date format, use YYYY-MM-DD")),
    };
    let fy_start = match parse_iso_date(fy.start_date.as_str()) {
        Some(d) => d,
        None => return Err(VoucherError::Internal(to_string("Invalid fiscal year start date"))),
    };
    let fy_end = match parse_iso_date(fy.end_date.as_str()) {
        Some(d) => d,
        None => return Err(VoucherError::Internal(to_string("Invalid fiscal year end date"))),
    };
    if voucher_date.lt(&fy_start) || fy_end.lt(&voucher_date) {
        let mut m = String::new();
        push_str(&mut m, "Voucher date ");
        m.append(date_to_string(voucher_date).as_str());
        push_str(&mut m, " is outside fiscal year (");
        push_str(&mut m, fy.start_date.as_str());
        push_str(&mut m, " to ");
        push_str(&mut m, fy.end_date.as_str());
        push_str(&mut m, ")");
        assert(m@ =~= "Voucher date "@ + date_text(voucher_date) + " is outside fiscal year ("@
            + fy.start_date@ + " to "@ + fy.end_date@ + ")"@);
        return Err(VoucherError::Validation(m));
    }
    if let Some(m) = first_account_error(&input.lines, known) {
        return Err(VoucherError::Validation(m));
    }
    let (debit, credit) = line_totals(&input.lines);
    if debit.to_ore() != credit.to_ore() {
        return Err(VoucherError::UnbalancedVoucher { debit: debit.to_text(), credit: credit.to_text() });
    }
    if let Some(m) = first_line_error(&input.lines) {
        return Err(VoucherError::Validation(m));
    }
    Ok(())
}

/// The text of the audit log entry of a booked voucher: "#number date description".
pub open spec fn voucher_log_text(number: int, date: Seq<char>, description: Seq<char>) -> Seq<char> {
    "#"@ + int_text(number) + " "@ + date + " "@ + description
}

/// The audit log entry of a booked voucher.
pub fn voucher_log_message(number: i32, date: &str, description: &str) -> (s: String)
    ensures
        s@ == voucher_log_text(number as int, date@, description@),
{
    let mut s = String::new();
    push_str(&mut s, "#");
    push_int(&mut s, number as i64);
    push_str(&mut s, " ");
    push_str(&mut s, date);
    push_str(&mut s, " ");
    push_str(&mut s, description);
    assert(s@ =~= voucher_log_text(number as int, date@, description@));
    s
}

proof fn lemma_no_line_error(ls: Seq<CreateVoucherLine>, j: int)
    requires
        0 <= j,
        line_error(ls, j) is None,
    ensures
        forall|i: int| j <= i < ls.len() ==> ((#[trigger] ls[i]).debit@ == 0) != (ls[i].credit@ == 0),
    decreases ls.len() - j,
{
    if j < ls.len() {
        lemma_no_line_error(ls, j + 1);
    }
}

proof fn lemma_no_account_error(ls: Seq<CreateVoucherLine>, known: Seq<bool>, j: int)
    requires
        0 <= j,
        account_error(ls, known, j) is None,
    ensures
        forall|i: int| j <= i < ls.len() ==> 1000 <= (#[trigger] ls[i]).account_number <= 9999 && known[i],
    decreases ls.len() - j,
{
    if j < ls.len() {
        lemma_no_account_error(ls, known, j + 1);
    }
}

/// A voucher that is accepted balances, has at least two lines, each with
/// either a debit or a credit, on BAS accounts of the chart, and is dated
/// within its fiscal year.
pub proof fn lemma_accepted_voucher_balances(
    is_closed: bool,
    fy_start: Seq<char>,
    fy_end: Seq<char>,
    date: Seq<char>,
    ls: Seq<CreateVoucherLine>,
    known: Seq<bool>,
)
    requires
        voucher_refusal(is_closed, fy_start, fy_end, date, ls, known) is None,
    ensures
        !is_closed,
        ls.len() >= 2,
        debit_sum(ls) == credit_sum(ls),
        forall|i: int| 0 <= i < ls.len() ==> ((#[trigger] ls[i]).debit@ == 0) != (ls[i].credit@ == 0),
        forall|i: int| 0 <= i < ls.len() ==> 1000 <= (#[trigger] ls[i]).account_number <= 9999 && known[i],
        parsed_date(date) matches Some(d) && parsed_date(fy_start) matches Some(s) && parsed_date(fy_end) matches Some(e)
            && !d.before(s) && !e.before(d),
{
    lemma_no_line_error(ls, 0);
    lemma_no_account_error(ls, known, 0);
}

} // verus!
