//! The checks before the annual closing under K2, and the summary of the
//! year's result and balance sheet.
use vstd::prelude::*;
use crate::ledger::{
    credit_side, lemma_range_push, lemma_range_split, net_of, range_balance, range_net, within, AccountBalance,
};
use crate::money::{money_text, round_half_even, Money};
use crate::text::{int_text, push_int, push_str, to_string};

verus! {

/// The corporate tax on a profit of `ore` öre: 20.6 % of it, rounded to whole
/// kronor (half to even); nothing on a loss.
pub open spec fn tax_on(ore: int) -> int {
    if ore > 0 {
        round_half_even((ore * 206) as nat, 100000) as int * 100
    } else {
        0
    }
}

/// Corporate tax (20.6 %, rounded to whole kronor) on a result before tax; zero
/// unless the result is a profit.
pub fn estimated_tax(result_before_tax: Money) -> (tax: Money)
    ensures
        tax@ == tax_on(result_before_tax@),
        0 <= tax@,
        result_before_tax@ > 0 ==> tax@ <= result_before_tax@,
{
    proof {
        result_before_tax.lemma_range();
    }
    if result_before_tax.is_positive() {
        let p: i128 = result_before_tax.to_ore() as i128 * 206;
        let q: i128 = p / 100000;
        let r: i128 = p % 100000;
        let up = 2 * r > 100000 || (2 * r == 100000 && q % 2 == 1);
        let kr: i128 = if up { q + 1 } else { q };
        proof {
            let x = result_before_tax@;
            assert(kr == round_half_even((x * 206) as nat, 100000));
            assert(kr * 100 <= x) by (nonlinear_arith)
                requires
                    x > 0,
                    p == x * 206,
                    q == p / 100000,
                    r == p % 100000,
                    up ==> kr == q + 1,
                    !up ==> kr == q,
                    up ==> 2 * r >= 100000,
            ;
        }
        Money::from_ore((kr * 100) as i64)
    } else {
        Money::zero()
    }
}

/// How grave an issue is.
#[derive(Debug, Clone, Copy, PartialEq, Eq, Structural)]
pub enum IssueSeverity {
    Error,
    Warning,
}

/// One finding of the checks.
#[derive(Debug, Clone)]
pub struct ValidationIssue {
    pub code: String,
    pub message: String,
    pub severity: IssueSeverity,
}

impl View for ValidationIssue {
    type V = (Seq<char>, Seq<char>, IssueSeverity);

    open spec fn view(&self) -> (Seq<char>, Seq<char>, IssueSeverity) {
        (self.code@, self.message@, self.severity)
    }
}

/// Summary of financial state before closing.
#[derive(Debug, Clone)]
pub struct ClosingSummary {
    pub total_revenue: Money,
    pub total_expenses: Money,
    pub operating_result: Money,
    pub financial_income: Money,
    pub financial_expenses: Money,
    pub result_before_tax: Money,
    pub estimated_tax: Money,
    pub net_result: Money,
    pub total_assets: Money,
    pub total_equity_and_liabilities: Money,
    pub balance_difference: Money,
}

/// The figures of a summary, in öre.
pub struct SummaryFigures {
    pub total_revenue: int,
    pub total_expenses: int,
    pub operating_result: int,
    pub financial_income: int,
    pub financial_expenses: int,
    pub result_before_tax: int,
    pub estimated_tax: int,
    pub net_result: int,
    pub total_assets: int,
    pub total_equity_and_liabilities: int,
    pub balance_difference: int,
}

impl View for ClosingSummary {
    type V = SummaryFigures;

    open spec fn view(&self) -> SummaryFigures {
        SummaryFigures {
            total_revenue: self.total_revenue@,
            total_expenses: self.total_expenses@,
            operating_result: self.operating_result@,
            financial_income: self.financial_income@,
            financial_expenses: self.financial_expenses@,
            result_before_tax: self.result_before_tax@,
            estimated_tax: self.estimated_tax@,
            net_result: self.net_result@,
            total_assets: self.total_assets@,
            total_equity_and_liabilities: self.total_equity_and_liabilities@,
            balance_difference: self.balance_difference@,
        }
    }
}

/// The summary of a year's balances: revenue is the credit balance of class 3;
/// expenses the debit balance of classes 4-7; financial income the credit
/// balance of 83xx and financial expenses the debit balance of 84xx-87xx
/// (88xx and 89xx are left out before closing); assets the debit balance of
/// class 1 and equity and liabilities the credit balance of class 2; the
/// difference is what the balance sheet lacks to balance.
pub open spec fn summary_of(bs: Seq<AccountBalance>) -> SummaryFigures {
    let revenue = -range_net(bs, 3000, 4000);
    let expenses = range_net(bs, 4000, 5000) + range_net(bs, 5000, 7000) + range_net(bs, 7000, 8000);
    let operating = revenue - expenses;
    let fin_income = -range_net(bs, 8300, 8400);
    let fin_expense = range_net(bs, 8400, 8800);
    let before_tax = operating + fin_income - fin_expense;
    let tax = tax_on(before_tax);
    SummaryFigures {
        total_revenue: revenue,
        total_expenses: expenses,
        operating_result: operating,
        financial_income: fin_income,
        financial_expenses: fin_expense,
        result_before_tax: before_tax,
        estimated_tax: tax,
        net_result: before_tax - tax,
        total_assets: range_net(bs, 1000, 2000),
        total_equity_and_liabilities: -range_net(bs, 2000, 3000),
        balance_difference: range_net(bs, 1000, 2000) + range_net(bs, 2000, 3000),
    }
}

/// Every figure of the summary, and every class total it is made of, can be
/// held as an amount.
pub open spec fn summary_fits(bs: Seq<AccountBalance>) -> bool {
    let f = summary_of(bs);
    &&& within(range_net(bs, 1000, 2000))
    &&& within(range_net(bs, 2000, 3000))
    &&& within(range_net(bs, 3000, 4000))
    &&& within(range_net(bs, 4000, 5000))
    &&& within(range_net(bs, 5000, 7000))
    &&& within(range_net(bs, 7000, 8000))
    &&& within(range_net(bs, 8300, 8400))
    &&& within(range_net(bs, 8400, 8800))
    &&& within(f.total_expenses)
    &&& within(range_net(bs, 4000, 5000) + range_net(bs, 5000, 7000))
    &&& within(f.operating_result)
    &&& within(f.operating_result + f.financial_income)
    &&& within(f.result_before_tax)
    &&& within(f.balance_difference)
}

/// Calculate the summary of a year's balances.
pub fn closing_summary(balances: &[AccountBalance]) -> (s: ClosingSummary)
    requires
        summary_fits(balances@),
    ensures
        s@ == summary_of(balances@),
{
    let r3 = range_balance(balances, 3000, 4000);
    let c4 = range_balance(balances, 4000, 5000);
    let c56 = range_balance(balances, 5000, 7000);
    let c7 = range_balance(balances, 7000, 8000);
    let fi = range_balance(balances, 8300, 8400);
    let fe = range_balance(balances, 8400, 8800);
    let a1 = range_balance(balances, 1000, 2000);
    let e2 = range_balance(balances, 2000, 3000);
    let total_revenue = r3.neg();
    let total_expenses = c4.add(c56).add(c7);
    let operating_result = total_revenue.sub(total_expenses);
    let fin_income = fi.neg();
    let result_before_tax = operating_result.add(fin_income).sub(fe);
    let tax = estimated_tax(result_before_tax);
    let net_result = result_before_tax.sub(tax);
    ClosingSummary {
        total_revenue,
        total_expenses,
        operating_result,
        financial_income: fin_income,
        financial_expenses: fe,
        result_before_tax,
        estimated_tax: tax,
        net_result,
        total_assets: a1,
        total_equity_and_liabilities: e2.neg(),
        balance_difference: a1.add(e2),
    }
}

/// Result of a K2 compliance validation check.
#[derive(Debug, Clone)]
pub struct ValidationResult {
    pub passed: bool,
    pub errors: Vec<ValidationIssue>,
    pub warnings: Vec<ValidationIssue>,
    pub summary: ClosingSummary,
}

pub open spec fn closed_issue() -> (Seq<char>, Seq<char>, IssueSeverity) {
    ("FY_ALREADY_CLOSED"@, "Räkenskapsåret är redan stängt."@, IssueSeverity::Error)
}

pub open spec fn no_vouchers_issue() -> (Seq<char>, Seq<char>, IssueSeverity) {
    ("NO_VOUCHERS"@, "Inga verifikationer finns för räkenskapsåret."@, IssueSeverity::Error)
}

pub open spec fn unbalanced_issue(n: int) -> (Seq<char>, Seq<char>, IssueSeverity) {
    ("UNBALANCED_VOUCHERS"@, int_text(n) + " verifikation(er) är inte balanserade."@, IssueSeverity::Error)
}

pub open spec fn balance_diff_issue(diff: int) -> (Seq<char>, Seq<char>, IssueSeverity) {
    (
        "BALANCE_SHEET_DIFF"@,
        "Balansräkningen balanserar inte (diff: "@ + money_text(diff)
            + "). Detta är normalt innan bokslutsverifikationer."@,
        IssueSeverity::Warning,
    )
}

pub open spec fn no_revenue_issue() -> (Seq<char>, Seq<char>, IssueSeverity) {
    ("NO_REVENUE"@, "Inga intäkter bokförda under räkenskapsåret."@, IssueSeverity::Warning)
}

pub open spec fn when(c: bool, i: (Seq<char>, Seq<char>, IssueSeverity)) -> Seq<(Seq<char>, Seq<char>, IssueSeverity)> {
    if c {
        seq![i]
    } else {
        Seq::empty()
    }
}

/// The errors: the year is already closed, it has no vouchers of its own (not
/// counting closing entries), some of its vouchers do not balance.
pub open spec fn closing_errors(is_closed: bool, voucher_count: int, unbalanced: int) -> Seq<
    (Seq<char>, Seq<char>, IssueSeverity),
> {
    when(is_closed, closed_issue()) + when(voucher_count == 0, no_vouchers_issue()) + when(
        unbalanced > 0,
        unbalanced_issue(unbalanced),
    )
}

/// The warnings: the balance sheet does not balance, no revenue was booked.
pub open spec fn closing_warnings(f: SummaryFigures) -> Seq<(Seq<char>, Seq<char>, IssueSeverity)> {
    when(f.balance_difference != 0, balance_diff_issue(f.balance_difference)) + when(
        f.total_revenue == 0,
        no_revenue_issue(),
    )
}

pub open spec fn issue_views(v: Seq<ValidationIssue>) -> Seq<(Seq<char>, Seq<char>, IssueSeverity)> {
    v.map_values(|i: ValidationIssue| i@)
}

fn issue(code: &str, message: String, severity: IssueSeverity) -> (i: ValidationIssue)
    ensures
        i@ == (code@, message@, severity),
{
    ValidationIssue { code: to_string(code), message, severity }
}

fn push_issue(v: &mut Vec<ValidationIssue>, i: ValidationIssue)
    ensures
        issue_views(final(v)@) == issue_views(old(v)@).push(i@),
{
    v.push(i);
    assert(issue_views(v@) =~= issue_views(old(v)@).push(i@));
}

/// Run the K2 checks on what the books hold for a fiscal year: whether it is
/// closed, how many vouchers it has besides closing entries, how many of its
/// vouchers do not balance, and the balance of each account.
pub fn evaluate_closing(
    is_closed: bool,
    voucher_count: i32,
    unbalanced: i32,
    balances: &[AccountBalance],
) -> (r: ValidationResult)
    requires
        summary_fits(balances@),
    ensures
        issue_views(r.errors@) == closing_errors(is_closed, voucher_count as int, unbalanced as int),
        issue_views(r.warnings@) == closing_warnings(summary_of(balances@)),
        r.summary@ == summary_of(balances@),
        r.passed == (r.errors@.len() == 0),
{
    let mut errors: Vec<ValidationIssue> = Vec::new();
    let mut warnings: Vec<ValidationIssue> = Vec::new();
    assert(issue_views(errors@) =~= Seq::empty());
    assert(issue_views(warnings@) =~= Seq::empty());
    if is_closed {
        push_issue(
            &mut errors,
            issue("FY_ALREADY_CLOSED", to_string("Räkenskapsåret är redan stängt."), IssueSeverity::Error),
        );
    }
    let ghost e1 = issue_views(errors@);
    assert(e1 =~= when(is_closed, closed_issue()));
    if voucher_count == 0 {
        push_issue(
            &mut errors,
            issue(
                "NO_VOUCHERS",
                to_string("Inga verifikationer finns för räkenskapsåret."),
                IssueSeverity::Error,
            ),
        );
    }
    let ghost e2 = issue_views(errors@);
    assert(e2 =~= e1 + when(voucher_count == 0, no_vouchers_issue()));
    if unbalanced > 0 {
        let mut msg = String::new();
        push_int(&mut msg, unbalanced as i64);
        push_str(&mut msg, " verifikation(er) är inte balanserade.");
        assert(msg@ =~= int_text(unbalanced as int) + " verifikation(er) är inte balanserade."@);
        push_issue(&mut errors, issue("UNBALANCED_VOUCHERS", msg, IssueSeverity::Error));
    }
    assert(issue_views(errors@) =~= e2 + when(unbalanced > 0, unbalanced_issue(unbalanced as int)));
    let summary = closing_summary(balances);
    if !summary.balance_difference.is_zero() {
        let mut msg = String::new();
        push_str(&mut msg, "Balansräkningen balanserar inte (diff: ");
        summary.balance_difference.push_text(&mut msg);
        push_str(&mut msg, "). Detta är normalt innan bokslutsverifikationer.");
        assert(msg@ =~= "Balansräkningen balanserar inte (diff: "@ + money_text(
            summary.balance_difference@,
        ) + "). Detta är normalt innan bokslutsverifikationer."@);
        push_issue(&mut warnings, issue("BALANCE_SHEET_DIFF", msg, IssueSeverity::Warning));
    }
    let ghost w1 = issue_views(warnings@);
    assert(w1 =~= when(summary@.balance_difference != 0, balance_diff_issue(summary@.balance_difference)));
    if summary.total_revenue.is_zero() {
        push_issue(
            &mut warnings,
            issue(
                "NO_REVENUE",
                to_string("Inga intäkter bokförda under räkenskapsåret."),
                IssueSeverity::Warning,
            ),
        );
    }
    assert(issue_views(warnings@) =~= w1 + when(summary@.total_revenue == 0, no_revenue_issue()));
    let passed = errors.len() == 0;
    ValidationResult { passed, errors, warnings, summary }
}

/// The result before tax in the summary is the credit balance of the
/// operating accounts (classes 3-7) and the financial items (8300-8799):
/// revenue less expenses, plus financial income, less financial expenses.
/// The estimated tax is the tax on that result, and the net result what
/// remains after it.
pub proof fn lemma_summary_result(bs: Seq<AccountBalance>)
    ensures
        summary_of(bs).operating_result == credit_side(bs, 3000, 7999),
        summary_of(bs).result_before_tax == credit_side(bs, 3000, 7999) + credit_side(bs, 8300, 8799),
        summary_of(bs).result_before_tax == summary_of(bs).operating_result + summary_of(bs).financial_income
            - summary_of(bs).financial_expenses,
        summary_of(bs).estimated_tax == tax_on(summary_of(bs).result_before_tax),
        summary_of(bs).net_result == summary_of(bs).result_before_tax - summary_of(bs).estimated_tax,
{
    lemma_range_split(bs, 3000, 4000, 8000);
    lemma_range_split(bs, 4000, 5000, 8000);
    lemma_range_split(bs, 5000, 7000, 8000);
    lemma_range_split(bs, 8300, 8400, 8800);
}

proof fn lemma_round_half_even_monotone(m1: nat, m2: nat, p: nat)
    requires
        m1 <= m2,
        p >= 1,
    ensures
        round_half_even(m1, p) <= round_half_even(m2, p),
{
    let q1 = m1 / p;
    let q2 = m2 / p;
    let r1 = m1 % p;
    let r2 = m2 % p;
    assert(q1 <= q2) by (nonlinear_arith)
        requires
            m1 <= m2,
            p >= 1,
            q1 == m1 / p,
            q2 == m2 / p,
    ;
    assert(q1 == q2 ==> r1 <= r2) by (nonlinear_arith)
        requires
            m1 <= m2,
            p >= 1,
            q1 == m1 / p,
            q2 == m2 / p,
            r1 == m1 % p,
            r2 == m2 % p,
    ;
}

/// The tax grows with the result: a larger result is never taxed less, and
/// the tax is never negative.
pub proof fn lemma_tax_monotone(x: int, y: int)
    requires
        x <= y,
    ensures
        0 <= tax_on(x) <= tax_on(y),
{
    if x > 0 {
        lemma_round_half_even_monotone((x * 206) as nat, (y * 206) as nat, 100000);
    }
}

/// A debit balance on the financial expense accounts (8400-8799) lowers the
/// result before tax by that balance, and never raises the estimated tax.
pub proof fn lemma_financial_cost_lowers_result(bs: Seq<AccountBalance>, b: AccountBalance)
    requires
        8400 <= b.account_number < 8800,
        net_of(b) >= 0,
    ensures
        summary_of(bs.push(b)).result_before_tax == summary_of(bs).result_before_tax - net_of(b),
        summary_of(bs.push(b)).estimated_tax <= summary_of(bs).estimated_tax,
{
    lemma_summary_result(bs);
    lemma_summary_result(bs.push(b));
    lemma_range_push(bs, b, 3000, 8000);
    lemma_range_push(bs, b, 8300, 8800);
    lemma_tax_monotone(summary_of(bs.push(b)).result_before_tax, summary_of(bs).result_before_tax);
}

} // verus!
