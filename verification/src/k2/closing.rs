//! The closing entries of a fiscal year (bokslutsverifikationer) and the
//! opening balances of the next one.
use vstd::prelude::*;
use crate::date::{date_from_ymd, days_in_month, following_day, from_ymd, month_length, next_day, Date};
use crate::k2::validation::{closing_summary, summary_fits, summary_of};
use crate::ledger::{net_of, within, AccountBalance};
use crate::money::{fits_i64, money_text, Money};
use crate::text::{int_text, push_int, push_str, to_string};

verus! {

/// A debit or a credit on an account in a planned voucher.
#[derive(Clone, Copy, Debug)]
pub struct ClosingLine {
    pub account_number: i32,
    pub debit: Money,
    pub credit: Money,
}

impl View for ClosingLine {
    type V = (i32, int, int);

    open spec fn view(&self) -> (i32, int, int) {
        (self.account_number, self.debit@, self.credit@)
    }
}

pub open spec fn line_views(ls: Seq<ClosingLine>) -> Seq<(i32, int, int)> {
    ls.map_values(|l: ClosingLine| l@)
}

/// A voucher that the closing books: its text, its lines and the amount it
/// reports.
#[derive(Clone, Debug)]
pub struct PlannedVoucher {
    pub description: String,
    pub lines: Vec<ClosingLine>,
    pub total_amount: Money,
}

impl View for PlannedVoucher {
    type V = (Seq<char>, Seq<(i32, int, int)>, int);

    open spec fn view(&self) -> (Seq<char>, Seq<(i32, int, int)>, int) {
        (self.description@, line_views(self.lines@), self.total_amount@)
    }
}

/// The closing entries of a year and the tax they book.
#[derive(Clone, Debug)]
pub struct ClosingPlan {
    pub vouchers: Vec<PlannedVoucher>,
    pub tax_amount: Money,
}

pub open spec fn voucher_views(vs: Seq<PlannedVoucher>) -> Seq<(Seq<char>, Seq<(i32, int, int)>, int)> {
    vs.map_values(|v: PlannedVoucher| v@)
}

/// Parameters for executing the annual closing.
#[derive(Debug, Clone, Copy)]
pub struct ClosingParams {
    /// Tax amount in SEK (can be adjusted from the estimated amount).
    pub tax_amount: Option<Money>,
    /// Whether to create opening balances for the next fiscal year.
    pub carry_forward: bool,
}

/// The default of `carry_forward`.
pub fn default_true() -> (b: bool)
    ensures
        b,
{
    true
}

/// Result of executing the closing.
#[derive(Debug, Clone)]
pub struct ClosingResult {
    pub closing_vouchers: Vec<ClosingVoucherInfo>,
    pub fiscal_year_closed: bool,
    pub next_fiscal_year_id: Option<String>,
}

/// A closing voucher as it was booked.
#[derive(Debug, Clone)]
pub struct ClosingVoucherInfo {
    pub voucher_id: String,
    pub voucher_number: i32,
    pub description: String,
    pub total_amount: Money,
}

#[verifier::external_type_specification]
#[verifier::external_body]
pub struct ExSqlxError(sqlx::Error);

/// Why a closing failed.
#[derive(Debug)]
pub enum ClosingError {
    AlreadyClosed,
    Database(sqlx::Error),
    Internal(String),
}

/// Whether the closing of the income statement takes up an account: classes
/// 3-8 except 8910 (tax) and 8999 (the year's result), with a balance.
pub open spec fn closes(b: AccountBalance) -> bool {
    &&& 3000 <= b.account_number < 9000
    &&& b.account_number != 8999
    &&& b.account_number != 8910
    &&& net_of(b) != 0
}

/// The line that brings an account's balance to zero.
pub open spec fn reversal(b: AccountBalance) -> (i32, int, int) {
    if net_of(b) > 0 {
        (b.account_number, 0, net_of(b))
    } else {
        (b.account_number, -net_of(b), 0)
    }
}

/// The lines that close the income statement accounts, in the order of the balances.
pub open spec fn income_lines(bs: Seq<AccountBalance>) -> Seq<(i32, int, int)>
    decreases bs.len(),
{
    if bs.len() == 0 {
        Seq::empty()
    } else {
        let rest = income_lines(bs.drop_last());
        if closes(bs.last()) {
            rest.push(reversal(bs.last()))
        } else {
            rest
        }
    }
}

/// The summed debit-side balance of the accounts that the closing takes up
/// (positive for a loss, negative for a profit).
pub open spec fn income_net(bs: Seq<AccountBalance>) -> int
    decreases bs.len(),
{
    if bs.len() == 0 {
        0
    } else {
        income_net(bs.drop_last()) + if closes(bs.last()) {
            net_of(bs.last())
        } else {
            0
        }
    }
}

/// The sum of the debits of some lines.
pub open spec fn debit_total(ls: Seq<(i32, int, int)>) -> int
    decreases ls.len(),
{
    if ls.len() == 0 {
        0
    } else {
        debit_total(ls.drop_last()) + ls.last().1
    }
}

/// The sum of the credits of some lines.
pub open spec fn credit_total(ls: Seq<(i32, int, int)>) -> int
    decreases ls.len(),
{
    if ls.len() == 0 {
        0
    } else {
        credit_total(ls.drop_last()) + ls.last().2
    }
}

/// What some lines do to the debit-side balance of account `n`.
pub open spec fn account_effect(ls: Seq<(i32, int, int)>, n: i32) -> int
    decreases ls.len(),
{
    if ls.len() == 0 {
        0
    } else {
        account_effect(ls.drop_last(), n) + if ls.last().0 == n {
            ls.last().1 - ls.last().2
        } else {
            0
        }
    }
}

/// The debit-side balance of account `n` in the balances.
pub open spec fn account_net(bs: Seq<AccountBalance>, n: i32) -> int
    decreases bs.len(),
{
    if bs.len() == 0 {
        0
    } else {
        account_net(bs.drop_last(), n) + if bs.last().account_number == n {
            net_of(bs.last())
        } else {
            0
        }
    }
}

/// A line that books a debit-side amount on an account: a debit when it is
/// positive, a credit when negative, nothing when zero.
pub open spec fn signed_line(n: i32, amount: int) -> Seq<(i32, int, int)> {
    if amount > 0 {
        seq![(n, amount, 0int)]
    } else if amount < 0 {
        seq![(n, 0int, -amount)]
    } else {
        Seq::empty()
    }
}

/// The tax that the closing books: the amount given (adjusted from the
/// estimate), else the estimate of the year's summary.
pub open spec fn chosen_tax(bs: Seq<AccountBalance>, tax: Option<int>) -> int {
    match tax {
        Some(t) => t,
        None => summary_of(bs).estimated_tax,
    }
}

pub open spec fn result_description() -> Seq<char> {
    "Avslut resultaträkning"@
}

pub open spec fn tax_description() -> Seq<char> {
    "Beräknad bolagsskatt"@
}

pub open spec fn transfer_description() -> Seq<char> {
    "Överföring årets resultat till eget kapital"@
}

/// The first closing voucher: each income statement account closed against
/// 8999 Årets resultat; its amount is the sum of the closing lines.
pub open spec fn result_voucher(bs: Seq<AccountBalance>) -> (Seq<char>, Seq<(i32, int, int)>, int) {
    let ls = income_lines(bs);
    (result_description(), ls + signed_line(8999, income_net(bs)), debit_total(ls) + credit_total(ls))
}

/// The tax voucher: debit 8910 Skatt, credit 2510 Skatteskulder.
pub open spec fn tax_voucher(tax: int) -> (Seq<char>, Seq<(i32, int, int)>, int) {
    (tax_description(), seq![(8910i32, tax, 0int), (2510i32, 0int, tax)], tax)
}

/// The voucher that closes 8910 and 8999 and carries the result after tax
/// to 2099 Årets resultat.
pub open spec fn transfer_voucher(profit: int, tax: int) -> (Seq<char>, Seq<(i32, int, int)>, int) {
    let after_tax = profit - tax;
    let closing_tax: Seq<(i32, int, int)> = if tax != 0 {
        seq![(8910i32, 0int, tax)]
    } else {
        Seq::empty()
    };
    (
        transfer_description(),
        closing_tax + signed_line(8999, profit) + signed_line(2099, -after_tax),
        if after_tax < 0 {
            -after_tax
        } else {
            after_tax
        },
    )
}

/// The closing vouchers of a year, in the order they are booked: the result
/// voucher when some account is to be closed, the tax voucher when the tax
/// is not zero, and the transfer voucher.
pub open spec fn closing_vouchers(bs: Seq<AccountBalance>, tax: Option<int>) -> Seq<
    (Seq<char>, Seq<(i32, int, int)>, int),
> {
    let profit = -income_net(bs);
    let t = chosen_tax(bs, tax);
    (if income_lines(bs).len() > 0 {
        seq![result_voucher(bs)]
    } else {
        Seq::empty()
    }) + (if t != 0 {
        seq![tax_voucher(t)]
    } else {
        Seq::empty()
    }) + seq![transfer_voucher(profit, t)]
}

pub open spec fn opt_ore(m: Option<Money>) -> Option<int> {
    match m {
        Some(x) => Some(x@),
        None => None,
    }
}

/// Every amount the closing computes can be held as an amount.
pub open spec fn closing_fits(bs: Seq<AccountBalance>, tax: Option<int>) -> bool {
    let ls = income_lines(bs);
    let t = chosen_tax(bs, tax);
    &&& forall|i: int| 0 <= i < bs.len() ==> within(#[trigger] net_of(bs[i]))
    &&& tax is None ==> summary_fits(bs)
    &&& within(income_net(bs))
    &&& fits_i64(debit_total(ls) + credit_total(ls))
    &&& within(t)
    &&& within(-income_net(bs) - t)
}

/// Plan the closing of a fiscal year from the balance of each of its accounts.
/// A year that is already closed is refused.
pub fn plan_closing(is_closed: bool, balances: &[AccountBalance], tax_amount: Option<Money>) -> (r: Result<
    ClosingPlan,
    ClosingError,
>)
    requires
        closing_fits(balances@, opt_ore(tax_amount)),
    ensures
        is_closed ==> r matches Err(ClosingError::AlreadyClosed),
        !is_closed ==> (r matches Ok(plan) && voucher_views(plan.vouchers@) == closing_vouchers(
            balances@,
            opt_ore(tax_amount),
        ) && plan.tax_amount@ == chosen_tax(balances@, opt_ore(tax_amount))),
{
    if is_closed {
        return Err(ClosingError::AlreadyClosed);
    }
    let ghost bs = balances@;
    let mut lines: Vec<ClosingLine> = Vec::new();
    let mut net_result: i128 = 0;
    let mut total: i128 = 0;
    let mut i: usize = 0;
    assert(line_views(lines@) =~= income_lines(bs.take(0)));
    while i < balances.len()
        invariant
            i <= bs.len(),
            bs == balances@,
            closing_fits(bs, opt_ore(tax_amount)),
            line_views(lines@) == income_lines(bs.take(i as int)),
            net_result == income_net(bs.take(i as int)),
            total == debit_total(income_lines(bs.take(i as int))) + credit_total(
                income_lines(bs.take(i as int)),
            ),
            -(i as int) * 0x8000_0000_0000_0000 <= net_result <= (i as int) * 0x8000_0000_0000_0000,
            0 <= total <= (i as int) * 0x8000_0000_0000_0000,
        decreases balances.len() - i,
    {
        let b = balances[i];
        let ghost pre = bs.take(i as int);
        assert(bs.take(i + 1).drop_last() =~= pre);
        assert(bs.take(i + 1).last() == b);
        assert(within(net_of(bs[i as int])));
        proof {
            assert((i as int) < 0x1_0000_0000_0000_0000);
            assert((i + 1) * 0x8000_0000_0000_0000 <= 0x1_0000_0000_0000_0000 * 0x8000_0000_0000_0000)
                by (nonlinear_arith)
                requires
                    (i as int) < 0x1_0000_0000_0000_0000,
            ;
        }
        let net = b.total_debit.sub(b.total_credit);
        if 3000 <= b.account_number && b.account_number < 9000 && b.account_number != 8999
            && b.account_number != 8910 && !net.is_zero() {
            let line = if net.is_positive() {
                ClosingLine { account_number: b.account_number, debit: Money::zero(), credit: net }
            } else {
                ClosingLine { account_number: b.account_number, debit: net.neg(), credit: Money::zero() }
            };
            assert(line@ == reversal(b));
            assert(income_lines(pre).push(reversal(b)).drop_last() =~= income_lines(pre));
            lines.push(line);
            net_result = net_result + net.to_ore() as i128;
            total = total + line.debit.to_ore() as i128 + line.credit.to_ore() as i128;
        }
        assert(line_views(lines@) =~= income_lines(bs.take(i + 1)));
        i += 1;
    }
    assert(bs.take(bs.len() as int) =~= bs);
    let mut vouchers: Vec<PlannedVoucher> = Vec::new();
    assert(voucher_views(vouchers@) =~= Seq::empty());
    let net_money = Money::from_ore(net_result as i64);
    let ghost ls = income_lines(bs);
    if lines.len() > 0 {
        let mut vlines = lines.clone();
        assert(line_views(vlines@) == ls) by {
            assert(vlines@ == lines@);
        }
        if net_money.is_positive() {
            vlines.push(ClosingLine { account_number: 8999, debit: net_money, credit: Money::zero() });
        } else if net_money.is_negative() {
            vlines.push(ClosingLine { account_number: 8999, debit: Money::zero(), credit: net_money.neg() });
        }
        assert(line_views(vlines@) =~= ls + signed_line(8999, income_net(bs)));
        let v = PlannedVoucher {
            description: to_string("Avslut resultaträkning"),
            lines: vlines,
            total_amount: Money::from_ore(total as i64),
        };
        assert(v@ == result_voucher(bs));
        vouchers.push(v);
    }
    let ghost after1 = voucher_views(vouchers@);
    assert(after1 =~= (if ls.len() > 0 {
        seq![result_voucher(bs)]
    } else {
        Seq::empty()
    })) by {
        if ls.len() > 0 {
            assert(vouchers@.len() == 1);
        }
    }
    let taxable = net_money.neg();
    let tax = match tax_amount {
        Some(t) => t,
        None => closing_summary(balances).estimated_tax,
    };
    assert(tax@ == chosen_tax(bs, opt_ore(tax_amount)));
    if !tax.is_zero() {
        let mut tl: Vec<ClosingLine> = Vec::new();
        tl.push(ClosingLine { account_number: 8910, debit: tax, credit: Money::zero() });
        tl.push(ClosingLine { account_number: 2510, debit: Money::zero(), credit: tax });
        assert(line_views(tl@) =~= seq![(8910i32, tax@, 0int), (2510i32, 0int, tax@)]);
        let v = PlannedVoucher { description: to_string("Beräknad bolagsskatt"), lines: tl, total_amount: tax };
        let ghost before = vouchers@;
        vouchers.push(v);
        assert(voucher_views(vouchers@) =~= voucher_views(before).push(tax_voucher(tax@)));
    }
    let ghost after2 = voucher_views(vouchers@);
    assert(after2 =~= after1 + (if tax@ != 0 {
        seq![tax_voucher(tax@)]
    } else {
        Seq::empty()
    }));
    let after_tax = taxable.sub(tax);
    let mut xl: Vec<ClosingLine> = Vec::new();
    if !tax.is_zero() {
        xl.push(ClosingLine { account_number: 8910, debit: Money::zero(), credit: tax });
    }
    let ghost x1 = line_views(xl@);
    if taxable.is_positive() {
        xl.push(ClosingLine { account_number: 8999, debit: taxable, credit: Money::zero() });
    } else if taxable.is_negative() {
        xl.push(ClosingLine { account_number: 8999, debit: Money::zero(), credit: taxable.neg() });
    }
    assert(line_views(xl@) =~= x1 + signed_line(8999, taxable@));
    let ghost x2 = line_views(xl@);
    if after_tax.is_positive() {
        xl.push(ClosingLine { account_number: 2099, debit: Money::zero(), credit: after_tax });
    } else if after_tax.is_negative() {
        xl.push(ClosingLine { account_number: 2099, debit: after_tax.neg(), credit: Money::zero() });
    }
    assert(line_views(xl@) =~= x2 + signed_line(2099, -after_tax@));
    let v = PlannedVoucher {
        description: to_string("Överföring årets resultat till eget kapital"),
        lines: xl,
        total_amount: after_tax.abs(),
    };
    assert(v@ == transfer_voucher(taxable@, tax@)) by {
        let closing_tax: Seq<(i32, int, int)> = if tax@ != 0 {
            seq![(8910i32, 0int, tax@)]
        } else {
            Seq::empty()
        };
        assert(x1 =~= closing_tax);
    }
    let ghost before = vouchers@;
    vouchers.push(v);
    assert(voucher_views(vouchers@) =~= voucher_views(before).push(v@));
    assert(voucher_views(vouchers@) =~= closing_vouchers(bs, opt_ore(tax_amount)));
    Ok(ClosingPlan { vouchers, tax_amount: tax })
}

/// All the lines of some vouchers, in order.
pub open spec fn all_lines(vs: Seq<(Seq<char>, Seq<(i32, int, int)>, int)>) -> Seq<(i32, int, int)>
    decreases vs.len(),
{
    if vs.len() == 0 {
        Seq::empty()
    } else {
        all_lines(vs.drop_last()) + vs.last().1
    }
}

proof fn lemma_totals_append(a: Seq<(i32, int, int)>, b: Seq<(i32, int, int)>, n: i32)
    ensures
        debit_total(a + b) == debit_total(a) + debit_total(b),
        credit_total(a + b) == credit_total(a) + credit_total(b),
        account_effect(a + b, n) == account_effect(a, n) + account_effect(b, n),
    decreases b.len(),
{
    if b.len() > 0 {
        assert((a + b).drop_last() =~= a + b.drop_last());
        lemma_totals_append(a, b.drop_last(), n);
    } else {
        assert(a + b =~= a);
    }
}

proof fn lemma_signed_line(n: i32, amount: int, m: i32)
    ensures
        debit_total(signed_line(n, amount)) - credit_total(signed_line(n, amount)) == amount,
        account_effect(signed_line(n, amount), m) == if m == n {
            amount
        } else {
            0
        },
{
    let e = Seq::<(i32, int, int)>::empty();
    assert(debit_total(e) == 0 && credit_total(e) == 0 && account_effect(e, m) == 0);
    if amount > 0 {
        let l = seq![(n, amount, 0int)];
        assert(l.drop_last() =~= e);
        assert(signed_line(n, amount) == l);
    } else if amount < 0 {
        let l = seq![(n, 0int, -amount)];
        assert(l.drop_last() =~= e);
        assert(signed_line(n, amount) == l);
    }
}

proof fn lemma_income_lines(bs: Seq<AccountBalance>, n: i32)
    ensures
        debit_total(income_lines(bs)) - credit_total(income_lines(bs)) == -income_net(bs),
        account_effect(income_lines(bs), n) == if 3000 <= n < 9000 && n != 8999 && n != 8910 {
            -account_net(bs, n)
        } else {
            0
        },
    decreases bs.len(),
{
    if bs.len() > 0 {
        lemma_income_lines(bs.drop_last(), n);
        let rest = income_lines(bs.drop_last());
        if closes(bs.last()) {
            assert(rest.push(reversal(bs.last())).drop_last() =~= rest);
        }
    }
}

proof fn lemma_pair_totals(x: (i32, int, int), y: (i32, int, int), n: i32)
    ensures
        debit_total(seq![x, y]) == x.1 + y.1,
        credit_total(seq![x, y]) == x.2 + y.2,
        account_effect(seq![x, y], n) == (if x.0 == n {
            x.1 - x.2
        } else {
            0
        }) + (if y.0 == n {
            y.1 - y.2
        } else {
            0
        }),
{
    lemma_one_line(x, n);
    let l = seq![x, y];
    assert(l.drop_last() =~= seq![x]);
}

proof fn lemma_one_line(x: (i32, int, int), n: i32)
    ensures
        debit_total(seq![x]) == x.1,
        credit_total(seq![x]) == x.2,
        account_effect(seq![x], n) == if x.0 == n {
            x.1 - x.2
        } else {
            0
        },
{
    let e = Seq::<(i32, int, int)>::empty();
    assert(debit_total(e) == 0 && credit_total(e) == 0 && account_effect(e, n) == 0);
    assert(seq![x].drop_last() =~= e);
}

proof fn lemma_result_voucher(bs: Seq<AccountBalance>, n: i32)
    ensures
        debit_total(result_voucher(bs).1) == credit_total(result_voucher(bs).1),
        account_effect(result_voucher(bs).1, n) == (if 3000 <= n < 9000 && n != 8999 && n != 8910 {
            -account_net(bs, n)
        } else {
            0
        }) + (if n == 8999 {
            income_net(bs)
        } else {
            0
        }),
{
    let ls = income_lines(bs);
    lemma_income_lines(bs, n);
    lemma_totals_append(ls, signed_line(8999, income_net(bs)), n);
    lemma_signed_line(8999, income_net(bs), n);
}

proof fn lemma_tax_voucher(t: int, n: i32)
    ensures
        debit_total(tax_voucher(t).1) == credit_total(tax_voucher(t).1),
        account_effect(tax_voucher(t).1, n) == (if n == 8910 {
            t
        } else {
            0
        }) + (if n == 2510 {
            -t
        } else {
            0
        }),
{
    lemma_pair_totals((8910i32, t, 0int), (2510i32, 0int, t), n);
}

proof fn lemma_transfer_voucher(profit: int, t: int, n: i32)
    ensures
        debit_total(transfer_voucher(profit, t).1) == credit_total(transfer_voucher(profit, t).1),
        account_effect(transfer_voucher(profit, t).1, n) == (if n == 8910 {
            -t
        } else {
            0
        }) + (if n == 8999 {
            profit
        } else {
            0
        }) + (if n == 2099 {
            -(profit - t)
        } else {
            0
        }),
{
    let closing_tax: Seq<(i32, int, int)> = if t != 0 {
        seq![(8910i32, 0int, t)]
    } else {
        Seq::empty()
    };
    if t != 0 {
        lemma_one_line((8910i32, 0int, t), n);
    }
    lemma_totals_append(closing_tax, signed_line(8999, profit), n);
    lemma_totals_append(closing_tax + signed_line(8999, profit), signed_line(2099, -(profit - t)), n);
    lemma_signed_line(8999, profit, n);
    lemma_signed_line(2099, -(profit - t), n);
}

/// Every closing voucher balances: its debits sum to its credits.
pub proof fn lemma_closing_vouchers_balance(bs: Seq<AccountBalance>, tax: Option<int>)
    ensures
        forall|k: int|
            0 <= k < closing_vouchers(bs, tax).len() ==> debit_total(
                (#[trigger] closing_vouchers(bs, tax)[k]).1,
            ) == credit_total(closing_vouchers(bs, tax)[k].1),
{
    let profit = -income_net(bs);
    let t = chosen_tax(bs, tax);
    lemma_result_voucher(bs, 0);
    lemma_tax_voucher(t, 0);
    lemma_transfer_voucher(profit, t, 0);
    let vs = closing_vouchers(bs, tax);
    assert forall|k: int| 0 <= k < vs.len() implies debit_total((#[trigger] vs[k]).1) == credit_total(
        vs[k].1,
    ) by {
        assert(vs[k] == result_voucher(bs) || vs[k] == tax_voucher(t) || vs[k] == transfer_voucher(
            profit,
            t,
        ));
    }
}

proof fn lemma_all_lines_append(
    a: Seq<(Seq<char>, Seq<(i32, int, int)>, int)>,
    b: Seq<(Seq<char>, Seq<(i32, int, int)>, int)>,
)
    ensures
        all_lines(a + b) == all_lines(a) + all_lines(b),
    decreases b.len(),
{
    if b.len() > 0 {
        assert((a + b).drop_last() =~= a + b.drop_last());
        lemma_all_lines_append(a, b.drop_last());
        assert(all_lines(a + b) =~= all_lines(a) + all_lines(b));
    } else {
        assert(a + b =~= a);
        assert(all_lines(a) + all_lines(b) =~= all_lines(a));
    }
}

proof fn lemma_all_lines_one(v: (Seq<char>, Seq<(i32, int, int)>, int))
    ensures
        all_lines(seq![v]) == v.1,
{
    let e = Seq::<(Seq<char>, Seq<(i32, int, int)>, int)>::empty();
    assert(all_lines(e) == Seq::<(i32, int, int)>::empty());
    assert(seq![v].drop_last() =~= e);
    assert(Seq::<(i32, int, int)>::empty() + v.1 =~= v.1);
}

/// After the closing entries every account of the income statement
/// (classes 3-8) has a zero balance, provided that 8910 Skatt and 8999 Årets
/// resultat had none before; and 2099 Årets resultat takes up the result
/// after tax (a credit for a profit).
pub proof fn lemma_closing_zeroes_income_statement(bs: Seq<AccountBalance>, tax: Option<int>, n: i32)
    requires
        account_net(bs, 8910) == 0,
        account_net(bs, 8999) == 0,
    ensures
        3000 <= n < 9000 ==> account_net(bs, n) + account_effect(all_lines(closing_vouchers(bs, tax)), n)
            == 0,
        account_effect(all_lines(closing_vouchers(bs, tax)), 2099) == -(-income_net(bs) - chosen_tax(bs, tax)),
{
    let profit = -income_net(bs);
    let t = chosen_tax(bs, tax);
    let ls = income_lines(bs);
    let e = Seq::<(Seq<char>, Seq<(i32, int, int)>, int)>::empty();
    let v1 = if ls.len() > 0 {
        seq![result_voucher(bs)]
    } else {
        e
    };
    let v2 = if t != 0 {
        seq![tax_voucher(t)]
    } else {
        e
    };
    let v3 = seq![transfer_voucher(profit, t)];
    let vs = closing_vouchers(bs, tax);
    assert(vs == v1 + v2 + v3);
    lemma_all_lines_append(v1 + v2, v3);
    lemma_all_lines_append(v1, v2);
    lemma_all_lines_one(result_voucher(bs));
    lemma_all_lines_one(tax_voucher(t));
    lemma_all_lines_one(transfer_voucher(profit, t));
    let l1 = all_lines(v1);
    let l2 = all_lines(v2);
    let l3 = transfer_voucher(profit, t).1;
    assert(all_lines(vs) == l1 + l2 + l3);
    lemma_totals_append(l1, l2, n);
    lemma_totals_append(l1 + l2, l3, n);
    lemma_totals_append(l1, l2, 2099);
    lemma_totals_append(l1 + l2, l3, 2099);
    lemma_result_voucher(bs, n);
    lemma_result_voucher(bs, 2099);
    lemma_tax_voucher(t, n);
    lemma_tax_voucher(t, 2099);
    lemma_transfer_voucher(profit, t, n);
    lemma_transfer_voucher(profit, t, 2099);
    if ls.len() == 0 {
        lemma_no_income_lines(bs, n);
        assert(all_lines(e) == Seq::<(i32, int, int)>::empty());
    }
    if t == 0 {
        assert(all_lines(e) == Seq::<(i32, int, int)>::empty());
    }
}

proof fn lemma_no_income_lines(bs: Seq<AccountBalance>, n: i32)
    requires
        income_lines(bs).len() == 0,
    ensures
        income_net(bs) == 0,
        3000 <= n < 9000 && n != 8999 && n != 8910 ==> account_net(bs, n) == 0,
    decreases bs.len(),
{
    if bs.len() > 0 {
        let rest = income_lines(bs.drop_last());
        if closes(bs.last()) {
            assert(rest.push(reversal(bs.last())).len() > 0);
        }
        lemma_no_income_lines(bs.drop_last(), n);
    }
}

/// The fiscal year after one that ends on `end`: it starts the day after and
/// ends on the same month and day one year later, or on the last day of that
/// month when the day does not exist then (29 February).
pub open spec fn next_fiscal_year_spec(end: Date) -> (Date, Date) {
    let start = next_day(end);
    let y = end.year + 1;
    match date_from_ymd(y, end.month as int, end.day as int) {
        Some(e) => (start, e),
        None => (start, Date { year: y as i32, month: end.month, day: days_in_month(y, end.month as int) as u32 }),
    }
}

/// Whether the next fiscal year after `end` exists within the calendar.
pub open spec fn has_next_fiscal_year(end: Date) -> bool {
    &&& end.wf()
    &&& end.year < 262142
}

/// The start and end dates of the fiscal year after one that ends on `end`.
pub fn next_fiscal_year(end: Date) -> (r: (Date, Date))
    requires
        has_next_fiscal_year(end),
    ensures
        r == next_fiscal_year_spec(end),
        r.0.wf(),
        r.1.wf(),
        end.before(r.0),
        r.0.before(r.1),
{
    let start = following_day(end);
    let y: i32 = end.year + 1;
    match from_ymd(y, end.month, end.day) {
        Some(e) => (start, e),
        None => (start, Date { year: y, month: end.month, day: month_length(y, end.month) }),
    }
}

/// The lines of the opening balance voucher: each account's balance brought
/// in as a debit when positive, as a credit when negative.
pub open spec fn opening_lines_of(bs: Seq<AccountBalance>) -> Seq<(i32, int, int)>
    decreases bs.len(),
{
    if bs.len() == 0 {
        Seq::empty()
    } else {
        opening_lines_of(bs.drop_last()) + signed_line(bs.last().account_number, net_of(bs.last()))
    }
}

/// The opening balance lines for the next fiscal year from the final balances.
pub fn opening_balance_lines(balances: &[AccountBalance]) -> (r: Vec<ClosingLine>)
    requires
        forall|i: int| 0 <= i < balances@.len() ==> within(#[trigger] net_of(balances@[i])),
    ensures
        line_views(r@) == opening_lines_of(balances@),
{
    let ghost bs = balances@;
    let mut lines: Vec<ClosingLine> = Vec::new();
    assert(line_views(lines@) =~= opening_lines_of(bs.take(0)));
    let mut i: usize = 0;
    while i < balances.len()
        invariant
            i <= bs.len(),
            bs == balances@,
            forall|k: int| 0 <= k < bs.len() ==> within(#[trigger] net_of(bs[k])),
            line_views(lines@) == opening_lines_of(bs.take(i as int)),
        decreases balances.len() - i,
    {
        let b = balances[i];
        assert(bs.take(i + 1).drop_last() =~= bs.take(i as int));
        assert(within(net_of(bs[i as int])));
        let net = b.total_debit.sub(b.total_credit);
        let ghost before = line_views(lines@);
        if net.is_positive() {
            lines.push(ClosingLine { account_number: b.account_number, debit: net, credit: Money::zero() });
        } else if net.is_negative() {
            lines.push(ClosingLine { account_number: b.account_number, debit: Money::zero(), credit: net.neg() });
        }
        assert(line_views(lines@) =~= before + signed_line(b.account_number, net@));
        i += 1;
    }
    assert(bs.take(bs.len() as int) =~= bs);
    lines
}

/// The opening balances carry each account's final balance into the next
/// fiscal year unchanged.
pub proof fn lemma_opening_lines_carry_balances(bs: Seq<AccountBalance>, n: i32)
    ensures
        account_effect(opening_lines_of(bs), n) == account_net(bs, n),
        debit_total(opening_lines_of(bs)) - credit_total(opening_lines_of(bs)) == total_net(bs),
    decreases bs.len(),
{
    if bs.len() > 0 {
        let b = bs.last();
        lemma_opening_lines_carry_balances(bs.drop_last(), n);
        lemma_totals_append(opening_lines_of(bs.drop_last()), signed_line(b.account_number, net_of(b)), n);
        lemma_signed_line(b.account_number, net_of(b), n);
    }
}

/// The summed debit-side balance of all the balances.
pub open spec fn total_net(bs: Seq<AccountBalance>) -> int
    decreases bs.len(),
{
    if bs.len() == 0 {
        0
    } else {
        total_net(bs.drop_last()) + net_of(bs.last())
    }
}

/// The text of the audit log entry of a closing.
pub open spec fn closing_log_text(voucher_count: int, tax: int) -> Seq<char> {
    "Closed with "@ + int_text(voucher_count) + " closing vouchers, tax: "@ + money_text(tax)
}

/// The audit log entry of a closing that booked `voucher_count` vouchers and `tax`.
pub fn closing_log_message(voucher_count: usize, tax: Money) -> (s: String)
    requires
        voucher_count <= i64::MAX,
    ensures
        s@ == closing_log_text(voucher_count as int, tax@),
{
    let mut s = String::new();
    push_str(&mut s, "Closed with ");
    push_int(&mut s, voucher_count as i64);
    push_str(&mut s, " closing vouchers, tax: ");
    tax.push_text(&mut s);
    assert(s@ =~= closing_log_text(voucher_count as int, tax@));
    s
}

} // verus!
