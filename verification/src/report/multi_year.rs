//! Flerårsöversikt (multi-year overview) per K2: key figures of each fiscal
//! year. Required for companies with more than ten employees on average.
use vstd::prelude::*;
use crate::ledger::{credit_side, debit_side, within, AccountBalance, credit_total, debit_total};
use crate::money::{
    decimal_div, decimal_mul, decimal_product, decimal_quotient, decimal_round_dp, decimal_text,
    lemma_pow10_pos, pow10, push_decimal, room, round_dp, DecimalNumber, Money,
};
use crate::text::{push_str, to_string};

verus! {

/// The overview: one summary per fiscal year, in order.
#[derive(Debug, Clone)]
pub struct MultiYearOverview {
    pub years: Vec<YearSummary>,
}

/// The key figures of one fiscal year.
#[derive(Debug, Clone)]
pub struct YearSummary {
    pub fiscal_year: String,
    pub net_revenue: Money,
    pub operating_result: Money,
    pub result_after_financial: Money,
    pub total_assets: Money,
    /// Equity as a percentage of total assets, e.g. "42.5%" ("N/A" without assets).
    pub equity_ratio: String,
}

/// What the books give for one fiscal year: its dates, whether it is closed,
/// the balances of its ordinary vouchers, and the balances of all its
/// vouchers (closing entries included).
#[derive(Debug, Clone)]
pub struct YearBalances {
    pub start_date: String,
    pub end_date: String,
    pub is_closed: bool,
    pub ordinary: Vec<AccountBalance>,
    pub all: Vec<AccountBalance>,
}

/// Net revenue: the credit balance of accounts 3000–3099.
pub open spec fn net_revenue_of(ops: Seq<AccountBalance>) -> int {
    credit_side(ops, 3000, 3099)
}

/// Operating result: net revenue less the debit balance of 4000–7999.
pub open spec fn operating_result_of(ops: Seq<AccountBalance>) -> int {
    net_revenue_of(ops) - debit_side(ops, 4000, 7999)
}

/// Result after financial items: the operating result plus financial income
/// (credit balance of 8300–8399) less financial costs (debit balance of 8400–8499).
pub open spec fn after_financial_of(ops: Seq<AccountBalance>) -> int {
    operating_result_of(ops) + credit_side(ops, 8300, 8399) - debit_side(ops, 8400, 8499)
}

/// Total assets: the debit balance of accounts 1000–1999.
pub open spec fn total_assets_of(all: Seq<AccountBalance>) -> int {
    debit_side(all, 1000, 1999)
}

/// Equity: the credit balance of accounts 2010–2099.
pub open spec fn total_equity_of(all: Seq<AccountBalance>) -> int {
    credit_side(all, 2010, 2099)
}

/// Every figure, and every sum on the way to one, can be held as an amount.
pub open spec fn year_fits(ops: Seq<AccountBalance>, all: Seq<AccountBalance>) -> bool {
    &&& within(net_revenue_of(ops))
    &&& within(debit_side(ops, 4000, 7999))
    &&& within(operating_result_of(ops))
    &&& within(credit_side(ops, 8300, 8399))
    &&& within(debit_side(ops, 8400, 8499))
    &&& within(operating_result_of(ops) + credit_side(ops, 8300, 8399))
    &&& within(after_financial_of(ops))
    &&& within(total_assets_of(all))
    &&& within(total_equity_of(all))
}

/// An amount in öre as a decimal with two places (`Money::inner`).
pub open spec fn ore_decimal(ore: int) -> DecimalNumber {
    DecimalNumber {
        negative: ore < 0,
        mantissa: (if ore < 0 {
            -ore
        } else {
            ore
        }) as u128,
        scale: 2,
    }
}

/// The decimal 100 (`Decimal::ONE_HUNDRED`).
pub open spec fn hundred() -> DecimalNumber {
    DecimalNumber { negative: false, mantissa: 100, scale: 0 }
}

/// The equity ratio: equity divided by total assets, times 100, rounded to
/// one decimal and followed by "%"; "N/A" where there are no assets.
pub open spec fn equity_ratio_text(equity: int, assets: int) -> Seq<char> {
    if assets > 0 {
        decimal_text(
            decimal_round_dp(decimal_product(decimal_quotient(ore_decimal(equity), ore_decimal(assets)), hundred()), 1),
        ) + "%"@
    } else {
        "N/A"@
    }
}

/// The label of a fiscal year: "<start> — <end>".
pub open spec fn year_label(start: Seq<char>, end: Seq<char>) -> Seq<char> {
    start + " — "@ + end
}

/// The equity ratio text of an equity and a total of assets.
pub fn equity_ratio(equity: Money, assets: Money) -> (s: String)
    ensures
        s@ == equity_ratio_text(equity@, assets@),
{
    if assets.is_positive() {
        proof {
            equity.lemma_range();
            assets.lemma_range();
        }
        let e = as_decimal(equity);
        let a = as_decimal(assets);
        assert(e == ore_decimal(equity@));
        assert(a == ore_decimal(assets@));
        proof {
            reveal_with_fuel(pow10, 3);
            assert(e.mantissa < 0x8000_0000_0000_0001);
            assert(a.mantissa >= 1);
            assert(e.mantissa * 100 < room() * a.mantissa * 100) by (nonlinear_arith)
                requires
                    e.mantissa < 0x8000_0000_0000_0001,
                    a.mantissa >= 1,
            ;
        }
        let q = decimal_div(e, a);
        let h = DecimalNumber { negative: false, mantissa: 100, scale: 0 };
        proof {
            reveal_with_fuel(pow10, 3);
            lemma_pow10_pos(q.scale as nat);
            let pq = pow10(q.scale as nat);
            // |q| is at most |e / a| + 1 <= 2^63 + 1, so |q * 100| stays far below 2^95.
            assert(q.mantissa * a.mantissa * 100 <= (e.mantissa * 100 + a.mantissa * 100) * pq);
            assert(q.mantissa * 100 < room() * pq) by (nonlinear_arith)
                requires
                    q.mantissa * a.mantissa * 100 <= (e.mantissa * 100 + a.mantissa * 100) * pq,
                    e.mantissa < 0x8000_0000_0000_0001,
                    a.mantissa >= 1,
                    pq >= 1,
            ;
            assert(((q.scale + h.scale) as nat) == q.scale as nat);
        }
        let p = decimal_mul(q, h);
        let r = round_dp(&p, 1);
        let mut s = String::new();
        push_decimal(&mut s, &r);
        push_str(&mut s, "%");
        assert(s@ =~= equity_ratio_text(equity@, assets@));
        s
    } else {
        let s = to_string("N/A");
        assert(s@ =~= equity_ratio_text(equity@, assets@));
        s
    }
}

/// An amount as a decimal with two places.
fn as_decimal(m: Money) -> (d: DecimalNumber)
    ensures
        d == ore_decimal(m@),
        d.wf(),
{
    proof {
        m.lemma_range();
    }
    let ore = m.to_ore();
    let mag: u128 = if ore < 0 {
        (-(ore as i128)) as u128
    } else {
        ore as u128
    };
    DecimalNumber { negative: ore < 0, mantissa: mag, scale: 2 }
}

/// The key figures of one fiscal year from its balances.
pub fn year_summary(year: &YearBalances) -> (y: YearSummary)
    requires
        year_fits(year.ordinary@, year.all@),
    ensures
        y.fiscal_year@ == year_label(year.start_date@, year.end_date@),
        y.net_revenue@ == net_revenue_of(year.ordinary@),
        y.operating_result@ == operating_result_of(year.ordinary@),
        y.result_after_financial@ == after_financial_of(year.ordinary@),
        y.total_assets@ == total_assets_of(year.all@),
        y.equity_ratio@ == equity_ratio_text(total_equity_of(year.all@), total_assets_of(year.all@)),
{
    let ops = year.ordinary.as_slice();
    let all = year.all.as_slice();
    let net_revenue = credit_total(ops, 3000, 3099);
    let total_expenses = debit_total(ops, 4000, 7999);
    let operating_result = net_revenue.sub(total_expenses);
    let financial_income = credit_total(ops, 8300, 8399);
    let financial_costs = debit_total(ops, 8400, 8499);
    let result_after_financial = operating_result.add(financial_income).sub(financial_costs);
    // Total assets from all vouchers (closing entries included)
    let total_assets = debit_total(all, 1000, 1999);
    let total_equity = credit_total(all, 2010, 2099);
    let equity_ratio = equity_ratio(total_equity, total_assets);
    let mut label = to_string(year.start_date.as_str());
    push_str(&mut label, " — ");
    push_str(&mut label, year.end_date.as_str());
    YearSummary {
        fiscal_year: label,
        net_revenue,
        operating_result,
        result_after_financial,
        total_assets,
        equity_ratio,
    }
}

/// The closed fiscal years among `years`, in their order.
pub open spec fn closed_years(years: Seq<YearBalances>) -> Seq<YearBalances> {
    years.filter(|b: YearBalances| b.is_closed)
}

/// Whether a summary gives the key figures of a year's balances.
pub open spec fn summarises(y: YearSummary, b: YearBalances) -> bool {
    &&& y.fiscal_year@ == year_label(b.start_date@, b.end_date@)
    &&& y.net_revenue@ == net_revenue_of(b.ordinary@)
    &&& y.operating_result@ == operating_result_of(b.ordinary@)
    &&& y.result_after_financial@ == after_financial_of(b.ordinary@)
    &&& y.total_assets@ == total_assets_of(b.all@)
    &&& y.equity_ratio@ == equity_ratio_text(total_equity_of(b.all@), total_assets_of(b.all@))
}

/// The overview of the closed fiscal years among `years`: one summary per
/// closed year, in the order given; open years are left out.
pub fn multi_year_overview(years: &[YearBalances]) -> (o: MultiYearOverview)
    requires
        forall|i: int| 0 <= i < years@.len() ==> year_fits(#[trigger] years@[i].ordinary@, years@[i].all@),
    ensures
        o.years@.len() == closed_years(years@).len(),
        forall|i: int| 0 <= i < o.years@.len() ==> summarises(#[trigger] o.years@[i], closed_years(years@)[i]),
{
    let mut out: Vec<YearSummary> = Vec::new();
    let mut i: usize = 0;
    while i < years.len()
        invariant
            i <= years@.len(),
            out@.len() == closed_years(years@.take(i as int)).len(),
            forall|k: int| 0 <= k < years@.len() ==> year_fits(#[trigger] years@[k].ordinary@, years@[k].all@),
            forall|k: int|
                0 <= k < out@.len() ==> summarises(#[trigger] out@[k], closed_years(years@.take(i as int))[k]),
        decreases years.len() - i,
    {
        let ghost pre = years@.take(i as int);
        assert(years@.take(i + 1) =~= pre.push(years@[i as int]));
        proof {
            pre.lemma_filter_push(years@[i as int], |b: YearBalances| b.is_closed);
        }
        if years[i].is_closed {
            let y = year_summary(&years[i]);
            out.push(y);
        }
        i += 1;
    }
    assert(years@.take(years@.len() as int) =~= years@);
    MultiYearOverview { years: out }
}

} // verus!
