//! K2 Resultaträkning, classified by nature of expense (kostnadsslagsindelad),
//! per BFNAR 2016:10, chapter 4.
use vstd::prelude::*;
use crate::ledger::{credit_side, credit_total, debit_side, debit_total, lemma_range_split, within, AccountBalance};
use crate::money::Money;
use crate::text::{push_str, to_string};

verus! {

/// The income statement of a year, and of the year before when there is one.
#[derive(Debug, Clone)]
pub struct IncomeStatement {
    /// Current year amounts
    pub current: IncomeStatementData,
    /// Previous year amounts (comparative figures, required by K2)
    pub previous: Option<IncomeStatementData>,
}

#[derive(Debug, Clone)]
pub struct IncomeStatementData {
    pub fiscal_year: String,
    /// 1. Nettoomsättning
    pub net_revenue: Money,
    /// 2. Förändring av lager
    pub inventory_change: Money,
    /// 3. Aktiverat arbete för egen räkning
    pub capitalized_work: Money,
    /// 4. Övriga rörelseintäkter
    pub other_operating_income: Money,
    /// 5. Råvaror och förnödenheter
    pub raw_materials: Money,
    /// 6. Handelsvaror
    pub goods_for_resale: Money,
    /// 7. Övriga externa kostnader
    pub other_external_costs: Money,
    /// 8. Personalkostnader
    pub personnel_costs: Money,
    /// 9. Av- och nedskrivningar
    pub depreciation: Money,
    /// 10. Övriga rörelsekostnader
    pub other_operating_costs: Money,
    /// Rörelseresultat
    pub operating_result: Money,
    /// 11. Finansiella intäkter
    pub financial_income: Money,
    /// 12. Finansiella kostnader
    pub financial_costs: Money,
    /// Resultat efter finansiella poster
    pub result_after_financial: Money,
    /// 13. Bokslutsdispositioner
    pub appropriations: Money,
    /// Resultat före skatt
    pub result_before_tax: Money,
    /// 14. Skatt på årets resultat
    pub tax: Money,
    /// Årets resultat
    pub net_result: Money,
}

/// The figures of an income statement, in öre, in the order of the form.
pub struct IncomeFigures {
    pub net_revenue: int,
    pub inventory_change: int,
    pub capitalized_work: int,
    pub other_operating_income: int,
    pub raw_materials: int,
    pub goods_for_resale: int,
    pub other_external_costs: int,
    pub personnel_costs: int,
    pub depreciation: int,
    pub other_operating_costs: int,
    pub operating_result: int,
    pub financial_income: int,
    pub financial_costs: int,
    pub result_after_financial: int,
    pub appropriations: int,
    pub result_before_tax: int,
    pub tax: int,
    pub net_result: int,
}

/// The income statement of some balances: income items are credit balances
/// and cost items debit balances of their ranges of accounts. The
/// appropriations are the credit balance of 88xx, and the tax is the debit
/// balance of 8900-8949.
pub open spec fn income_figures(bs: Seq<AccountBalance>) -> IncomeFigures {
    let revenue = credit_side(bs, 3000, 3099);
    let inventory = credit_side(bs, 3100, 3199) + credit_side(bs, 4900, 4999);
    let capitalized = credit_side(bs, 3800, 3899);
    let other_income = credit_side(bs, 3200, 3799) + credit_side(bs, 3900, 3999);
    let income = revenue + inventory + capitalized + other_income;
    let raw = debit_side(bs, 4000, 4099);
    let goods = debit_side(bs, 4100, 4899);
    let external = debit_side(bs, 5000, 6999);
    let personnel = debit_side(bs, 7000, 7699);
    let depreciation = debit_side(bs, 7700, 7899);
    let other_costs = debit_side(bs, 7900, 7999);
    let costs = raw + goods + external + personnel + depreciation + other_costs;
    let operating = income - costs;
    let fin_income = credit_side(bs, 8300, 8399);
    let fin_costs = debit_side(bs, 8400, 8499);
    let after_financial = operating + fin_income - fin_costs;
    let appropriations = credit_side(bs, 8800, 8899);
    let before_tax = after_financial + appropriations;
    let tax = debit_side(bs, 8900, 8949);
    IncomeFigures {
        net_revenue: revenue,
        inventory_change: inventory,
        capitalized_work: capitalized,
        other_operating_income: other_income,
        raw_materials: raw,
        goods_for_resale: goods,
        other_external_costs: external,
        personnel_costs: personnel,
        depreciation,
        other_operating_costs: other_costs,
        operating_result: operating,
        financial_income: fin_income,
        financial_costs: fin_costs,
        result_after_financial: after_financial,
        appropriations,
        result_before_tax: before_tax,
        tax,
        net_result: before_tax - tax,
    }
}

impl View for IncomeStatementData {
    type V = (Seq<char>, IncomeFigures);

    open spec fn view(&self) -> (Seq<char>, IncomeFigures) {
        (
            self.fiscal_year@,
            IncomeFigures {
                net_revenue: self.net_revenue@,
                inventory_change: self.inventory_change@,
                capitalized_work: self.capitalized_work@,
                other_operating_income: self.other_operating_income@,
                raw_materials: self.raw_materials@,
                goods_for_resale: self.goods_for_resale@,
                other_external_costs: self.other_external_costs@,
                personnel_costs: self.personnel_costs@,
                depreciation: self.depreciation@,
                other_operating_costs: self.other_operating_costs@,
                operating_result: self.operating_result@,
                financial_income: self.financial_income@,
                financial_costs: self.financial_costs@,
                result_after_financial: self.result_after_financial@,
                appropriations: self.appropriations@,
                result_before_tax: self.result_before_tax@,
                tax: self.tax@,
                net_result: self.net_result@,
            },
        )
    }
}

/// Every item, and every sum on the way to a result, can be held as an amount.
pub open spec fn income_fits(bs: Seq<AccountBalance>) -> bool {
    let f = income_figures(bs);
    &&& within(credit_side(bs, 3100, 3199))
    &&& within(credit_side(bs, 4900, 4999))
    &&& within(credit_side(bs, 3200, 3799))
    &&& within(credit_side(bs, 3900, 3999))
    &&& within(f.net_revenue)
    &&& within(f.inventory_change)
    &&& within(f.capitalized_work)
    &&& within(f.other_operating_income)
    &&& within(f.net_revenue + f.inventory_change)
    &&& within(f.net_revenue + f.inventory_change + f.capitalized_work)
    &&& within(f.net_revenue + f.inventory_change + f.capitalized_work + f.other_operating_income)
    &&& within(f.raw_materials)
    &&& within(f.goods_for_resale)
    &&& within(f.other_external_costs)
    &&& within(f.personnel_costs)
    &&& within(f.depreciation)
    &&& within(f.other_operating_costs)
    &&& within(f.raw_materials + f.goods_for_resale)
    &&& within(f.raw_materials + f.goods_for_resale + f.other_external_costs)
    &&& within(f.raw_materials + f.goods_for_resale + f.other_external_costs + f.personnel_costs)
    &&& within(f.raw_materials + f.goods_for_resale + f.other_external_costs + f.personnel_costs
        + f.depreciation)
    &&& within(f.raw_materials + f.goods_for_resale + f.other_external_costs + f.personnel_costs
        + f.depreciation + f.other_operating_costs)
    &&& within(f.operating_result)
    &&& within(f.financial_income)
    &&& within(f.financial_costs)
    &&& within(f.operating_result + f.financial_income)
    &&& within(f.result_after_financial)
    &&& within(credit_side(bs, 8800, 8899))
    &&& within(f.appropriations)
    &&& within(f.result_before_tax)
    &&& within(f.tax)
    &&& within(f.net_result)
}

/// The label of a fiscal year: "start — end".
pub open spec fn period_label(start: Seq<char>, end: Seq<char>) -> Seq<char> {
    start + " — "@ + end
}

/// The income statement of a fiscal year (`start_date` to `end_date`) from
/// the balance of each account over the entries that are not closing
/// entries (but for 8910).
pub fn income_statement_data(start_date: &str, end_date: &str, balances: &[AccountBalance]) -> (d:
    IncomeStatementData)
    requires
        income_fits(balances@),
    ensures
        d@ == (period_label(start_date@, end_date@), income_figures(balances@)),
{
    let ghost bs = balances@;
    let net_revenue = credit_total(balances, 3000, 3099);
    let inventory_change = credit_total(balances, 3100, 3199).add(credit_total(balances, 4900, 4999));
    let capitalized_work = credit_total(balances, 3800, 3899);
    let other_operating_income = credit_total(balances, 3200, 3799).add(credit_total(balances, 3900, 3999));
    let total_operating_income = net_revenue.add(inventory_change).add(capitalized_work).add(
        other_operating_income,
    );
    let raw_materials = debit_total(balances, 4000, 4099);
    let goods_for_resale = debit_total(balances, 4100, 4899);
    let other_external_costs = debit_total(balances, 5000, 6999);
    let personnel_costs = debit_total(balances, 7000, 7699);
    let depreciation = debit_total(balances, 7700, 7899);
    let other_operating_costs = debit_total(balances, 7900, 7999);
    let total_operating_costs = raw_materials.add(goods_for_resale).add(other_external_costs).add(
        personnel_costs,
    ).add(depreciation).add(other_operating_costs);
    let operating_result = total_operating_income.sub(total_operating_costs);
    let financial_income = credit_total(balances, 8300, 8399);
    let financial_costs = debit_total(balances, 8400, 8499);
    let result_after_financial = operating_result.add(financial_income).sub(financial_costs);
    let appropriations = credit_total(balances, 8800, 8899);
    let result_before_tax = result_after_financial.add(appropriations);
    let tax = debit_total(balances, 8900, 8949);
    let net_result = result_before_tax.sub(tax);
    let mut label = String::new();
    push_str(&mut label, start_date);
    push_str(&mut label, " — ");
    push_str(&mut label, end_date);
    assert(label@ =~= period_label(start_date@, end_date@));
    IncomeStatementData {
        fiscal_year: label,
        net_revenue,
        inventory_change,
        capitalized_work,
        other_operating_income,
        raw_materials,
        goods_for_resale,
        other_external_costs,
        personnel_costs,
        depreciation,
        other_operating_costs,
        operating_result,
        financial_income,
        financial_costs,
        result_after_financial,
        appropriations,
        result_before_tax,
        tax,
        net_result,
    }
}

/// The items of the income statement share out the operating accounts: the
/// cost items together are the debit balance of 4000-4899 and 5000-7999 (the
/// 49xx inventory change counts among the income items), so the operating
/// result is the credit balance of classes 3-7; the financial items and the
/// appropriations then lead to the result before tax, and the tax to the net
/// result.
pub proof fn lemma_income_items_cover_accounts(bs: Seq<AccountBalance>)
    ensures
        income_figures(bs).raw_materials + income_figures(bs).goods_for_resale
            + income_figures(bs).other_external_costs + income_figures(bs).personnel_costs
            + income_figures(bs).depreciation + income_figures(bs).other_operating_costs == debit_side(
            bs,
            4000,
            4899,
        ) + debit_side(bs, 5000, 7999),
        income_figures(bs).net_revenue + income_figures(bs).inventory_change + income_figures(bs).capitalized_work
            + income_figures(bs).other_operating_income == credit_side(bs, 3000, 3999) + credit_side(
            bs,
            4900,
            4999,
        ),
        income_figures(bs).operating_result == credit_side(bs, 3000, 7999),
        income_figures(bs).result_after_financial == credit_side(bs, 3000, 7999) + credit_side(bs, 8300, 8499),
        income_figures(bs).result_before_tax == credit_side(bs, 3000, 7999) + credit_side(bs, 8300, 8499)
            + credit_side(bs, 8800, 8899),
        income_figures(bs).net_result == income_figures(bs).result_before_tax - debit_side(bs, 8900, 8949),
{
    lemma_range_split(bs, 3000, 4000, 8000);
    lemma_range_split(bs, 3000, 3100, 4000);
    lemma_range_split(bs, 3100, 3200, 4000);
    lemma_range_split(bs, 3200, 3800, 4000);
    lemma_range_split(bs, 3800, 3900, 4000);
    lemma_range_split(bs, 4000, 4900, 8000);
    lemma_range_split(bs, 4000, 4100, 4900);
    lemma_range_split(bs, 4900, 5000, 8000);
    lemma_range_split(bs, 5000, 7000, 8000);
    lemma_range_split(bs, 7000, 7700, 8000);
    lemma_range_split(bs, 7700, 7900, 8000);
    lemma_range_split(bs, 8300, 8400, 8500);
}

} // verus!
