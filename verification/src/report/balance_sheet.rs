//! K2 Balansräkning per BFNAR 2016:10, chapter 4.
use vstd::prelude::*;
use crate::ledger::{credit_side, credit_total, debit_side, debit_total, lemma_range_split, range_net, within, AccountBalance};
use crate::money::Money;
use crate::text::to_string;

verus! {

/// The balance sheet of a year, and of the year before when there is one.
#[derive(Debug, Clone)]
pub struct BalanceSheet {
    pub current: BalanceSheetData,
    pub previous: Option<BalanceSheetData>,
}

#[derive(Debug, Clone)]
pub struct BalanceSheetData {
    pub fiscal_year: String,
    // TILLGÅNGAR (Assets)
    pub assets: Assets,
    // EGET KAPITAL OCH SKULDER (Equity and liabilities)
    pub equity_and_liabilities: EquityAndLiabilities,
    pub total_assets: Money,
    pub total_equity_and_liabilities: Money,
}

#[derive(Debug, Clone)]
pub struct Assets {
    // Anläggningstillgångar (Fixed assets)
    pub intangible_assets: Money,  // 10xx
    pub tangible_assets: Money,  // 11xx-12xx
    pub financial_fixed_assets: Money,  // 13xx
    pub total_fixed_assets: Money,
    // Omsättningstillgångar (Current assets)
    pub inventory: Money,  // 14xx
    pub current_receivables: Money,  // 15xx-17xx
    pub short_term_investments: Money,  // 18xx
    pub cash_and_bank: Money,  // 19xx
    pub total_current_assets: Money,
}

#[derive(Debug, Clone)]
pub struct EquityAndLiabilities {
    // Eget kapital (Equity)
    pub restricted_equity: Money,  // 2000-2039 (aktiekapital, reservfond)
    pub unrestricted_equity: Money,  // 2040-2099 (balanserat resultat, årets resultat)
    pub total_equity: Money,
    // Obeskattade reserver (Untaxed reserves)
    pub untaxed_reserves: Money,  // 21xx
    // Avsättningar (Provisions)
    pub provisions: Money,  // 22xx
    // Långfristiga skulder (Long-term liabilities)
    pub long_term_liabilities: Money,  // 23xx
    // Kortfristiga skulder (Current liabilities)
    pub current_liabilities: Money,  // 24xx-29xx
    pub total_liabilities: Money,
}

/// The figures of a balance sheet, in öre, in the order of the form.
pub struct BalanceFigures {
    pub intangible_assets: int,
    pub tangible_assets: int,
    pub financial_fixed_assets: int,
    pub total_fixed_assets: int,
    pub inventory: int,
    pub current_receivables: int,
    pub short_term_investments: int,
    pub cash_and_bank: int,
    pub total_current_assets: int,
    pub total_assets: int,
    pub restricted_equity: int,
    pub unrestricted_equity: int,
    pub total_equity: int,
    pub untaxed_reserves: int,
    pub provisions: int,
    pub long_term_liabilities: int,
    pub current_liabilities: int,
    pub total_liabilities: int,
    pub total_equity_and_liabilities: int,
}

/// The balance sheet of some balances: each item the balance of its range
/// of accounts (every account of classes 1 and 2 falls in one), each total
/// the sum of its items.
pub open spec fn balance_figures(bs: Seq<AccountBalance>) -> BalanceFigures {
    let intangible = debit_side(bs, 1000, 1099);
    let tangible = debit_side(bs, 1100, 1299);
    let financial = debit_side(bs, 1300, 1399);
    let fixed = intangible + tangible + financial;
    let inventory = debit_side(bs, 1400, 1499);
    let receivables = debit_side(bs, 1500, 1799);
    let investments = debit_side(bs, 1800, 1899);
    let cash = debit_side(bs, 1900, 1999);
    let current = inventory + receivables + investments + cash;
    let restricted = credit_side(bs, 2000, 2039);
    let unrestricted = credit_side(bs, 2040, 2099);
    let equity = restricted + unrestricted;
    let untaxed = credit_side(bs, 2100, 2199);
    let provisions = credit_side(bs, 2200, 2299);
    let long_term = credit_side(bs, 2300, 2399);
    let current_liab = credit_side(bs, 2400, 2999);
    let liabilities = long_term + current_liab;
    BalanceFigures {
        intangible_assets: intangible,
        tangible_assets: tangible,
        financial_fixed_assets: financial,
        total_fixed_assets: fixed,
        inventory,
        current_receivables: receivables,
        short_term_investments: investments,
        cash_and_bank: cash,
        total_current_assets: current,
        total_assets: fixed + current,
        restricted_equity: restricted,
        unrestricted_equity: unrestricted,
        total_equity: equity,
        untaxed_reserves: untaxed,
        provisions,
        long_term_liabilities: long_term,
        current_liabilities: current_liab,
        total_liabilities: liabilities,
        total_equity_and_liabilities: equity + untaxed + provisions + liabilities,
    }
}

impl View for BalanceSheetData {
    type V = (Seq<char>, BalanceFigures);

    open spec fn view(&self) -> (Seq<char>, BalanceFigures) {
        (
            self.fiscal_year@,
            BalanceFigures {
                intangible_assets: self.assets.intangible_assets@,
                tangible_assets: self.assets.tangible_assets@,
                financial_fixed_assets: self.assets.financial_fixed_assets@,
                total_fixed_assets: self.assets.total_fixed_assets@,
                inventory: self.assets.inventory@,
                current_receivables: self.assets.current_receivables@,
                short_term_investments: self.assets.short_term_investments@,
                cash_and_bank: self.assets.cash_and_bank@,
                total_current_assets: self.assets.total_current_assets@,
                total_assets: self.total_assets@,
                restricted_equity: self.equity_and_liabilities.restricted_equity@,
                unrestricted_equity: self.equity_and_liabilities.unrestricted_equity@,
                total_equity: self.equity_and_liabilities.total_equity@,
                untaxed_reserves: self.equity_and_liabilities.untaxed_reserves@,
                provisions: self.equity_and_liabilities.provisions@,
                long_term_liabilities: self.equity_and_liabilities.long_term_liabilities@,
                current_liabilities: self.equity_and_liabilities.current_liabilities@,
                total_liabilities: self.equity_and_liabilities.total_liabilities@,
                total_equity_and_liabilities: self.total_equity_and_liabilities@,
            },
        )
    }
}

/// Every item, and every sum on the way to a total, can be held as an amount.
pub open spec fn balance_fits(bs: Seq<AccountBalance>) -> bool {
    let f = balance_figures(bs);
    &&& within(f.intangible_assets)
    &&& within(f.tangible_assets)
    &&& within(f.financial_fixed_assets)
    &&& within(f.intangible_assets + f.tangible_assets)
    &&& within(f.total_fixed_assets)
    &&& within(f.inventory)
    &&& within(f.current_receivables)
    &&& within(f.short_term_investments)
    &&& within(f.cash_and_bank)
    &&& within(f.inventory + f.current_receivables)
    &&& within(f.inventory + f.current_receivables + f.short_term_investments)
    &&& within(f.total_current_assets)
    &&& within(f.total_assets)
    &&& within(f.restricted_equity)
    &&& within(f.unrestricted_equity)
    &&& within(f.total_equity)
    &&& within(f.untaxed_reserves)
    &&& within(f.provisions)
    &&& within(f.long_term_liabilities)
    &&& within(f.current_liabilities)
    &&& within(f.total_liabilities)
    &&& within(f.total_equity + f.untaxed_reserves)
    &&& within(f.total_equity + f.untaxed_reserves + f.provisions)
    &&& within(f.total_equity_and_liabilities)
}

/// The balance sheet at the end of a fiscal year (`end_date`) from the
/// balance of each account.
pub fn balance_sheet_data(end_date: &str, balances: &[AccountBalance]) -> (d: BalanceSheetData)
    requires
        balance_fits(balances@),
    ensures
        d@ == (end_date@, balance_figures(balances@)),
{
    // Assets
    let intangible_assets = debit_total(balances, 1000, 1099);
    let tangible_assets = debit_total(balances, 1100, 1299);
    let financial_fixed_assets = debit_total(balances, 1300, 1399);
    let total_fixed_assets = intangible_assets.add(tangible_assets).add(financial_fixed_assets);
    let inventory = debit_total(balances, 1400, 1499);
    let current_receivables = debit_total(balances, 1500, 1799);
    let short_term_investments = debit_total(balances, 1800, 1899);
    let cash_and_bank = debit_total(balances, 1900, 1999);
    let total_current_assets = inventory.add(current_receivables).add(short_term_investments).add(
        cash_and_bank,
    );
    let total_assets = total_fixed_assets.add(total_current_assets);
    // Equity
    let restricted_equity = credit_total(balances, 2000, 2039);
    let unrestricted_equity = credit_total(balances, 2040, 2099);
    let total_equity = restricted_equity.add(unrestricted_equity);
    let untaxed_reserves = credit_total(balances, 2100, 2199);
    let provisions = credit_total(balances, 2200, 2299);
    let long_term_liabilities = credit_total(balances, 2300, 2399);
    let current_liabilities = credit_total(balances, 2400, 2999);
    let total_liabilities = long_term_liabilities.add(current_liabilities);
    let total_equity_and_liabilities = total_equity.add(untaxed_reserves).add(provisions).add(
        total_liabilities,
    );
    BalanceSheetData {
        fiscal_year: to_string(end_date),
        assets: Assets {
            intangible_assets,
            tangible_assets,
            financial_fixed_assets,
            total_fixed_assets,
            inventory,
            current_receivables,
            short_term_investments,
            cash_and_bank,
            total_current_assets,
        },
        equity_and_liabilities: EquityAndLiabilities {
            restricted_equity,
            unrestricted_equity,
            total_equity,
            untaxed_reserves,
            provisions,
            long_term_liabilities,
            current_liabilities,
            total_liabilities,
        },
        total_assets,
        total_equity_and_liabilities,
    }
}

/// The balance sheet balances exactly when classes 1 and 2 together net to
/// zero (as they do once every voucher balances and the accounts of classes
/// 3-8 are closed): total assets less equity and liabilities is the debit
/// balance of 1000-2999.
pub proof fn lemma_balance_sheet_difference(bs: Seq<AccountBalance>)
    ensures
        balance_figures(bs).total_assets - balance_figures(bs).total_equity_and_liabilities == debit_side(
            bs,
            1000,
            2999,
        ),
{
    lemma_range_split(bs, 1000, 1100, 3000);
    lemma_range_split(bs, 1100, 1300, 3000);
    lemma_range_split(bs, 1300, 1400, 3000);
    lemma_range_split(bs, 1400, 1500, 3000);
    lemma_range_split(bs, 1500, 1800, 3000);
    lemma_range_split(bs, 1800, 1900, 3000);
    lemma_range_split(bs, 1900, 2000, 3000);
    lemma_range_split(bs, 2000, 2040, 3000);
    lemma_range_split(bs, 2040, 2100, 3000);
    lemma_range_split(bs, 2100, 2200, 3000);
    lemma_range_split(bs, 2200, 2300, 3000);
    lemma_range_split(bs, 2300, 2400, 3000);
}

} // verus!
