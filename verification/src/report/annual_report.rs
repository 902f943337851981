//! The complete K2 annual report (årsredovisning).
use vstd::prelude::*;
use crate::models::company::Company;
use crate::models::fiscal_year::FiscalYear;
use crate::money::{fits_i64, Money};
use crate::report::balance_sheet::BalanceSheet;
use crate::report::income_statement::IncomeStatement;
use crate::report::notes::Notes;
use crate::sie::types::{clone_opt, opt_text};
use crate::text::{push_str, same_text, to_string};

verus! {

/// Complete K2 Årsredovisning data structure.
#[derive(Debug, Clone)]
pub struct AnnualReport {
    pub company: CompanyInfo,
    pub fiscal_year: FiscalYearInfo,
    pub directors_report: DirectorsReport,
    pub income_statement: IncomeStatement,
    pub balance_sheet: BalanceSheet,
    pub notes: Notes,
}

/// The company as the report names it.
#[derive(Debug, Clone)]
pub struct CompanyInfo {
    pub name: String,
    pub org_number: String,
    pub company_form: String,
    pub address: Option<String>,
    pub postal_code: Option<String>,
    pub city: Option<String>,
}

/// The fiscal year the report covers.
#[derive(Debug, Clone)]
pub struct FiscalYearInfo {
    pub start_date: String,
    pub end_date: String,
    pub is_closed: bool,
}

/// Förvaltningsberättelse per K2 requirements.
#[derive(Debug, Clone)]
pub struct DirectorsReport {
    /// Verksamhetens art och inriktning
    pub business_description: String,
    /// Viktiga händelser under räkenskapsåret
    pub important_events: String,
    /// Förväntad framtida utveckling
    pub future_outlook: String,
    /// Förslag till vinstdisposition (for AB only)
    pub profit_allocation: Option<ProfitAllocation>,
}

/// The board's proposal for the year's result.
#[derive(Debug, Clone, Copy)]
pub struct ProfitAllocation {
    pub result_for_year: Money,
    pub retained_earnings: Money,
    pub total_available: Money,
    /// Proposed: carry forward
    pub carry_forward: Money,
    /// Proposed: dividend
    pub dividend: Money,
}

/// The text of the business description: "<name> bedriver verksamhet med
/// säte i <city>." (Sverige when no city is known).
pub open spec fn business_text(name: Seq<char>, city: Option<Seq<char>>) -> Seq<char> {
    name + " bedriver verksamhet med säte i "@ + match city {
        Some(c) => c,
        None => "Sverige"@,
    } + "."@
}

/// The directors' report of a company with the year's result and free
/// equity: a limited company (AB) proposes to carry forward all that is
/// available (the free equity), with no dividend; other forms propose nothing.
pub fn directors_report(company: &Company, net_result: Money, unrestricted_equity: Money) -> (d: DirectorsReport)
    requires
        fits_i64(unrestricted_equity@ - net_result@),
    ensures
        d.business_description@ == business_text(company.name@, opt_text(company.city)),
        d.important_events@ == "Inga väsentliga händelser att rapportera."@,
        d.future_outlook@ == "Bolaget bedömer att verksamheten kommer att fortsätta i oförändrad omfattning."@,
        company.company_form@ == "AB"@ ==> (d.profit_allocation matches Some(p) && p.result_for_year@
            == net_result@ && p.retained_earnings@ == unrestricted_equity@ - net_result@
            && p.total_available@ == unrestricted_equity@ && p.carry_forward@ == unrestricted_equity@
            && p.dividend@ == 0),
        company.company_form@ != "AB"@ ==> d.profit_allocation is None,
{
    let profit_allocation = if same_text(company.company_form.as_str(), "AB") {
        // Retained earnings: unrestricted equity minus the current year's result
        proof {
            unrestricted_equity.lemma_range();
        }
        let retained = unrestricted_equity.sub(net_result);
        let total = retained.add(net_result);
        Some(
            ProfitAllocation {
                result_for_year: net_result,
                retained_earnings: retained,
                total_available: total,
                carry_forward: total,  // Default: carry forward everything
                dividend: Money::zero(),
            },
        )
    } else {
        None
    };
    let mut business = String::new();
    push_str(&mut business, company.name.as_str());
    push_str(&mut business, " bedriver verksamhet med säte i ");
    match &company.city {
        Some(c) => push_str(&mut business, c.as_str()),
        None => push_str(&mut business, "Sverige"),
    }
    push_str(&mut business, ".");
    assert(business@ =~= business_text(company.name@, opt_text(company.city)));
    DirectorsReport {
        business_description: business,
        important_events: to_string("Inga väsentliga händelser att rapportera."),
        future_outlook: to_string("Bolaget bedömer att verksamheten kommer att fortsätta i oförändrad omfattning."),
        profit_allocation,
    }
}

/// The company as the report names it.
pub fn company_info(company: &Company) -> (c: CompanyInfo)
    ensures
        c.name@ == company.name@,
        c.org_number@ == company.org_number@,
        c.company_form@ == company.company_form@,
        opt_text(c.address) == opt_text(company.address),
        opt_text(c.postal_code) == opt_text(company.postal_code),
        opt_text(c.city) == opt_text(company.city),
{
    CompanyInfo {
        name: to_string(company.name.as_str()),
        org_number: to_string(company.org_number.as_str()),
        company_form: to_string(company.company_form.as_str()),
        address: clone_opt(&company.address),
        postal_code: clone_opt(&company.postal_code),
        city: clone_opt(&company.city),
    }
}

/// The fiscal year as the report names it.
pub fn fiscal_year_info(fy: &FiscalYear) -> (f: FiscalYearInfo)
    ensures
        f.start_date@ == fy.start_date@,
        f.end_date@ == fy.end_date@,
        f.is_closed == fy.is_closed,
{
    FiscalYearInfo {
        start_date: to_string(fy.start_date.as_str()),
        end_date: to_string(fy.end_date.as_str()),
        is_closed: fy.is_closed,
    }
}

/// The annual report of a company's fiscal year from its income statement,
/// balance sheet and notes, each with its comparative figures of the previous
/// year, carried over as they are.
pub fn assemble_annual_report(
    company: &Company,
    fy: &FiscalYear,
    income_statement: IncomeStatement,
    balance_sheet: BalanceSheet,
    notes: Notes,
) -> (r: AnnualReport)
    requires
        fits_i64(
            balance_sheet.current.equity_and_liabilities.unrestricted_equity@
                - income_statement.current.net_result@,
        ),
    ensures
        r.company.name@ == company.name@,
        r.company.org_number@ == company.org_number@,
        r.fiscal_year.start_date@ == fy.start_date@,
        r.fiscal_year.end_date@ == fy.end_date@,
        r.fiscal_year.is_closed == fy.is_closed,
        r.directors_report.business_description@ == business_text(company.name@, opt_text(company.city)),
        company.company_form@ == "AB"@ ==> (r.directors_report.profit_allocation matches Some(p)
            && p.result_for_year@ == income_statement.current.net_result@ && p.retained_earnings@
            == balance_sheet.current.equity_and_liabilities.unrestricted_equity@
            - income_statement.current.net_result@ && p.total_available@
            == balance_sheet.current.equity_and_liabilities.unrestricted_equity@ && p.carry_forward@
            == balance_sheet.current.equity_and_liabilities.unrestricted_equity@ && p.dividend@ == 0),
        r.directors_report.important_events@ == "Inga väsentliga händelser att rapportera."@,
        r.directors_report.future_outlook@
            == "Bolaget bedömer att verksamheten kommer att fortsätta i oförändrad omfattning."@,
        company.company_form@ != "AB"@ ==> r.directors_report.profit_allocation is None,
        r.income_statement.current@ == income_statement.current@,
        r.balance_sheet.current@ == balance_sheet.current@,
        r.income_statement == income_statement,
        r.balance_sheet == balance_sheet,
        r.notes == notes,
{
    let directors_report = directors_report(
        company,
        income_statement.current.net_result,
        balance_sheet.current.equity_and_liabilities.unrestricted_equity,
    );
    AnnualReport {
        company: company_info(company),
        fiscal_year: fiscal_year_info(fy),
        directors_report,
        income_statement,
        balance_sheet,
        notes,
    }
}

} // verus!
