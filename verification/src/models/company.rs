//! Companies whose books are kept.
use vstd::prelude::*;
use crate::models::fiscal_year::{new_id, now_text};
use crate::sie::syntax::{push_without_dashes, without_dashes};
use crate::sie::types::{clone_opt, opt_text};
use crate::text::to_string;

verus! {

/// A company.
#[derive(Debug, Clone)]
pub struct Company {
    pub id: String,
    pub name: String,
    pub org_number: String,
    pub company_form: String,
    pub fiscal_year_start_month: i32,
    pub address: Option<String>,
    pub postal_code: Option<String>,
    pub city: Option<String>,
    pub created_at: String,
    pub updated_at: String,
}

/// A new company.
#[derive(Debug, Clone)]
pub struct CreateCompany {
    pub name: String,
    pub org_number: String,
    /// One of: AB, HB, KB, EF, EK
    pub company_form: String,
    /// Month when fiscal year starts (1 = January)
    pub fiscal_year_start_month: i32,
    pub address: Option<String>,
    pub postal_code: Option<String>,
    pub city: Option<String>,
}

/// The month a fiscal year starts in when none is given: January.
pub fn default_fy_start() -> (m: i32)
    ensures
        m == 1,
{
    1
}

/// A change to a company.
#[derive(Debug, Clone)]
pub struct UpdateCompany {
    pub name: Option<String>,
    pub org_number: Option<String>,
    /// One of: AB, HB, KB, EF, EK
    pub company_form: Option<String>,
    pub address: Option<String>,
    pub postal_code: Option<String>,
    pub city: Option<String>,
}

impl Company {
    /// The company that `input` describes, with the given identifier and
    /// time of creation; the organisation number is kept without dashes.
    pub fn new_with(input: &CreateCompany, id: String, now: String) -> (c: Company)
        ensures
            c.id@ == id@,
            c.name@ == input.name@,
            c.org_number@ == without_dashes(input.org_number@),
            c.company_form@ == input.company_form@,
            c.fiscal_year_start_month == input.fiscal_year_start_month,
            opt_text(c.address) == opt_text(input.address),
            opt_text(c.postal_code) == opt_text(input.postal_code),
            opt_text(c.city) == opt_text(input.city),
            c.created_at@ == now@,
            c.updated_at@ == now@,
    {
        let mut org = String::new();
        push_without_dashes(&mut org, input.org_number.as_str());
        assert(org@ =~= without_dashes(input.org_number@));
        Company {
            id,
            name: to_string(input.name.as_str()),
            org_number: org,
            company_form: to_string(input.company_form.as_str()),
            fiscal_year_start_month: input.fiscal_year_start_month,
            address: clone_opt(&input.address),
            postal_code: clone_opt(&input.postal_code),
            city: clone_opt(&input.city),
            created_at: to_string(now.as_str()),
            updated_at: now,
        }
    }

    /// The company that `input` describes, with a fresh identifier, created now.
    pub fn new(input: &CreateCompany) -> (c: Company)
        ensures
            c.name@ == input.name@,
            c.org_number@ == without_dashes(input.org_number@),
            c.company_form@ == input.company_form@,
            c.fiscal_year_start_month == input.fiscal_year_start_month,
            opt_text(c.address) == opt_text(input.address),
            opt_text(c.postal_code) == opt_text(input.postal_code),
            opt_text(c.city) == opt_text(input.city),
            c.created_at@ == c.updated_at@,
    {
        let id = new_id();
        let now = now_text();
        Company::new_with(input, id, now)
    }
}

} // verus!
