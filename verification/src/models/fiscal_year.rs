//! Fiscal years (räkenskapsår).
use vstd::prelude::*;
use crate::text::to_string;

verus! {

/// A fiscal year of a company.
#[derive(Debug, Clone)]
pub struct FiscalYear {
    pub id: String,
    pub company_id: String,
    pub start_date: String,
    pub end_date: String,
    pub is_closed: bool,
    pub closed_at: Option<String>,
    pub created_at: String,
}

/// A new fiscal year.
#[derive(Debug, Clone)]
pub struct CreateFiscalYear {
    /// ISO date, e.g. "2025-01-01"
    pub start_date: String,
    /// ISO date, e.g. "2025-12-31"
    pub end_date: String,
}

/// A fresh random identifier (a version 4 UUID, hyphenated).
///
/// Trusted: calls `uuid::Uuid::new_v4`; what comes back is random and not stated.
/// The call panics where the operating system's random source fails, which no
/// precondition can rule out.
#[verifier::external_body]
pub(crate) fn new_id() -> (s: String) {
    uuid::Uuid::new_v4().to_string()
}

/// The current time as RFC 3339 text.
///
/// Trusted: calls `chrono::Utc::now` and `to_rfc3339`; the time is not stated.
/// `Utc::now` panics where the system clock reads before 1970.
#[verifier::external_body]
pub(crate) fn now_text() -> (s: String) {
    chrono::Utc::now().to_rfc3339()
}

impl FiscalYear {
    /// A new, open fiscal year of a company with the given identifier and
    /// creation time.
    pub fn new_with(company_id: &str, input: &CreateFiscalYear, id: String, now: String) -> (f: FiscalYear)
        ensures
            f.id@ == id@,
            f.company_id@ == company_id@,
            f.start_date@ == input.start_date@,
            f.end_date@ == input.end_date@,
            !f.is_closed,
            f.closed_at is None,
            f.created_at@ == now@,
    {
        FiscalYear {
            id,
            company_id: to_string(company_id),
            start_date: to_string(input.start_date.as_str()),
            end_date: to_string(input.end_date.as_str()),
            is_closed: false,
            closed_at: None,
            created_at: now,
        }
    }

    /// A new, open fiscal year of a company, with a fresh identifier, created now.
    pub fn new(company_id: &str, input: &CreateFiscalYear) -> (f: FiscalYear)
        ensures
            f.company_id@ == company_id@,
            f.start_date@ == input.start_date@,
            f.end_date@ == input.end_date@,
            !f.is_closed,
            f.closed_at is None,
    {
        let id = new_id();
        let now = now_text();
        FiscalYear::new_with(company_id, input, id, now)
    }
}

} // verus!
