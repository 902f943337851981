//! The annual report: balance sheet, income statement, notes, multi-year overview.
pub mod annual_report;
pub mod balance_sheet;
pub mod income_statement;
pub mod notes;
pub mod multi_year;
pub mod pdf;
