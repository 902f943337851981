//! Filing the annual report with Bolagsverket.
pub mod api;
pub mod ixbrl;
