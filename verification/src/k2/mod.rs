//! The annual closing under K2 (BFNAR 2016:10).
pub mod closing;
pub mod eligibility;
pub mod validation;
