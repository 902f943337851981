//! Accounts of a company's chart (kontoplan).
use vstd::prelude::*;

verus! {

/// An account of a company's chart.
#[derive(Debug, Clone)]
pub struct Account {
    pub id: String,
    pub company_id: String,
    pub number: i32,
    pub name: String,
    pub account_type: String,
    pub is_active: bool,
    pub created_at: String,
}

/// A new account.
#[derive(Debug, Clone)]
pub struct CreateAccount {
    pub number: i32,
    pub name: String,
    /// Optional: derived from number if not provided
    pub account_type: Option<String>,
}

/// A change to an account.
#[derive(Debug, Clone)]
pub struct UpdateAccount {
    pub name: Option<String>,
    pub is_active: Option<bool>,
}

} // verus!
