//! Bookkeeping for small Swedish companies: the BAS chart of accounts, money in
//! öre, SIE import and export, K2 closing and reports, INK2/SRU tax data and
//! iXBRL filing documents.
use vstd::prelude::*;

pub mod text;
pub mod validation;
pub mod money;
pub mod date;
pub mod sie;
pub mod ledger;
pub mod k2;
pub mod tax;
pub mod assets;
pub mod report;
pub mod models;
pub mod voucher_checks;
pub mod seed;
pub mod auth;
pub mod config;
pub mod filing;
pub mod admin;
pub mod requests;

verus! {

} // verus!
