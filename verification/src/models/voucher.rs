//! Vouchers (verifikationer) and their lines.
use vstd::prelude::*;
use crate::money::Money;

verus! {

/// A voucher of a fiscal year.
#[derive(Debug, Clone)]
pub struct Voucher {
    pub id: String,
    pub company_id: String,
    pub fiscal_year_id: String,
    pub voucher_number: i32,
    pub date: String,
    pub description: String,
    pub is_closing_entry: bool,
    pub created_at: String,
}

/// A line of a voucher: a debit or a credit on an account.
#[derive(Debug, Clone)]
pub struct VoucherLine {
    pub id: String,
    pub voucher_id: String,
    pub account_number: i32,
    pub debit: Money,
    pub credit: Money,
    pub description: Option<String>,
}

/// A voucher with its lines.
#[derive(Debug, Clone)]
pub struct VoucherWithLines {
    pub voucher: Voucher,
    pub lines: Vec<VoucherLine>,
}

/// A new voucher.
#[derive(Debug, Clone)]
pub struct CreateVoucher {
    pub date: String,
    pub description: String,
    pub lines: Vec<CreateVoucherLine>,
}

/// A line of a new voucher.
#[derive(Debug, Clone)]
pub struct CreateVoucherLine {
    pub account_number: i32,
    pub debit: Money,
    pub credit: Money,
    pub description: Option<String>,
}

} // verus!
