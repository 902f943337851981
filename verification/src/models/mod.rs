//! The records that the books keep: companies, fiscal years, accounts,
//! vouchers and their attachments.
pub mod account;
pub mod attachment;
pub mod company;
pub mod fiscal_year;
pub mod voucher;
