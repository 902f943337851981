//! Fixed assets and their depreciation.
pub mod depreciation;
pub mod models;
