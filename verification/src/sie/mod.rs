//! SIE import and export.
pub mod encoding;
pub mod parser;
pub mod syntax;
pub mod types;
pub mod writer;
pub mod transfer;
pub mod roundtrip;
