//! Tax returns: the INK2 form and the SRU files that carry it.
pub mod ink2;
pub mod sru;
