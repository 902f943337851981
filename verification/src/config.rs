//! How the server runs: open to many companies, or fixed to one.
use vstd::prelude::*;

verus! {

/// The mode of the server.
#[derive(Debug, Clone, Copy, PartialEq, Eq, Structural)]
pub enum AppMode {
    /// Any number of companies, each with its own users.
    Saas,
    /// A single company that every user is assigned to.
    Fixed,
}

/// The configuration of the server.
#[derive(Debug, Clone)]
pub struct AppConfig {
    pub mode: AppMode,
    /// Only used in Fixed mode — the single company ID users are assigned to.
    pub fixed_company_id: Option<String>,
}

/// The ASCII lowercase of a character.
pub open spec fn ascii_lower(c: char) -> char {
    if 'A' <= c && c <= 'Z' {
        ((c as u32) + 32) as char
    } else {
        c
    }
}

/// Whether `s` is "fixed" in any mix of upper and lower case (what
/// `to_lowercase() == "fixed"` decides, since no other character lowercases
/// to one of these letters).
pub open spec fn names_fixed(s: Seq<char>) -> bool {
    s.len() == 5 && ascii_lower(s[0]) == 'f' && ascii_lower(s[1]) == 'i' && ascii_lower(s[2]) == 'x'
        && ascii_lower(s[3]) == 'e' && ascii_lower(s[4]) == 'd'
}

fn lower(c: char) -> (r: char)
    ensures
        r == ascii_lower(c),
{
    if 'A' <= c && c <= 'Z' {
        ((c as u8) + 32) as char
    } else {
        c
    }
}

/// The mode that the setting `APP_MODE` names: fixed for "fixed" in any
/// case, the shared mode for anything else (an unset variable included).
pub fn app_mode_from(setting: &str) -> (m: AppMode)
    ensures
        m == (if names_fixed(setting@) {
            AppMode::Fixed
        } else {
            AppMode::Saas
        }),
{
    let cs = crate::text::chars_of(setting);
    if cs.len() == 5 && lower(cs[0]) == 'f' && lower(cs[1]) == 'i' && lower(cs[2]) == 'x' && lower(cs[3])
        == 'e' && lower(cs[4]) == 'd' {
        AppMode::Fixed
    } else {
        AppMode::Saas
    }
}

/// Whether the configuration lacks what its mode needs: fixed mode without a
/// company.
pub fn lacks_fixed_company(config: &AppConfig) -> (b: bool)
    ensures
        b == (config.mode == AppMode::Fixed && config.fixed_company_id is None),
{
    config.mode == AppMode::Fixed && config.fixed_company_id.is_none()
}

} // verus!
