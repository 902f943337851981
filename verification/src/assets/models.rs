//! Fixed assets (anläggningstillgångar) and the defaults of each kind.
use vstd::prelude::*;
use crate::money::Money;
use crate::text::same_text;

verus! {

/// A fixed asset of a company.
#[derive(Debug, Clone)]
pub struct FixedAsset {
    pub id: String,
    pub company_id: String,
    pub name: String,
    pub description: Option<String>,
    pub asset_type: String,
    pub acquisition_date: String,
    pub acquisition_cost: Money,
    pub useful_life_months: i32,
    pub residual_value: Money,
    pub depreciation_start_date: String,
    pub asset_account: i32,
    pub depreciation_account: i32,
    pub expense_account: i32,
    pub is_disposed: bool,
    pub disposal_date: Option<String>,
    pub disposal_amount: Money,
    pub created_at: String,
    pub updated_at: String,
}

/// What a new asset is registered with.
#[derive(Debug, Clone)]
pub struct CreateFixedAsset {
    pub name: String,
    pub description: Option<String>,
    pub asset_type: String,
    pub acquisition_date: String,
    pub acquisition_cost: Money,
    pub useful_life_months: i32,
    pub residual_value: Money,
    /// Defaults to acquisition_date if not provided
    pub depreciation_start_date: Option<String>,
}

/// The sale or scrapping of an asset.
#[derive(Debug, Clone)]
pub struct DisposeAsset {
    pub disposal_date: String,
    pub disposal_amount: Money,
}

/// The kinds of asset that have their own defaults, by name.
pub open spec fn asset_kind(t: Seq<char>) -> int {
    if t == "intangible"@ {
        0
    } else if t == "building"@ {
        1
    } else if t == "machinery"@ {
        2
    } else if t == "equipment"@ {
        3
    } else if t == "vehicle"@ {
        4
    } else if t == "computer"@ {
        5
    } else if t == "financial"@ {
        6
    } else {
        7
    }
}

fn kind_of(t: &str) -> (k: u8)
    ensures
        k == asset_kind(t@),
{
    if same_text(t, "intangible") {
        0
    } else if same_text(t, "building") {
        1
    } else if same_text(t, "machinery") {
        2
    } else if same_text(t, "equipment") {
        3
    } else if same_text(t, "vehicle") {
        4
    } else if same_text(t, "computer") {
        5
    } else if same_text(t, "financial") {
        6
    } else {
        7
    }
}

/// The (asset, accumulated depreciation, depreciation expense) accounts of
/// each kind; equipment's for a kind without its own.
pub open spec fn default_accounts_of(t: Seq<char>) -> (i32, i32, i32) {
    let k = asset_kind(t);
    if k == 0 {
        (1010, 1080, 7810)
    } else if k == 1 {
        (1110, 1119, 7820)
    } else if k == 2 {
        (1210, 1219, 7831)
    } else if k == 3 {
        (1220, 1229, 7832)
    } else if k == 4 {
        (1240, 1249, 7833)
    } else if k == 5 {
        (1250, 1259, 7834)
    } else if k == 6 {
        (1310, 1310, 7810)
    } else {
        (1220, 1229, 7832)
    }
}

/// Default account mappings per asset type.
pub fn default_accounts(asset_type: &str) -> (r: (i32, i32, i32))
    ensures
        r == default_accounts_of(asset_type@),
{
    match kind_of(asset_type) {
        0 => (1010, 1080, 7810),
        1 => (1110, 1119, 7820),
        2 => (1210, 1219, 7831),
        3 => (1220, 1229, 7832),
        4 => (1240, 1249, 7833),
        5 => (1250, 1259, 7834),
        6 => (1310, 1310, 7810),  // Financial assets typically not depreciated
        _ => (1220, 1229, 7832),
    }
}

/// The useful life (months) that K2 suggests for each kind: intangible
/// assets, machinery and equipment 5 years, buildings 50, vehicles 6,
/// computers 3; financial assets are not depreciated; 5 years otherwise.
pub open spec fn suggested_life_of(t: Seq<char>) -> i32 {
    let k = asset_kind(t);
    if k == 1 {
        600
    } else if k == 4 {
        72
    } else if k == 5 {
        36
    } else if k == 6 {
        0
    } else {
        60
    }
}

/// K2 suggested useful life per asset type (in months).
pub fn suggested_useful_life(asset_type: &str) -> (r: i32)
    ensures
        r == suggested_life_of(asset_type@),
{
    match kind_of(asset_type) {
        0 => 60,  // Max 5 years for K2 (goodwill, patents)
        1 => 600,  // 50 years
        2 => 60,  // 5 years
        3 => 60,  // 5 years
        4 => 72,  // 6 years
        5 => 36,  // 3 years
        6 => 0,  // Not depreciated
        _ => 60,
    }
}

/// The Swedish name of each kind.
pub open spec fn asset_label_of(t: Seq<char>) -> Seq<char> {
    let k = asset_kind(t);
    if k == 0 {
        "Immateriell tillgång"@
    } else if k == 1 {
        "Byggnad"@
    } else if k == 2 {
        "Maskin"@
    } else if k == 3 {
        "Inventarie"@
    } else if k == 4 {
        "Fordon"@
    } else if k == 5 {
        "Dator"@
    } else if k == 6 {
        "Finansiell tillgång"@
    } else {
        "Övrigt"@
    }
}

/// Human-readable asset type labels.
pub fn asset_type_label(asset_type: &str) -> (r: &'static str)
    ensures
        r@ == asset_label_of(asset_type@),
{
    match kind_of(asset_type) {
        0 => "Immateriell tillgång",
        1 => "Byggnad",
        2 => "Maskin",
        3 => "Inventarie",
        4 => "Fordon",
        5 => "Dator",
        6 => "Finansiell tillgång",
        _ => "Övrigt",
    }
}

} // verus!
