//! Linear depreciation of fixed assets under K2.
use vstd::prelude::*;
use crate::assets::models::FixedAsset;
use crate::date::{months_between, months_between_spec, parse_iso_date, parsed_date, Date};
use crate::money::{fits_i64, money_text, Money};
use crate::text::{int_text, push_int, push_str, to_string};

verus! {

/// Depreciation schedule for a single asset.
#[derive(Debug, Clone)]
pub struct DepreciationSchedule {
    pub asset_id: String,
    pub asset_name: String,
    pub acquisition_cost: Money,
    pub residual_value: Money,
    pub depreciable_amount: Money,
    pub useful_life_months: i32,
    pub monthly_depreciation: Money,
    pub entries: Vec<DepreciationEntry>,
    pub total_depreciated: Money,
    pub book_value: Money,
}

#[derive(Debug, Clone)]
pub struct DepreciationEntry {
    pub period: String,
    pub amount: Money,
    pub accumulated: Money,
    pub book_value: Money,
}

/// Summary of depreciation for all assets in a fiscal year.
#[derive(Debug, Clone)]
pub struct DepreciationSummary {
    pub fiscal_year_id: String,
    pub assets: Vec<AssetDepreciation>,
    pub total_depreciation: Money,
}

#[derive(Debug, Clone)]
pub struct AssetDepreciation {
    pub asset_id: String,
    pub asset_name: String,
    pub asset_type: String,
    pub acquisition_cost: Money,
    pub depreciation_this_year: Money,
    pub accumulated_depreciation: Money,
    pub book_value: Money,
    pub expense_account: i32,
    pub depreciation_account: i32,
}

/// The monthly straight-line depreciation (öre): the depreciable amount
/// (cost less residual value) over the useful life, rounded toward zero;
/// nothing without a useful life or a depreciable amount.
pub open spec fn monthly_depreciation(cost: int, residual: int, months: int) -> int {
    if months <= 0 {
        0
    } else if cost - residual <= 0 {
        0
    } else {
        (cost - residual) / months
    }
}

/// Calculate linear (straight-line) depreciation per K2 rules.
/// K2 requires linear depreciation unless another method better reflects usage.
pub fn calculate_linear_depreciation(acquisition_cost: Money, residual_value: Money, useful_life_months: i32) -> (m: Money)
    requires
        fits_i64(acquisition_cost@ - residual_value@),
    ensures
        m@ == monthly_depreciation(acquisition_cost@, residual_value@, useful_life_months as int),
        0 <= m@,
{
    if useful_life_months <= 0 {
        return Money::zero();
    }
    let depreciable = acquisition_cost.sub(residual_value);
    if depreciable.to_ore() <= 0 {
        return Money::zero();
    }
    // Monthly depreciation = depreciable amount / useful life months
    let monthly_ore = depreciable.to_ore() / useful_life_months as i64;
    Money::from_ore(monthly_ore)
}

/// What an asset's depreciation depends on, as the contracts see it.
pub struct AssetTerms {
    pub cost: int,
    pub residual: int,
    pub life: int,
    pub is_disposed: bool,
    pub disposal: Option<Seq<char>>,
    pub start: Seq<char>,
}

pub open spec fn terms_of(a: FixedAsset) -> AssetTerms {
    AssetTerms {
        cost: a.acquisition_cost@,
        residual: a.residual_value@,
        life: a.useful_life_months as int,
        is_disposed: a.is_disposed,
        disposal: match a.disposal_date {
            Some(d) => Some(d@),
            None => None,
        },
        start: a.depreciation_start_date@,
    }
}

/// The date on which depreciation starts: the asset's start date, or the
/// start of the period when that does not read as a date.
pub open spec fn depreciation_start(t: AssetTerms, period_start: Date) -> Date {
    match parsed_date(t.start) {
        Some(d) => d,
        None => period_start,
    }
}

/// The later of the start of depreciation and the start of the period.
pub open spec fn effective_start(t: AssetTerms, period_start: Date) -> Date {
    let s = depreciation_start(t, period_start);
    if period_start.before(s) {
        s
    } else {
        period_start
    }
}

/// The end of the period, or the disposal date when it comes first.
pub open spec fn effective_end(t: AssetTerms, period_end: Date) -> Date {
    match t.disposal {
        Some(dd) => match parsed_date(dd) {
            Some(d) => if d.before(period_end) {
                d
            } else {
                period_end
            },
            None => period_end,
        },
        None => period_end,
    }
}

/// Whether the asset was disposed of before the period.
pub open spec fn disposed_before(t: AssetTerms, period_start: Date) -> bool {
    t.is_disposed && match t.disposal {
        Some(dd) => match parsed_date(dd) {
            Some(d) => d.before(period_start),
            None => false,
        },
        None => false,
    }
}

/// The months already depreciated before the period: those from the start of
/// depreciation up to, but not including, the first month depreciated in the
/// period (none when the period starts where depreciation does).
pub open spec fn months_before(t: AssetTerms, period_start: Date) -> int {
    let m = months_between_spec(depreciation_start(t, period_start), effective_start(t, period_start));
    if m > 0 {
        m - 1
    } else {
        0
    }
}

/// The months depreciated in the period.
pub open spec fn months_in(t: AssetTerms, period_start: Date, period_end: Date) -> int {
    months_between_spec(effective_start(t, period_start), effective_end(t, period_end))
}

/// The depreciation (öre) of an asset in a period: nothing when it was
/// disposed of before the period, when depreciation starts after it, when
/// the monthly amount is zero or the asset is fully depreciated; otherwise
/// the monthly amount for each month from the later of the start of
/// depreciation and the period to the earlier of the disposal and the end of
/// the period (counting both end months), at most what remains to depreciate.
pub open spec fn period_depreciation(t: AssetTerms, period_start: Date, period_end: Date) -> int {
    let monthly = monthly_depreciation(t.cost, t.residual, t.life);
    let total = t.cost - t.residual;
    let already = monthly * months_before(t, period_start);
    let months = months_in(t, period_start, period_end);
    if disposed_before(t, period_start) {
        0
    } else if period_end.before(depreciation_start(t, period_start)) {
        0
    } else if monthly == 0 {
        0
    } else if already >= total {
        0
    } else if months <= 0 {
        0
    } else {
        let amount = monthly * months;
        let remaining = total - already;
        let capped = if amount < remaining {
            amount
        } else {
            remaining
        };
        if capped > 0 {
            capped
        } else {
            0
        }
    }
}

/// The products that the computation forms stay in the range of `i64`.
pub open spec fn period_fits(t: AssetTerms, period_start: Date, period_end: Date) -> bool {
    let monthly = monthly_depreciation(t.cost, t.residual, t.life);
    &&& fits_i64(t.cost - t.residual)
    &&& fits_i64(monthly * months_before(t, period_start))
    &&& fits_i64(monthly * months_in(t, period_start, period_end))
    &&& fits_i64(t.cost - t.residual - monthly * months_before(t, period_start))
}

fn read_date_or(s: &str, fallback: Date) -> (d: Date)
    requires
        fallback.wf(),
    ensures
        d == (match parsed_date(s@) {
            Some(p) => p,
            None => fallback,
        }),
        d.wf(),
{
    match parse_iso_date(s) {
        Some(p) => p,
        None => fallback,
    }
}

/// Calculate depreciation amount for a specific fiscal year period.
pub fn depreciation_for_period(asset: &FixedAsset, period_start: &Date, period_end: &Date) -> (m: Money)
    requires
        period_start.wf(),
        period_end.wf(),
        period_fits(terms_of(*asset), *period_start, *period_end),
    ensures
        m@ == period_depreciation(terms_of(*asset), *period_start, *period_end),
{
    let ghost t = terms_of(*asset);
    if asset.is_disposed {
        // If disposed before period, no depreciation
        if let Some(dd) = &asset.disposal_date {
            if let Some(d) = parse_iso_date(dd.as_str()) {
                if d.lt(period_start) {
                    return Money::zero();
                }
            }
        }
    }
    assert(!disposed_before(t, *period_start));
    let dep_start = read_date_or(asset.depreciation_start_date.as_str(), *period_start);
    // If depreciation hasn't started yet
    if period_end.lt(&dep_start) {
        return Money::zero();
    }
    let monthly = calculate_linear_depreciation(
        asset.acquisition_cost,
        asset.residual_value,
        asset.useful_life_months,
    );
    if monthly.is_zero() {
        return Money::zero();
    }
    // Calculate months of depreciation within this period
    let effective_start = if period_start.lt(&dep_start) {
        dep_start
    } else {
        *period_start
    };
    // Check if fully depreciated before this period
    let total_depreciable = asset.acquisition_cost.sub(asset.residual_value);
    let counted = months_between(&dep_start, &effective_start);
    // the first month of the period is not yet depreciated
    let months_since_start = if counted > 0 {
        counted - 1
    } else {
        0
    };
    let already_depreciated_ore = monthly.to_ore() * months_since_start as i64;
    if already_depreciated_ore >= total_depreciable.to_ore() {
        return Money::zero();
    }
    let effective_end = match &asset.disposal_date {
        Some(dd) => match parse_iso_date(dd.as_str()) {
            Some(d) => if d.lt(period_end) {
                d
            } else {
                *period_end
            },
            None => *period_end,
        },
        None => *period_end,
    };
    let months_in_period = months_between(&effective_start, &effective_end);
    if months_in_period <= 0 {
        return Money::zero();
    }
    let period_amount_ore = monthly.to_ore() * months_in_period as i64;
    // Don't depreciate more than remaining book value
    let remaining = total_depreciable.to_ore() - already_depreciated_ore;
    let capped = if period_amount_ore < remaining {
        period_amount_ore
    } else {
        remaining
    };
    Money::from_ore(if capped > 0 { capped } else { 0 })
}

/// The depreciation accumulated by the end of the period (öre): the monthly
/// amount for each month from the start of depreciation to the end of the
/// period, at most the depreciable amount and never below zero.
pub open spec fn accumulated_depreciation(t: AssetTerms, period_start: Date, period_end: Date) -> int {
    let monthly = monthly_depreciation(t.cost, t.residual, t.life);
    let months = months_between_spec(depreciation_start(t, period_start), period_end);
    let max_dep = t.cost - t.residual;
    let x = if monthly * months < max_dep {
        monthly * months
    } else {
        max_dep
    };
    if x > 0 {
        x
    } else {
        0
    }
}

impl View for AssetDepreciation {
    type V = (Seq<char>, Seq<char>, Seq<char>, int, int, int, int, i32, i32);

    open spec fn view(&self) -> (Seq<char>, Seq<char>, Seq<char>, int, int, int, int, i32, i32) {
        (
            self.asset_id@,
            self.asset_name@,
            self.asset_type@,
            self.acquisition_cost@,
            self.depreciation_this_year@,
            self.accumulated_depreciation@,
            self.book_value@,
            self.expense_account,
            self.depreciation_account,
        )
    }
}

/// The row of an asset in the summary of a period.
pub open spec fn asset_row(a: FixedAsset, period_start: Date, period_end: Date) -> (
    Seq<char>,
    Seq<char>,
    Seq<char>,
    int,
    int,
    int,
    int,
    i32,
    i32,
) {
    let t = terms_of(a);
    let acc = accumulated_depreciation(t, period_start, period_end);
    (
        a.id@,
        a.name@,
        a.asset_type@,
        a.acquisition_cost@,
        period_depreciation(t, period_start, period_end),
        acc,
        a.acquisition_cost@ - acc,
        a.expense_account,
        a.depreciation_account,
    )
}

pub open spec fn row_views(rs: Seq<AssetDepreciation>) -> Seq<
    (Seq<char>, Seq<char>, Seq<char>, int, int, int, int, i32, i32),
> {
    rs.map_values(|r: AssetDepreciation| r@)
}

/// The sum of the period's depreciation over the first assets.
pub open spec fn depreciation_total(assets: Seq<FixedAsset>, period_start: Date, period_end: Date) -> int
    decreases assets.len(),
{
    if assets.len() == 0 {
        0
    } else {
        depreciation_total(assets.drop_last(), period_start, period_end) + period_depreciation(
            terms_of(assets.last()),
            period_start,
            period_end,
        )
    }
}

/// Every figure of every row stays in the range of `i64`, and so does the total.
pub open spec fn summary_fits(assets: Seq<FixedAsset>, period_start: Date, period_end: Date) -> bool {
    &&& forall|i: int|
        0 <= i < assets.len() ==> {
            let t = terms_of(#[trigger] assets[i]);
            let monthly = monthly_depreciation(t.cost, t.residual, t.life);
            &&& period_fits(t, period_start, period_end)
            &&& fits_i64(monthly * months_between_spec(depreciation_start(t, period_start), period_end))
            &&& fits_i64(t.cost - accumulated_depreciation(t, period_start, period_end))
        }
    &&& fits_i64(depreciation_total(assets, period_start, period_end))
}

/// The period of a fiscal year: its dates, or 2025-01-01 and 2025-12-31 for
/// a date that does not read as one.
pub open spec fn fiscal_period(start: Seq<char>, end: Seq<char>) -> (Date, Date) {
    (
        match parsed_date(start) {
            Some(d) => d,
            None => Date { year: 2025, month: 1, day: 1 },
        },
        match parsed_date(end) {
            Some(d) => d,
            None => Date { year: 2025, month: 12, day: 31 },
        },
    )
}

/// The period of a fiscal year with the dates `start` and `end`.
pub fn period_of(start: &str, end: &str) -> (r: (Date, Date))
    ensures
        r == fiscal_period(start@, end@),
        r.0.wf(),
        r.1.wf(),
{
    let a = read_date_or(start, Date { year: 2025, month: 1, day: 1 });
    let b = read_date_or(end, Date { year: 2025, month: 12, day: 31 });
    (a, b)
}

proof fn lemma_total_nonneg(assets: Seq<FixedAsset>, period_start: Date, period_end: Date, i: int)
    requires
        0 <= i <= assets.len(),
    ensures
        0 <= depreciation_total(assets.take(i), period_start, period_end) <= depreciation_total(
            assets,
            period_start,
            period_end,
        ),
    decreases assets.len(),
{
    if i == assets.len() {
        assert(assets.take(i) =~= assets);
        lemma_total_positive(assets, period_start, period_end);
    } else {
        assert(assets.take(i) =~= assets.drop_last().take(i));
        lemma_total_nonneg(assets.drop_last(), period_start, period_end, i);
    }
}

proof fn lemma_total_positive(assets: Seq<FixedAsset>, period_start: Date, period_end: Date)
    ensures
        0 <= depreciation_total(assets, period_start, period_end),
    decreases assets.len(),
{
    if assets.len() > 0 {
        lemma_total_positive(assets.drop_last(), period_start, period_end);
    }
}

/// An asset still held in a period: not disposed of before it starts.
pub open spec fn active_in(a: FixedAsset, period_start: Date) -> bool {
    !disposed_before(terms_of(a), period_start)
}

/// The assets still held in a period, in their order.
pub open spec fn active_assets(assets: Seq<FixedAsset>, period_start: Date) -> Seq<FixedAsset> {
    assets.filter(|a: FixedAsset| active_in(a, period_start))
}

/// Assets disposed of before the period add nothing to its depreciation.
proof fn lemma_active_total(assets: Seq<FixedAsset>, period_start: Date, period_end: Date)
    ensures
        depreciation_total(active_assets(assets, period_start), period_start, period_end) == depreciation_total(
            assets,
            period_start,
            period_end,
        ),
    decreases assets.len(),
{
    if assets.len() > 0 {
        let init = assets.drop_last();
        let last = assets.last();
        lemma_active_total(init, period_start, period_end);
        init.lemma_filter_push(last, |a: FixedAsset| active_in(a, period_start));
        assert(init.push(last) =~= assets);
        if active_in(last, period_start) {
            assert(active_assets(assets, period_start).drop_last() =~= active_assets(init, period_start));
        }
    } else {
        assert(active_assets(assets, period_start) =~= assets);
    }
}

/// Whether the asset was disposed of before the period starts.
fn disposed_before_period(asset: &FixedAsset, period_start: &Date) -> (b: bool)
    ensures
        b == disposed_before(terms_of(*asset), *period_start),
{
    if asset.is_disposed {
        if let Some(dd) = &asset.disposal_date {
            if let Some(d) = parse_iso_date(dd.as_str()) {
                return d.lt(period_start);
            }
        }
    }
    false
}

/// Build the depreciation summary of a fiscal year (dates `fy_start` and
/// `fy_end`) for the company's active assets: one row per asset not disposed
/// of before the year, in their order.
pub fn depreciation_summary(fiscal_year_id: String, fy_start: &str, fy_end: &str, assets: &[FixedAsset]) -> (r:
    DepreciationSummary)
    requires
        summary_fits(assets@, fiscal_period(fy_start@, fy_end@).0, fiscal_period(fy_start@, fy_end@).1),
    ensures
        r.fiscal_year_id@ == fiscal_year_id@,
        row_views(r.assets@) == active_assets(assets@, fiscal_period(fy_start@, fy_end@).0).map_values(
            |a: FixedAsset|
                asset_row(a, fiscal_period(fy_start@, fy_end@).0, fiscal_period(fy_start@, fy_end@).1),
        ),
        r.total_depreciation@ == depreciation_total(
            active_assets(assets@, fiscal_period(fy_start@, fy_end@).0),
            fiscal_period(fy_start@, fy_end@).0,
            fiscal_period(fy_start@, fy_end@).1,
        ),
{
    let (period_start, period_end) = period_of(fy_start, fy_end);
    let ghost ps = period_start;
    let ghost pe = period_end;
    let mut rows: Vec<AssetDepreciation> = Vec::new();
    let mut total: i128 = 0;
    let mut i: usize = 0;
    while i < assets.len()
        invariant
            i <= assets@.len(),
            period_start.wf(),
            period_end.wf(),
            ps == period_start,
            pe == period_end,
            summary_fits(assets@, ps, pe),
            row_views(rows@) == active_assets(assets@.take(i as int), ps).map_values(
                |a: FixedAsset| asset_row(a, ps, pe),
            ),
            total == depreciation_total(assets@.take(i as int), ps, pe),
        decreases assets.len() - i,
    {
        let asset = &assets[i];
        let ghost t = terms_of(*asset);
        assert(assets@[i as int] == *asset);
        assert(assets@.take(i + 1).drop_last() =~= assets@.take(i as int));
        proof {
            lemma_total_nonneg(assets@, ps, pe, i + 1);
        }
        let dep_this_year = depreciation_for_period(asset, &period_start, &period_end);
        let dep_start = read_date_or(asset.depreciation_start_date.as_str(), period_start);
        let monthly = calculate_linear_depreciation(
            asset.acquisition_cost,
            asset.residual_value,
            asset.useful_life_months,
        );
        let total_months = months_between(&dep_start, &period_end);
        let max_dep = asset.acquisition_cost.sub(asset.residual_value).to_ore();
        let product = monthly.to_ore() * total_months as i64;
        let capped = if product < max_dep {
            product
        } else {
            max_dep
        };
        let accumulated = Money::from_ore(if capped > 0 { capped } else { 0 });
        let book_value = asset.acquisition_cost.sub(accumulated);
        total = total + dep_this_year.to_ore() as i128;
        let row = AssetDepreciation {
            asset_id: to_string(asset.id.as_str()),
            asset_name: to_string(asset.name.as_str()),
            asset_type: to_string(asset.asset_type.as_str()),
            acquisition_cost: asset.acquisition_cost,
            depreciation_this_year: dep_this_year,
            accumulated_depreciation: accumulated,
            book_value,
            expense_account: asset.expense_account,
            depreciation_account: asset.depreciation_account,
        };
        assert(row@ == asset_row(*asset, ps, pe));
        let keep = !disposed_before_period(asset, &period_start);
        let ghost before = rows@;
        let ghost pre = assets@.take(i as int);
        assert(assets@.take(i + 1) =~= pre.push(*asset));
        proof {
            pre.lemma_filter_push(*asset, |a: FixedAsset| active_in(a, ps));
        }
        if keep {
            rows.push(row);
            assert(active_assets(pre, ps).push(*asset).map_values(|a: FixedAsset| asset_row(a, ps, pe))
                =~= active_assets(pre, ps).map_values(|a: FixedAsset| asset_row(a, ps, pe)).push(
                asset_row(*asset, ps, pe),
            ));
            assert(row_views(rows@) =~= row_views(before).push(row@));
        }
        i += 1;
    }
    assert(assets@.take(assets@.len() as int) =~= assets@);
    proof {
        lemma_active_total(assets@, ps, pe);
    }
    DepreciationSummary { fiscal_year_id, assets: rows, total_depreciation: Money::from_ore(total as i64) }
}

/// A depreciation voucher to book: debit the expense account, credit the
/// accumulated depreciation account, with the same amount.
#[derive(Debug, Clone)]
pub struct DepreciationVoucher {
    pub description: String,
    pub expense_account: i32,
    pub depreciation_account: i32,
    pub amount: Money,
}

impl View for DepreciationVoucher {
    type V = (Seq<char>, i32, i32, int);

    open spec fn view(&self) -> (Seq<char>, i32, i32, int) {
        (self.description@, self.expense_account, self.depreciation_account, self.amount@)
    }
}

/// The vouchers for the rows with depreciation in the period, in order.
pub open spec fn depreciation_vouchers_of(rows: Seq<(Seq<char>, Seq<char>, Seq<char>, int, int, int, int, i32, i32)>) -> Seq<
    (Seq<char>, i32, i32, int),
>
    decreases rows.len(),
{
    if rows.len() == 0 {
        Seq::empty()
    } else {
        let rest = depreciation_vouchers_of(rows.drop_last());
        let r = rows.last();
        if r.4 != 0 {
            rest.push(("Avskrivning "@ + r.1, r.7, r.8, r.4))
        } else {
            rest
        }
    }
}

/// The sum of the amounts of some vouchers.
pub open spec fn voucher_amounts(vs: Seq<(Seq<char>, i32, i32, int)>) -> int
    decreases vs.len(),
{
    if vs.len() == 0 {
        0
    } else {
        voucher_amounts(vs.drop_last()) + vs.last().3
    }
}

/// The sum of the period's depreciation of some rows.
pub open spec fn row_total(rows: Seq<(Seq<char>, Seq<char>, Seq<char>, int, int, int, int, i32, i32)>) -> int
    decreases rows.len(),
{
    if rows.len() == 0 {
        0
    } else {
        row_total(rows.drop_last()) + rows.last().4
    }
}

/// Why the depreciation of a year cannot be booked: the year is closed.
#[derive(Debug, Clone, Copy, PartialEq, Eq, Structural)]
pub enum DepreciationRefusal {
    AlreadyClosed,
}

/// Plan the depreciation vouchers of a year from its summary: none when
/// nothing is to be depreciated; refused when the year is closed; else one
/// per asset with depreciation.
pub fn plan_depreciation_vouchers(summary: &DepreciationSummary, is_closed: bool) -> (r: Result<
    Vec<DepreciationVoucher>,
    DepreciationRefusal,
>)
    ensures
        summary.total_depreciation@ == 0 ==> (r matches Ok(v) && v@.len() == 0),
        summary.total_depreciation@ != 0 && is_closed ==> r == Err::<Vec<DepreciationVoucher>, DepreciationRefusal>(
            DepreciationRefusal::AlreadyClosed,
        ),
        summary.total_depreciation@ != 0 && !is_closed ==> (r matches Ok(v) && v@.map_values(
            |d: DepreciationVoucher| d@,
        ) == depreciation_vouchers_of(row_views(summary.assets@))),
{
    if summary.total_depreciation.is_zero() {
        return Ok(Vec::new());
    }
    if is_closed {
        return Err(DepreciationRefusal::AlreadyClosed);
    }
    let ghost rv = row_views(summary.assets@);
    let mut out: Vec<DepreciationVoucher> = Vec::new();
    let mut i: usize = 0;
    assert(out@.map_values(|d: DepreciationVoucher| d@) =~= depreciation_vouchers_of(rv.take(0)));
    while i < summary.assets.len()
        invariant
            i <= rv.len(),
            rv == row_views(summary.assets@),
            out@.map_values(|d: DepreciationVoucher| d@) == depreciation_vouchers_of(rv.take(i as int)),
        decreases summary.assets.len() - i,
    {
        let row = &summary.assets[i];
        assert(rv[i as int] == row@);
        assert(rv.take(i + 1).drop_last() =~= rv.take(i as int));
        if !row.depreciation_this_year.is_zero() {
            let mut description = String::new();
            push_str(&mut description, "Avskrivning ");
            push_str(&mut description, row.asset_name.as_str());
            assert(description@ =~= "Avskrivning "@ + row.asset_name@);
            let ghost before = out@;
            out.push(
                DepreciationVoucher {
                    description,
                    expense_account: row.expense_account,
                    depreciation_account: row.depreciation_account,
                    amount: row.depreciation_this_year,
                },
            );
            assert(out@.map_values(|d: DepreciationVoucher| d@) =~= before.map_values(
                |d: DepreciationVoucher| d@,
            ).push(("Avskrivning "@ + row.asset_name@, row.expense_account, row.depreciation_account, row.depreciation_this_year@)));
        }
        i += 1;
    }
    assert(rv.take(rv.len() as int) =~= rv);
    Ok(out)
}

/// The depreciation vouchers book the whole depreciation of the rows: their
/// amounts sum to the rows' total.
pub proof fn lemma_depreciation_vouchers_book_total(
    rows: Seq<(Seq<char>, Seq<char>, Seq<char>, int, int, int, int, i32, i32)>,
)
    ensures
        voucher_amounts(depreciation_vouchers_of(rows)) == row_total(rows),
    decreases rows.len(),
{
    if rows.len() > 0 {
        lemma_depreciation_vouchers_book_total(rows.drop_last());
        let rest = depreciation_vouchers_of(rows.drop_last());
        let r = rows.last();
        if r.4 != 0 {
            assert(rest.push(("Avskrivning "@ + r.1, r.7, r.8, r.4)).drop_last() =~= rest);
        }
    }
}

/// The text of the audit log entry of booked depreciation.
pub open spec fn depreciation_log_text(count: int, total: int) -> Seq<char> {
    "Generated "@ + int_text(count) + " depreciation vouchers, total: "@ + money_text(total)
}

/// The audit log entry for `count` depreciation vouchers of `total` in all.
pub fn depreciation_log_message(count: usize, total: Money) -> (s: String)
    requires
        count <= i64::MAX,
    ensures
        s@ == depreciation_log_text(count as int, total@),
{
    let mut s = String::new();
    push_str(&mut s, "Generated ");
    push_int(&mut s, count as i64);
    push_str(&mut s, " depreciation vouchers, total: ");
    total.push_text(&mut s);
    assert(s@ =~= depreciation_log_text(count as int, total@));
    s
}

/// The rows of a summary add up to its total.
pub proof fn lemma_rows_add_up(assets: Seq<FixedAsset>, period_start: Date, period_end: Date)
    ensures
        row_total(assets.map_values(|a: FixedAsset| asset_row(a, period_start, period_end)))
            == depreciation_total(assets, period_start, period_end),
    decreases assets.len(),
{
    if assets.len() > 0 {
        lemma_rows_add_up(assets.drop_last(), period_start, period_end);
        let f = |a: FixedAsset| asset_row(a, period_start, period_end);
        assert(assets.map_values(f).drop_last() =~= assets.drop_last().map_values(f));
    }
}

/// The depreciation of a period is never negative and never more than the
/// depreciable amount (acquisition cost less residual value).
pub proof fn lemma_period_depreciation_bounded(t: AssetTerms, period_start: Date, period_end: Date)
    ensures
        0 <= period_depreciation(t, period_start, period_end),
        period_depreciation(t, period_start, period_end) > 0 ==> period_depreciation(t, period_start, period_end)
            <= t.cost - t.residual,
{
    let monthly = monthly_depreciation(t.cost, t.residual, t.life);
    let mb = months_before(t, period_start);
    let months = months_in(t, period_start, period_end);
    assert(mb >= 0);
    if monthly > 0 {
        assert(monthly * mb >= 0) by (nonlinear_arith)
            requires
                monthly > 0,
                mb >= 0,
        ;
    } else if monthly < 0 && months > 0 {
        assert(monthly * months < 0) by (nonlinear_arith)
            requires
                monthly < 0,
                months > 0,
        ;
    }
}

/// In every row of a summary the accumulated depreciation lies between zero
/// and the depreciable amount (cost less residual value, when that is not
/// negative), and the book value is the cost less it, so never below the
/// residual value.
pub proof fn lemma_row_within_cost(a: FixedAsset, period_start: Date, period_end: Date)
    ensures
        0 <= asset_row(a, period_start, period_end).5,
        a.acquisition_cost@ >= a.residual_value@ ==> asset_row(a, period_start, period_end).5
            <= a.acquisition_cost@ - a.residual_value@,
        a.acquisition_cost@ < a.residual_value@ ==> asset_row(a, period_start, period_end).5 == 0,
        asset_row(a, period_start, period_end).6 == a.acquisition_cost@ - asset_row(a, period_start, period_end).5,
        a.acquisition_cost@ >= a.residual_value@ ==> asset_row(a, period_start, period_end).6
            >= a.residual_value@,
{
}

} // verus!
