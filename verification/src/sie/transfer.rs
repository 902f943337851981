//! Moving books in and out through SIE files: account types, amounts and
//! the records of an import or an export.
use vstd::prelude::*;
use crate::date::{date_text, date_to_string, Date};
use crate::ledger::AccountBalance;
use crate::models::account::Account;
use crate::models::voucher::{Voucher, VoucherLine};
use crate::money::{fits_i64, DecimalNumber, Money};
use crate::sie::syntax::{push_without_dashes, sie_compact_date};
use crate::sie::types::{
    clone_opt, opt_text, sie_type_text, SieAccount, SieFile, SieTransaction, SieTransactionView, SieType,
    SieVoucher, SieVoucherView,
};
use crate::text::{push_str, same_text, to_string};
use crate::validation::{account_type_from_number, account_type_of};

verus! {

/// The account type that an SIE type code (`#KTYP`) stands for: T asset,
/// S liability, K expense, I revenue; expense for anything else.
pub open spec fn internal_type_of(t: Seq<char>) -> Seq<char> {
    if t == "T"@ {
        "asset"@
    } else if t == "S"@ {
        "liability"@
    } else if t == "I"@ {
        "revenue"@
    } else {
        "expense"@
    }
}

/// Convert SIE account type (T/S/K/I) to internal type.
pub fn sie_account_type_to_internal(sie_type: &str) -> (r: String)
    ensures
        r@ == internal_type_of(sie_type@),
{
    if same_text(sie_type, "T") {
        to_string("asset")
    } else if same_text(sie_type, "S") {
        to_string("liability")
    } else if same_text(sie_type, "I") {
        to_string("revenue")
    } else {
        to_string("expense")
    }
}

/// The SIE type code of an account type: asset T, equity and liability S,
/// revenue I, expense and anything else K.
pub open spec fn sie_code_of(t: Seq<char>) -> Seq<char> {
    if t == "asset"@ {
        "T"@
    } else if t == "equity"@ || t == "liability"@ {
        "S"@
    } else if t == "revenue"@ {
        "I"@
    } else {
        "K"@
    }
}

/// Convert internal account type to SIE type code.
pub fn internal_type_to_sie(internal: &str) -> (r: &'static str)
    ensures
        r@ == sie_code_of(internal@),
{
    if same_text(internal, "asset") {
        "T"
    } else if same_text(internal, "equity") {
        "S"
    } else if same_text(internal, "liability") {
        "S"
    } else if same_text(internal, "revenue") {
        "I"
    } else {
        "K"
    }
}

/// The type an imported account gets: from its SIE type code when it has
/// one, else from its number.
pub fn import_account_type(acc: &SieAccount) -> (r: String)
    ensures
        r@ == (match acc.account_type {
            Some(t) => internal_type_of(t@),
            None => account_type_of(acc.number as int),
        }),
{
    match &acc.account_type {
        Some(t) => sie_account_type_to_internal(t.as_str()),
        None => to_string(account_type_from_number(acc.number)),
    }
}

/// The SIE types that can be exported, by their number: 1 and 4.
pub open spec fn export_type_of(s: Seq<char>) -> Option<SieType> {
    if s == "1"@ {
        Some(SieType::Type1)
    } else if s == "4"@ {
        Some(SieType::Type4)
    } else {
        None
    }
}

/// The SIE type asked for in an export; `None` for one other than 1 or 4.
pub fn export_type(s: &str) -> (r: Option<SieType>)
    ensures
        r == export_type_of(s@),
{
    if same_text(s, "1") {
        Some(SieType::Type1)
    } else if same_text(s, "4") {
        Some(SieType::Type4)
    } else {
        None
    }
}

/// The position of the first fiscal year of a file with index 0, the one
/// that an import books into.
pub fn import_fiscal_year(file: &SieFile) -> (r: Option<usize>)
    ensures
        match r {
            Some(i) => i < file.fiscal_years@.len() && file.fiscal_years@[i as int].index == 0 && forall|
                j: int,
            | 0 <= j < i ==> (#[trigger] file.fiscal_years@[j]).index != 0,
            None => forall|j: int|
                0 <= j < file.fiscal_years@.len() ==> (#[trigger] file.fiscal_years@[j]).index != 0,
        },
{
    let mut i: usize = 0;
    while i < file.fiscal_years.len()
        invariant
            i <= file.fiscal_years@.len(),
            forall|j: int| 0 <= j < i ==> (#[trigger] file.fiscal_years@[j]).index != 0,
        decreases file.fiscal_years.len() - i,
    {
        if file.fiscal_years[i].index == 0 {
            return Some(i);
        }
        i += 1;
    }
    None
}

/// The debit and the credit (öre) that an SIE amount books: a positive
/// amount (or zero) is a debit, a negative one a credit, each rounded to
/// öre half to even.
pub open spec fn line_amounts(amount: DecimalNumber) -> (int, int) {
    if amount.signed_mantissa() >= 0 {
        (amount.ore_value(), 0)
    } else {
        (0, DecimalNumber { negative: false, ..amount }.ore_value())
    }
}

/// Split a signed SIE amount into a debit and a credit in öre.
pub fn sie_line_amounts(amount: &DecimalNumber) -> (r: (i64, i64))
    requires
        amount.wf(),
        fits_i64(amount.ore_value()),
        fits_i64(DecimalNumber { negative: false, ..*amount }.ore_value()),
    ensures
        r.0 == line_amounts(*amount).0,
        r.1 == line_amounts(*amount).1,
{
    if amount.is_nonnegative() {
        (Money::new(*amount).to_ore(), 0)
    } else {
        (0, Money::new(amount.abs()).to_ore())
    }
}

/// The accounts of an export, as (number, name, SIE type code).
pub open spec fn export_account(a: Account) -> (i32, Seq<char>, Option<Seq<char>>) {
    (a.number, a.name@, Some(sie_code_of(a.account_type@)))
}

pub open spec fn builder_account(t: (i32, String, Option<String>)) -> (i32, Seq<char>, Option<Seq<char>>) {
    (t.0, t.1@, opt_text(t.2))
}

/// The accounts of a company as an SIE builder takes them.
pub fn export_accounts(accounts: &[Account]) -> (r: Vec<(i32, String, Option<String>)>)
    ensures
        r@.map_values(|t: (i32, String, Option<String>)| builder_account(t)) == accounts@.map_values(
            |a: Account| export_account(a),
        ),
{
    let mut r: Vec<(i32, String, Option<String>)> = Vec::new();
    let mut i: usize = 0;
    while i < accounts.len()
        invariant
            i <= accounts@.len(),
            r@.map_values(|t: (i32, String, Option<String>)| builder_account(t)) == accounts@.take(
                i as int,
            ).map_values(|a: Account| export_account(a)),
        decreases accounts.len() - i,
    {
        let a = &accounts[i];
        let entry = (a.number, to_string(a.name.as_str()), Some(to_string(internal_type_to_sie(a.account_type.as_str()))));
        let ghost before = r@;
        r.push(entry);
        assert(accounts@.take(i + 1) =~= accounts@.take(i as int).push(*a));
        assert(r@.map_values(|t: (i32, String, Option<String>)| builder_account(t)) =~= before.map_values(
            |t: (i32, String, Option<String>)| builder_account(t),
        ).push(builder_account(entry)));
        assert(accounts@.take(i + 1).map_values(|a: Account| export_account(a)) =~= accounts@.take(
            i as int,
        ).map_values(|a: Account| export_account(a)).push(export_account(*a)));
        i += 1;
    }
    assert(accounts@.take(accounts@.len() as int) =~= accounts@);
    r
}

/// An amount of öre as a decimal with two places (negative when below zero).
pub open spec fn ore_decimal(ore: int) -> DecimalNumber {
    DecimalNumber { negative: ore < 0, mantissa: (if ore < 0 { -ore } else { ore }) as u128, scale: 2 }
}

/// The signed balance, debit less credit, as a decimal with two places.
pub fn signed_amount(debit: Money, credit: Money) -> (d: DecimalNumber)
    requires
        fits_i64(debit@ - credit@),
        debit@ - credit@ > i64::MIN,
    ensures
        d == ore_decimal(debit@ - credit@),
        d.wf(),
{
    let net = debit.sub(credit);
    net.inner()
}

/// The closing balance of each account, debit less credit, as an SIE
/// builder takes them.
pub fn closing_balance_entries(rows: &[AccountBalance]) -> (r: Vec<(i32, DecimalNumber)>)
    requires
        forall|i: int|
            0 <= i < rows@.len() ==> fits_i64((#[trigger] rows@[i]).total_debit@ - rows@[i].total_credit@)
                && rows@[i].total_debit@ - rows@[i].total_credit@ > i64::MIN,
    ensures
        r@.len() == rows@.len(),
        forall|i: int|
            0 <= i < rows@.len() ==> (#[trigger] r@[i]) == (rows@[i].account_number, ore_decimal(
                rows@[i].total_debit@ - rows@[i].total_credit@,
            )),
{
    let mut r: Vec<(i32, DecimalNumber)> = Vec::new();
    let mut i: usize = 0;
    while i < rows.len()
        invariant
            i <= rows@.len(),
            r@.len() == i,
            forall|k: int|
                0 <= k < rows@.len() ==> fits_i64((#[trigger] rows@[k]).total_debit@ - rows@[k].total_credit@)
                    && rows@[k].total_debit@ - rows@[k].total_credit@ > i64::MIN,
            forall|k: int|
                0 <= k < i ==> (#[trigger] r@[k]) == (rows@[k].account_number, ore_decimal(
                    rows@[k].total_debit@ - rows@[k].total_credit@,
                )),
        decreases rows.len() - i,
    {
        let row = rows[i];
        assert(rows@[i as int] == row);
        r.push((row.account_number, signed_amount(row.total_debit, row.total_credit)));
        i += 1;
    }
    r
}

/// The SIE transaction of a voucher line: its account, debit less credit,
/// no date, its description.
pub open spec fn transaction_of(l: VoucherLine) -> SieTransactionView {
    SieTransactionView {
        account_number: l.account_number,
        amount: ore_decimal(l.debit@ - l.credit@),
        date: None,
        description: opt_text(l.description),
    }
}

/// The SIE voucher of a booked voucher: series A, its number, date, text and lines.
pub open spec fn sie_voucher_view(v: Voucher, lines: Seq<VoucherLine>) -> SieVoucherView {
    SieVoucherView {
        series: "A"@,
        number: Some(v.voucher_number),
        date: v.date@,
        description: v.description@,
        lines: lines.map_values(|l: VoucherLine| transaction_of(l)),
    }
}

/// The SIE voucher of a booked voucher and its lines.
pub fn sie_voucher_of(v: &Voucher, lines: &[VoucherLine]) -> (r: SieVoucher)
    requires
        forall|i: int|
            0 <= i < lines@.len() ==> fits_i64((#[trigger] lines@[i]).debit@ - lines@[i].credit@)
                && lines@[i].debit@ - lines@[i].credit@ > i64::MIN,
    ensures
        r@ == sie_voucher_view(*v, lines@),
{
    let mut ts: Vec<SieTransaction> = Vec::new();
    let mut i: usize = 0;
    while i < lines.len()
        invariant
            i <= lines@.len(),
            forall|k: int|
                0 <= k < lines@.len() ==> fits_i64((#[trigger] lines@[k]).debit@ - lines@[k].credit@)
                    && lines@[k].debit@ - lines@[k].credit@ > i64::MIN,
            ts@.map_values(|t: SieTransaction| t@) == lines@.take(i as int).map_values(
                |l: VoucherLine| transaction_of(l),
            ),
        decreases lines.len() - i,
    {
        let l = &lines[i];
        assert(lines@[i as int] == *l);
        let t = SieTransaction {
            account_number: l.account_number,
            amount: signed_amount(l.debit, l.credit),
            date: None,
            description: clone_opt(&l.description),
        };
        assert(t@ == transaction_of(*l));
        let ghost before = ts@;
        ts.push(t);
        assert(lines@.take(i + 1) =~= lines@.take(i as int).push(*l));
        assert(ts@.map_values(|t: SieTransaction| t@) =~= before.map_values(|t: SieTransaction| t@).push(t@));
        assert(lines@.take(i + 1).map_values(|l: VoucherLine| transaction_of(l)) =~= lines@.take(
            i as int,
        ).map_values(|l: VoucherLine| transaction_of(l)).push(transaction_of(*l)));
        i += 1;
    }
    assert(lines@.take(lines@.len() as int) =~= lines@);
    let r = SieVoucher {
        series: to_string("A"),
        number: Some(v.voucher_number),
        date: to_string(v.date.as_str()),
        description: to_string(v.description.as_str()),
        lines: ts,
    };
    assert(r@.lines =~= lines@.map_values(|l: VoucherLine| transaction_of(l)));
    r
}

/// The name of an exported file: `balans_sie<type>_<YYYYMMDD>.se`.
pub open spec fn export_filename_text(t: SieType, today: Date) -> Seq<char> {
    "balans_sie"@ + sie_type_text(t) + "_"@ + sie_compact_date(date_text(today)) + ".se"@
}

/// The name of a file exported on `today`.
pub fn export_filename(t: SieType, today: Date) -> (s: String)
    requires
        today.wf(),
    ensures
        s@ == export_filename_text(t, today),
{
    let mut s = String::new();
    push_str(&mut s, "balans_sie");
    push_str(&mut s, t.as_str());
    push_str(&mut s, "_");
    let d = date_to_string(today);
    push_without_dashes(&mut s, d.as_str());
    push_str(&mut s, ".se");
    assert(s@ =~= export_filename_text(t, today));
    s
}

} // verus!
