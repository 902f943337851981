//! Writing SIE files.
use vstd::prelude::*;
use crate::date::{date_text, date_to_string, Date};
use chrono::Datelike;
use crate::money::{decimal_text, push_decimal, DecimalNumber};
use crate::sie::encoding::{encode_to_latin1, latin1_bytes};
use crate::sie::syntax::{push_without_dashes, sie_compact_date};
use crate::sie::types::{
    clone_opt, opt_text, sie_type_text, BalanceType, SieAccount, SieAccountView, SieBalance, SieFile,
    SieFileView, SieFiscalYear, SieFiscalYearView, SieTransaction, SieTransactionView, SieType,
    SieVoucher, SieVoucherView,
};
use crate::text::{int_text, push_char, push_int, push_str, to_string};

verus! {

/// The version that `#PROGRAM` names.
pub const PROGRAM_VERSION: &'static str = "0.1.0";

pub open spec fn nl() -> Seq<char> {
    seq!['\n']
}

pub open spec fn quoted(s: Seq<char>) -> Seq<char> {
    seq!['"'] + s + seq!['"']
}

pub open spec fn rar_text(fy: SieFiscalYearView) -> Seq<char> {
    "#RAR "@ + int_text(fy.index as int) + " "@ + sie_compact_date(fy.start_date) + " "@ + sie_compact_date(
        fy.end_date,
    ) + nl()
}

pub open spec fn account_text(a: SieAccountView) -> Seq<char> {
    let konto = "#KONTO "@ + int_text(a.number as int) + " "@ + quoted(a.name) + nl();
    match a.account_type {
        Some(t) => konto + "#KTYP "@ + int_text(a.number as int) + " "@ + t + nl(),
        None => konto,
    }
}

pub open spec fn balance_text(b: SieBalance) -> Seq<char> {
    let tag = match b.balance_type {
        BalanceType::Opening => "#IB"@,
        BalanceType::Closing => "#UB"@,
    };
    tag + " "@ + int_text(b.year_index as int) + " "@ + int_text(b.account_number as int) + " "@
        + decimal_text(b.amount) + nl()
}

/// A transaction line: account, empty dimension list and amount, then the
/// date (an empty `""` one where only a text follows) and the text.
pub open spec fn trans_text(t: SieTransactionView) -> Seq<char> {
    let base = "\t#TRANS "@ + int_text(t.account_number as int) + " {} "@ + decimal_text(t.amount);
    let with_date = match t.date {
        Some(d) => base + " "@ + sie_compact_date(d),
        None => if t.description is Some {
            base + " "@ + quoted(Seq::empty())
        } else {
            base
        },
    };
    let with_desc = match t.description {
        Some(d) => with_date + " "@ + quoted(d),
        None => with_date,
    };
    with_desc + nl()
}

pub open spec fn lines_text(ts: Seq<SieTransactionView>) -> Seq<char>
    decreases ts.len(),
{
    if ts.len() == 0 {
        Seq::empty()
    } else {
        lines_text(ts.drop_last()) + trans_text(ts.last())
    }
}

pub open spec fn voucher_text(v: SieVoucherView) -> Seq<char> {
    let num = match v.number {
        Some(n) => int_text(n as int),
        None => Seq::empty(),
    };
    "#VER "@ + v.series + " "@ + num + " "@ + sie_compact_date(v.date) + " "@ + quoted(v.description) + nl()
        + "{"@ + nl() + lines_text(v.lines) + "}"@ + nl()
}

pub open spec fn fiscal_years_text(fs: Seq<SieFiscalYearView>) -> Seq<char>
    decreases fs.len(),
{
    if fs.len() == 0 {
        Seq::empty()
    } else {
        fiscal_years_text(fs.drop_last()) + rar_text(fs.last())
    }
}

pub open spec fn accounts_text(accs: Seq<SieAccountView>) -> Seq<char>
    decreases accs.len(),
{
    if accs.len() == 0 {
        Seq::empty()
    } else {
        accounts_text(accs.drop_last()) + account_text(accs.last())
    }
}

pub open spec fn balances_text(bs: Seq<SieBalance>) -> Seq<char>
    decreases bs.len(),
{
    if bs.len() == 0 {
        Seq::empty()
    } else {
        balances_text(bs.drop_last()) + balance_text(bs.last())
    }
}

pub open spec fn vouchers_text(vs: Seq<SieVoucherView>) -> Seq<char>
    decreases vs.len(),
{
    if vs.len() == 0 {
        Seq::empty()
    } else {
        vouchers_text(vs.drop_last()) + voucher_text(vs.last())
    }
}

pub open spec fn program_line(f: SieFileView) -> Seq<char> {
    match f.program {
        Some(p) => "#PROGRAM "@ + quoted(p) + " "@ + quoted(
            match f.program_version {
                Some(v) => v,
                None => "1.0"@,
            },
        ) + nl(),
        None => Seq::empty(),
    }
}

pub open spec fn gen_line(f: SieFileView) -> Seq<char> {
    match f.gen_date {
        Some(d) => "#GEN "@ + sie_compact_date(d) + nl(),
        None => Seq::empty(),
    }
}

pub open spec fn name_line(f: SieFileView) -> Seq<char> {
    match f.company_name {
        Some(n) => "#FNAMN "@ + quoted(n) + nl(),
        None => Seq::empty(),
    }
}

pub open spec fn org_line(f: SieFileView) -> Seq<char> {
    match f.org_number {
        Some(o) => "#ORGNR "@ + o + nl(),
        None => Seq::empty(),
    }
}

/// The header lines: flags, format, type and the optional program, date, name and number.
pub open spec fn header_text(f: SieFileView) -> Seq<char> {
    "#FLAGGA 0"@ + nl() + "#FORMAT PC8"@ + nl() + "#SIETYP "@ + sie_type_text(f.sie_type) + nl()
        + program_line(f) + gen_line(f) + name_line(f) + org_line(f)
}

/// The text of a SIE file: header, fiscal years, accounts, balances, and for
/// Type 4 the vouchers.
pub open spec fn sie_file_text(f: SieFileView) -> Seq<char> {
    header_text(f) + fiscal_years_text(f.fiscal_years) + accounts_text(f.accounts) + balances_text(
        f.balances,
    ) + if f.sie_type == SieType::Type4 {
        vouchers_text(f.vouchers)
    } else {
        Seq::empty()
    }
}

/// Every amount of the file respects the bounds of `Decimal`.
pub open spec fn amounts_wf(f: SieFileView) -> bool {
    &&& forall|i: int| 0 <= i < f.balances.len() ==> (#[trigger] f.balances[i]).amount.wf()
    &&& forall|i: int, j: int|
        0 <= i < f.vouchers.len() && 0 <= j < f.vouchers[i].lines.len() ==> (
        #[trigger] f.vouchers[i].lines[j]).amount.wf()
}

fn push_quoted(out: &mut String, s: &str)
    ensures
        final(out)@ == old(out)@ + quoted(s@),
{
    push_char(out, '"');
    push_str(out, s);
    push_char(out, '"');
    assert(final(out)@ =~= old(out)@ + quoted(s@));
}

fn push_nl(out: &mut String)
    ensures
        final(out)@ == old(out)@ + nl(),
{
    push_char(out, '\n');
    assert(final(out)@ =~= old(out)@ + nl());
}

fn write_program(out: &mut String, file: &SieFile)
    ensures
        final(out)@ == old(out)@ + program_line(file@),
{
    if let Some(program) = &file.program {
        push_str(out, "#PROGRAM ");
        push_quoted(out, program.as_str());
        push_str(out, " ");
        match &file.program_version {
            Some(v) => push_quoted(out, v.as_str()),
            None => push_quoted(out, "1.0"),
        }
        push_nl(out);
    }
    assert(final(out)@ =~= old(out)@ + program_line(file@));
}

fn write_gen(out: &mut String, file: &SieFile)
    ensures
        final(out)@ == old(out)@ + gen_line(file@),
{
    if let Some(date) = &file.gen_date {
        push_str(out, "#GEN ");
        push_without_dashes(out, date.as_str());
        push_nl(out);
    }
    assert(final(out)@ =~= old(out)@ + gen_line(file@));
}

fn write_name_and_org(out: &mut String, file: &SieFile)
    ensures
        final(out)@ == old(out)@ + name_line(file@) + org_line(file@),
{
    let ghost base = old(out)@;
    if let Some(name) = &file.company_name {
        push_str(out, "#FNAMN ");
        push_quoted(out, name.as_str());
        push_nl(out);
    }
    assert(out@ =~= base + name_line(file@));
    if let Some(org) = &file.org_number {
        push_str(out, "#ORGNR ");
        push_str(out, org.as_str());
        push_nl(out);
    }
    assert(out@ =~= base + name_line(file@) + org_line(file@));
}

fn write_header(out: &mut String, file: &SieFile)
    ensures
        final(out)@ == old(out)@ + header_text(file@),
{
    let ghost base = old(out)@;
    push_str(out, "#FLAGGA 0");
    push_nl(out);
    push_str(out, "#FORMAT PC8");
    push_nl(out);
    push_str(out, "#SIETYP ");
    push_str(out, file.sie_type.as_str());
    push_nl(out);
    let ghost h0 = "#FLAGGA 0"@ + nl() + "#FORMAT PC8"@ + nl() + "#SIETYP "@ + sie_type_text(file.sie_type) + nl();
    assert(out@ =~= base + h0);
    write_program(out, file);
    write_gen(out, file);
    write_name_and_org(out, file);
    assert(out@ =~= base + header_text(file@));
}

fn write_rar(out: &mut String, fy: &SieFiscalYear)
    ensures
        final(out)@ == old(out)@ + rar_text(fy@),
{
    push_str(out, "#RAR ");
    push_int(out, fy.index as i64);
    push_str(out, " ");
    push_without_dashes(out, fy.start_date.as_str());
    push_str(out, " ");
    push_without_dashes(out, fy.end_date.as_str());
    push_nl(out);
    assert(final(out)@ =~= old(out)@ + rar_text(fy@));
}

fn write_account(out: &mut String, acc: &SieAccount)
    ensures
        final(out)@ == old(out)@ + account_text(acc@),
{
    let ghost base = old(out)@;
    push_str(out, "#KONTO ");
    push_int(out, acc.number as i64);
    push_str(out, " ");
    push_quoted(out, acc.name.as_str());
    push_nl(out);
    let ghost konto = "#KONTO "@ + int_text(acc.number as int) + " "@ + quoted(acc.name@) + nl();
    assert(out@ =~= base + konto);
    if let Some(atype) = &acc.account_type {
        push_str(out, "#KTYP ");
        push_int(out, acc.number as i64);
        push_str(out, " ");
        push_str(out, atype.as_str());
        push_nl(out);
    }
    assert(out@ =~= base + account_text(acc@));
}

fn write_balance(out: &mut String, bal: &SieBalance)
    requires
        bal.amount.wf(),
    ensures
        final(out)@ == old(out)@ + balance_text(*bal),
{
    match bal.balance_type {
        BalanceType::Opening => push_str(out, "#IB"),
        BalanceType::Closing => push_str(out, "#UB"),
    }
    push_str(out, " ");
    push_int(out, bal.year_index as i64);
    push_str(out, " ");
    push_int(out, bal.account_number as i64);
    push_str(out, " ");
    push_decimal(out, &bal.amount);
    push_nl(out);
    assert(final(out)@ =~= old(out)@ + balance_text(*bal));
}

fn write_trans(out: &mut String, t: &SieTransaction)
    requires
        t.amount.wf(),
    ensures
        final(out)@ == old(out)@ + trans_text(t@),
{
    let ghost base = old(out)@;
    push_str(out, "\t#TRANS ");
    push_int(out, t.account_number as i64);
    push_str(out, " {} ");
    push_decimal(out, &t.amount);
    let ghost b0 = "\t#TRANS "@ + int_text(t.account_number as int) + " {} "@ + decimal_text(t.amount);
    assert(out@ =~= base + b0);
    match &t.date {
        Some(date) => {
            push_str(out, " ");
            push_without_dashes(out, date.as_str());
        },
        None => {
            if t.description.is_some() {
                push_str(out, " ");
                push_quoted(out, "");
                proof {
                    reveal_strlit("");
                }
            }
        },
    }
    let ghost b1 = match t@.date {
        Some(d) => b0 + " "@ + sie_compact_date(d),
        None => if t@.description is Some {
            b0 + " "@ + quoted(Seq::empty())
        } else {
            b0
        },
    };
    assert(out@ =~= base + b1);
    if let Some(desc) = &t.description {
        push_str(out, " ");
        push_quoted(out, desc.as_str());
    }
    push_nl(out);
    assert(out@ =~= base + trans_text(t@));
}

fn write_voucher(out: &mut String, v: &SieVoucher)
    requires
        forall|j: int| 0 <= j < v@.lines.len() ==> (#[trigger] v@.lines[j]).amount.wf(),
    ensures
        final(out)@ == old(out)@ + voucher_text(v@),
{
    let ghost base = old(out)@;
    push_str(out, "#VER ");
    push_str(out, v.series.as_str());
    push_str(out, " ");
    if let Some(n) = v.number {
        push_int(out, n as i64);
    }
    push_str(out, " ");
    push_without_dashes(out, v.date.as_str());
    push_str(out, " ");
    push_quoted(out, v.description.as_str());
    push_nl(out);
    push_str(out, "{");
    push_nl(out);
    let ghost num = match v.number {
        Some(n) => int_text(n as int),
        None => Seq::<char>::empty(),
    };
    let ghost head = "#VER "@ + v.series@ + " "@ + num + " "@ + sie_compact_date(v.date@) + " "@ + quoted(
        v.description@,
    ) + nl() + "{"@ + nl();
    assert(out@ =~= base + head);
    let ghost ts = v@.lines;
    let mut i: usize = 0;
    while i < v.lines.len()
        invariant
            i <= v.lines@.len(),
            ts == v@.lines,
            ts.len() == v.lines@.len(),
            forall|j: int| 0 <= j < ts.len() ==> (#[trigger] ts[j]).amount.wf(),
            out@ == base + head + lines_text(ts.take(i as int)),
        decreases v.lines.len() - i,
    {
        assert(ts[i as int] == v.lines@[i as int]@);
        assert(ts[i as int].amount.wf());
        write_trans(out, &v.lines[i]);
        assert(ts.take(i + 1).drop_last() =~= ts.take(i as int));
        i += 1;
    }
    assert(ts.take(ts.len() as int) =~= ts);
    push_str(out, "}");
    push_nl(out);
    assert(out@ =~= base + voucher_text(v@));
}

/// Write a SIE file to a UTF-8 string (for testing/debugging).
pub fn write_sie_string(file: &SieFile) -> (out: String)
    requires
        amounts_wf(file@),
    ensures
        out@ == sie_file_text(file@),
{
    let mut out = String::new();
    write_header(&mut out, file);
    let ghost head = header_text(file@);
    assert(out@ =~= head);
    let ghost fys = file@.fiscal_years;
    let mut i: usize = 0;
    while i < file.fiscal_years.len()
        invariant
            i <= file.fiscal_years@.len(),
            fys == file@.fiscal_years,
            out@ == head + fiscal_years_text(fys.take(i as int)),
        decreases file.fiscal_years.len() - i,
    {
        write_rar(&mut out, &file.fiscal_years[i]);
        assert(fys.take(i + 1).drop_last() =~= fys.take(i as int));
        i += 1;
    }
    assert(fys.take(fys.len() as int) =~= fys);
    let ghost p1 = head + fiscal_years_text(fys);
    let ghost accs = file@.accounts;
    let mut i: usize = 0;
    while i < file.accounts.len()
        invariant
            i <= file.accounts@.len(),
            accs == file@.accounts,
            out@ == p1 + accounts_text(accs.take(i as int)),
        decreases file.accounts.len() - i,
    {
        write_account(&mut out, &file.accounts[i]);
        assert(accs.take(i + 1).drop_last() =~= accs.take(i as int));
        i += 1;
    }
    assert(accs.take(accs.len() as int) =~= accs);
    let ghost p2 = p1 + accounts_text(accs);
    let ghost bs = file@.balances;
    let mut i: usize = 0;
    while i < file.balances.len()
        invariant
            i <= file.balances@.len(),
            bs == file@.balances,
            amounts_wf(file@),
            out@ == p2 + balances_text(bs.take(i as int)),
        decreases file.balances.len() - i,
    {
        assert(bs[i as int].amount.wf());
        write_balance(&mut out, &file.balances[i]);
        assert(bs.take(i + 1).drop_last() =~= bs.take(i as int));
        i += 1;
    }
    assert(bs.take(bs.len() as int) =~= bs);
    let ghost p3 = p2 + balances_text(bs);
    // Vouchers (only for Type 4)
    if file.sie_type == SieType::Type4 {
        let ghost vs = file@.vouchers;
        let mut i: usize = 0;
        while i < file.vouchers.len()
            invariant
                i <= file.vouchers@.len(),
                vs == file@.vouchers,
                amounts_wf(file@),
                out@ == p3 + vouchers_text(vs.take(i as int)),
            decreases file.vouchers.len() - i,
        {
            assert forall|j: int| 0 <= j < file.vouchers@[i as int]@.lines.len() implies (
            #[trigger] file.vouchers@[i as int]@.lines[j]).amount.wf() by {
                assert(vs[i as int] == file.vouchers@[i as int]@);
                assert(vs[i as int].lines[j].amount.wf());
            }
            write_voucher(&mut out, &file.vouchers[i]);
            assert(vs.take(i + 1).drop_last() =~= vs.take(i as int));
            i += 1;
        }
        assert(vs.take(vs.len() as int) =~= vs);
    }
    assert(out@ =~= sie_file_text(file@));
    out
}

/// Write a SIE file to bytes (Latin-1 encoded).
pub fn write_sie(file: &SieFile) -> (r: Vec<u8>)
    requires
        amounts_wf(file@),
    ensures
        r@ == latin1_bytes(sie_file_text(file@)),
{
    let content = write_sie_string(file);
    encode_to_latin1(content.as_str())
}

/// The account of a builder's `(number, name, type)` entry.
pub open spec fn account_entry(a: (i32, String, Option<String>)) -> SieAccountView {
    SieAccountView { number: a.0, name: a.1@, account_type: opt_text(a.2) }
}

/// The balances of the given kind for the fiscal year 0, one per entry whose
/// amount is not zero, in the order of the entries.
pub open spec fn nonzero_balances(bs: Seq<(i32, DecimalNumber)>, kind: BalanceType) -> Seq<SieBalance>
    decreases bs.len(),
{
    if bs.len() == 0 {
        Seq::empty()
    } else {
        let rest = nonzero_balances(bs.drop_last(), kind);
        let e = bs.last();
        if e.1.mantissa == 0 {
            rest
        } else {
            rest.push(SieBalance { balance_type: kind, year_index: 0, account_number: e.0, amount: e.1 })
        }
    }
}

/// The file that a builder makes: program "Balans" of this version, the
/// generation date, the company, one fiscal year with index 0, the accounts,
/// balances and vouchers given.
pub open spec fn built_file(
    sie_type: SieType,
    gen_date: Seq<char>,
    company_name: Seq<char>,
    org_number: Seq<char>,
    start: Seq<char>,
    end: Seq<char>,
    accounts: Seq<(i32, String, Option<String>)>,
    balances: Seq<SieBalance>,
    vouchers: Seq<SieVoucherView>,
) -> SieFileView {
    SieFileView {
        sie_type,
        program: Some("Balans"@),
        program_version: Some(PROGRAM_VERSION@),
        gen_date: Some(gen_date),
        company_name: Some(company_name),
        org_number: Some(org_number),
        fiscal_years: seq![SieFiscalYearView { index: 0, start_date: start, end_date: end }],
        accounts: accounts.map_values(|a: (i32, String, Option<String>)| account_entry(a)),
        balances,
        vouchers,
    }
}

/// Today's date in UTC, from `chrono::Utc::now()`.
///
/// Trusted: the result is a real calendar date in the range of `NaiveDate`;
/// which date it is depends on the clock and is not stated. `Utc::now`
/// panics where the system clock reads before 1970.
#[verifier::external_body]
fn utc_today() -> (d: Date)
    ensures
        d.wf(),
{
    let t = chrono::Utc::now().date_naive();
    Date { year: t.year(), month: t.month(), day: t.day() }
}

/// Today's date as `YYYY-MM-DD`.
fn today_text() -> (s: String)
    ensures
        exists|d: Date| d.wf() && s@ == date_text(d),
{
    let d = utc_today();
    date_to_string(d)
}

fn push_accounts(file: &mut SieFile, accounts: &Vec<(i32, String, Option<String>)>)
    requires
        old(file)@.accounts.len() == 0,
    ensures
        final(file)@ == (SieFileView {
            accounts: accounts@.map_values(|a: (i32, String, Option<String>)| account_entry(a)),
            ..old(file)@
        }),
{
    let ghost start = old(file)@;
    assert(accounts@.take(0).map_values(|a: (i32, String, Option<String>)| account_entry(a))
        =~= start.accounts);
    let mut i: usize = 0;
    while i < accounts.len()
        invariant
            i <= accounts@.len(),
            start.accounts.len() == 0,
            file@ == (SieFileView {
                accounts: accounts@.take(i as int).map_values(
                    |a: (i32, String, Option<String>)| account_entry(a),
                ),
                ..start
            }),
        decreases accounts.len() - i,
    {
        let entry = &accounts[i];
        let acc = SieAccount {
            number: entry.0,
            name: to_string(entry.1.as_str()),
            account_type: clone_opt(&entry.2),
        };
        assert(acc@ == account_entry(accounts@[i as int]));
        let ghost before = file.accounts@;
        file.accounts.push(acc);
        proof {
            assert(accounts@.take(i + 1) =~= accounts@.take(i as int).push(accounts@[i as int]));
            assert(file.accounts@.map_values(|a: SieAccount| a@) =~= before.map_values(
                |a: SieAccount| a@,
            ).push(acc@));
            assert(accounts@.take(i + 1).map_values(|a: (i32, String, Option<String>)| account_entry(a))
                =~= accounts@.take(i as int).map_values(
                |a: (i32, String, Option<String>)| account_entry(a),
            ).push(account_entry(accounts@[i as int])));
            assert(file.accounts@ == before.push(acc));
            assert(file@.accounts =~= accounts@.take(i + 1).map_values(
                |a: (i32, String, Option<String>)| account_entry(a),
            ));
            assert(file@.fiscal_years =~= start.fiscal_years);
            assert(file@.vouchers =~= start.vouchers);
        }
        i += 1;
    }
    assert(accounts@.take(accounts@.len() as int) =~= accounts@);
}

fn push_balances(file: &mut SieFile, entries: &Vec<(i32, DecimalNumber)>, kind: BalanceType)
    ensures
        final(file)@ == (SieFileView {
            balances: old(file)@.balances + nonzero_balances(entries@, kind),
            ..old(file)@
        }),
{
    let ghost start = old(file)@;
    let mut i: usize = 0;
    while i < entries.len()
        invariant
            i <= entries@.len(),
            file@ == (SieFileView {
                balances: start.balances + nonzero_balances(entries@.take(i as int), kind),
                ..start
            }),
        decreases entries.len() - i,
    {
        let (number, amount) = entries[i];
        assert(entries@.take(i + 1).drop_last() =~= entries@.take(i as int));
        if !amount.is_zero() {
            file.balances.push(
                SieBalance { balance_type: kind, year_index: 0, account_number: number, amount },
            );
        }
        proof {
            assert(file@.balances =~= start.balances + nonzero_balances(entries@.take(i + 1), kind));
            assert(file@.fiscal_years =~= start.fiscal_years);
            assert(file@.accounts =~= start.accounts);
            assert(file@.vouchers =~= start.vouchers);
        }
        i += 1;
    }
    assert(entries@.take(entries@.len() as int) =~= entries@);
}

fn start_file(
    sie_type: SieType,
    gen_date: String,
    company_name: String,
    org_number: String,
    start: String,
    end: String,
) -> (f: SieFile)
    ensures
        f@ == built_file(
            sie_type,
            gen_date@,
            company_name@,
            org_number@,
            start@,
            end@,
            Seq::empty(),
            Seq::empty(),
            Seq::empty(),
        ),
{
    let mut file = SieFile::new(sie_type);
    file.program = Some(to_string("Balans"));
    file.program_version = Some(to_string(PROGRAM_VERSION));
    file.gen_date = Some(gen_date);
    file.company_name = Some(company_name);
    file.org_number = Some(org_number);
    let fy = SieFiscalYear { index: 0, start_date: start, end_date: end };
    file.fiscal_years.push(fy);
    proof {
        let want = built_file(
            sie_type,
            gen_date@,
            company_name@,
            org_number@,
            start@,
            end@,
            Seq::empty(),
            Seq::empty(),
            Seq::empty(),
        );
        assert(file@.fiscal_years =~= want.fiscal_years);
        assert(file@.accounts =~= want.accounts);
        assert(file@.vouchers =~= want.vouchers);
    }
    file
}

/// Build a SIE Type 1 file (year-end balances only) from database data.
pub struct SieType1Builder {
    pub company_name: String,
    pub org_number: String,
    pub fiscal_year_start: String,
    pub fiscal_year_end: String,
    pub accounts: Vec<(i32, String, Option<String>)>,
    pub closing_balances: Vec<(i32, DecimalNumber)>,
}

/// The Type 1 file of a builder, generated on the given date.
pub open spec fn type1_file(b: SieType1Builder, gen_date: Seq<char>) -> SieFileView {
    built_file(
        SieType::Type1,
        gen_date,
        b.company_name@,
        b.org_number@,
        b.fiscal_year_start@,
        b.fiscal_year_end@,
        b.accounts@,
        nonzero_balances(b.closing_balances@, BalanceType::Closing),
        Seq::empty(),
    )
}

impl SieType1Builder {
    /// The file, with `gen_date` (`YYYY-MM-DD`) as its generation date.
    pub fn build_with_date(self, gen_date: String) -> (f: SieFile)
        ensures
            f@ == type1_file(self, gen_date@),
    {
        let mut file = start_file(
            SieType::Type1,
            gen_date,
            self.company_name,
            self.org_number,
            self.fiscal_year_start,
            self.fiscal_year_end,
        );
        push_accounts(&mut file, &self.accounts);
        push_balances(&mut file, &self.closing_balances, BalanceType::Closing);
        assert(file@.balances =~= nonzero_balances(self.closing_balances@, BalanceType::Closing));
        file
    }

    /// The file, generated today.
    pub fn build(self) -> (f: SieFile)
        ensures
            exists|d: Date| d.wf() && f@ == type1_file(self, date_text(d)),
    {
        let today = today_text();
        let ghost b = self;
        let f = self.build_with_date(today);
        let ghost d = choose|d: Date| d.wf() && today@ == date_text(d);
        assert(f@ == type1_file(b, date_text(d)));
        f
    }
}

/// Build a SIE Type 4 file (full transactions) from database data.
pub struct SieType4Builder {
    pub company_name: String,
    pub org_number: String,
    pub fiscal_year_start: String,
    pub fiscal_year_end: String,
    pub accounts: Vec<(i32, String, Option<String>)>,
    pub opening_balances: Vec<(i32, DecimalNumber)>,
    pub closing_balances: Vec<(i32, DecimalNumber)>,
    pub vouchers: Vec<SieVoucher>,
}

/// The Type 4 file of a builder, generated on the given date: the opening
/// balances come before the closing ones.
pub open spec fn type4_file(b: SieType4Builder, gen_date: Seq<char>) -> SieFileView {
    built_file(
        SieType::Type4,
        gen_date,
        b.company_name@,
        b.org_number@,
        b.fiscal_year_start@,
        b.fiscal_year_end@,
        b.accounts@,
        nonzero_balances(b.opening_balances@, BalanceType::Opening) + nonzero_balances(
            b.closing_balances@,
            BalanceType::Closing,
        ),
        b.vouchers@.map_values(|v: SieVoucher| v@),
    )
}

impl SieType4Builder {
    /// The file, with `gen_date` (`YYYY-MM-DD`) as its generation date.
    pub fn build_with_date(self, gen_date: String) -> (f: SieFile)
        ensures
            f@ == type4_file(self, gen_date@),
    {
        let mut file = start_file(
            SieType::Type4,
            gen_date,
            self.company_name,
            self.org_number,
            self.fiscal_year_start,
            self.fiscal_year_end,
        );
        push_accounts(&mut file, &self.accounts);
        push_balances(&mut file, &self.opening_balances, BalanceType::Opening);
        push_balances(&mut file, &self.closing_balances, BalanceType::Closing);
        assert(file@.balances =~= nonzero_balances(self.opening_balances@, BalanceType::Opening)
            + nonzero_balances(self.closing_balances@, BalanceType::Closing));
        file.vouchers = self.vouchers;
        file
    }

    /// The file, generated today.
    pub fn build(self) -> (f: SieFile)
        ensures
            exists|d: Date| d.wf() && f@ == type4_file(self, date_text(d)),
    {
        let today = today_text();
        let ghost b = self;
        let f = self.build_with_date(today);
        let ghost d = choose|d: Date| d.wf() && today@ == date_text(d);
        assert(f@ == type4_file(b, date_text(d)));
        f
    }
}

} // verus!
