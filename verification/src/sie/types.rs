//! The contents of an SIE file (the Swedish standard for exchanging accounting data).
use vstd::prelude::*;
use crate::money::DecimalNumber;
use crate::text::to_string;

verus! {

/// The view of an optional text.
pub open spec fn opt_text(o: Option<String>) -> Option<Seq<char>> {
    match o {
        Some(s) => Some(s@),
        None => None,
    }
}

/// A copy of an optional text.
pub fn clone_opt(o: &Option<String>) -> (r: Option<String>)
    ensures
        opt_text(r) == opt_text(*o),
{
    match o {
        Some(s) => Some(s.clone()),
        None => None,
    }
}

#[derive(Debug, Clone, Copy, PartialEq, Eq, Structural)]
pub enum SieType {
    Type1,  // Year-end balances (Årssaldon)
    Type2,  // Period balances (Periodsaldon)
    Type4,  // Transactions (Transaktioner)
}

/// The digit that names each SIE type in `#SIETYP`.
pub open spec fn sie_type_text(t: SieType) -> Seq<char> {
    match t {
        SieType::Type1 => "1"@,
        SieType::Type2 => "2"@,
        SieType::Type4 => "4"@,
    }
}

/// The SIE type named by `s` once white space is trimmed.
pub open spec fn sie_type_from_text(s: Seq<char>) -> Option<SieType> {
    let t = crate::text::trim_seq(s);
    if t == "1"@ {
        Some(SieType::Type1)
    } else if t == "2"@ {
        Some(SieType::Type2)
    } else if t == "4"@ {
        Some(SieType::Type4)
    } else {
        None
    }
}

impl SieType {
    pub fn from_str(s: &str) -> (r: Option<SieType>)
        ensures
            r == sie_type_from_text(s@),
    {
        let cs = crate::text::chars_of(s);
        let (a, b) = crate::text::trim_bounds(&cs, 0, cs.len());
        proof {
            assert(cs@.subrange(0, cs@.len() as int) =~= cs@);
            reveal_strlit("1");
            reveal_strlit("2");
            reveal_strlit("4");
        }
        if b - a == 1 {
            let c = cs[a];
            let ghost t = cs@.subrange(a as int, b as int);
            assert(t =~= seq![c]);
            assert(t[0] == c);
            if c == '1' {
                assert(t =~= "1"@);
                return Some(SieType::Type1);
            }
            assert(t[0] != "1"@[0]);
            if c == '2' {
                assert(t =~= "2"@);
                return Some(SieType::Type2);
            }
            assert(t[0] != "2"@[0]);
            if c == '4' {
                assert(t =~= "4"@);
                return Some(SieType::Type4);
            }
            assert(t[0] != "4"@[0]);
        } else {
            let ghost t = cs@.subrange(a as int, b as int);
            assert(t.len() != "1"@.len() && t.len() != "2"@.len() && t.len() != "4"@.len());
        }
        None
    }

    pub fn as_str(&self) -> (r: &'static str)
        ensures
            r@ == sie_type_text(*self),
    {
        match self {
            SieType::Type1 => "1",
            SieType::Type2 => "2",
            SieType::Type4 => "4",
        }
    }
}

/// Fiscal year definition from #RAR
#[derive(Debug, Clone)]
pub struct SieFiscalYear {
    /// 0 = current year, -1 = previous year, etc.
    pub index: i32,
    pub start_date: String,
    pub end_date: String,
}

pub struct SieFiscalYearView {
    pub index: i32,
    pub start_date: Seq<char>,
    pub end_date: Seq<char>,
}

impl View for SieFiscalYear {
    type V = SieFiscalYearView;

    open spec fn view(&self) -> SieFiscalYearView {
        SieFiscalYearView { index: self.index, start_date: self.start_date@, end_date: self.end_date@ }
    }
}

/// Account definition from #KONTO / #KTYP
#[derive(Debug, Clone)]
pub struct SieAccount {
    pub number: i32,
    pub name: String,
    /// T=Tillgång, S=Skuld, K=Kostnad, I=Intäkt
    pub account_type: Option<String>,
}

pub struct SieAccountView {
    pub number: i32,
    pub name: Seq<char>,
    pub account_type: Option<Seq<char>>,
}

impl View for SieAccount {
    type V = SieAccountView;

    open spec fn view(&self) -> SieAccountView {
        SieAccountView { number: self.number, name: self.name@, account_type: opt_text(self.account_type) }
    }
}

#[derive(Debug, Clone, Copy, PartialEq, Eq, Structural)]
pub enum BalanceType {
    /// Ingående balans (opening balance)
    Opening,
    /// Utgående balans (closing balance)
    Closing,
}

/// Balance from #IB (opening) or #UB (closing)
#[derive(Debug, Clone, Copy, PartialEq, Eq, Structural)]
pub struct SieBalance {
    pub balance_type: BalanceType,
    /// 0 = current year, -1 = previous, etc.
    pub year_index: i32,
    pub account_number: i32,
    pub amount: DecimalNumber,
}

/// Transaction line from #TRANS
#[derive(Debug, Clone)]
pub struct SieTransaction {
    pub account_number: i32,
    pub amount: DecimalNumber,
    pub date: Option<String>,
    pub description: Option<String>,
}

pub struct SieTransactionView {
    pub account_number: i32,
    pub amount: DecimalNumber,
    pub date: Option<Seq<char>>,
    pub description: Option<Seq<char>>,
}

impl View for SieTransaction {
    type V = SieTransactionView;

    open spec fn view(&self) -> SieTransactionView {
        SieTransactionView {
            account_number: self.account_number,
            amount: self.amount,
            date: opt_text(self.date),
            description: opt_text(self.description),
        }
    }
}

/// Voucher from #VER / #TRANS
#[derive(Debug, Clone)]
pub struct SieVoucher {
    pub series: String,
    pub number: Option<i32>,
    pub date: String,
    pub description: String,
    pub lines: Vec<SieTransaction>,
}

pub struct SieVoucherView {
    pub series: Seq<char>,
    pub number: Option<i32>,
    pub date: Seq<char>,
    pub description: Seq<char>,
    pub lines: Seq<SieTransactionView>,
}

impl View for SieVoucher {
    type V = SieVoucherView;

    open spec fn view(&self) -> SieVoucherView {
        SieVoucherView {
            series: self.series@,
            number: self.number,
            date: self.date@,
            description: self.description@,
            lines: self.lines@.map_values(|t: SieTransaction| t@),
        }
    }
}

/// Represents a complete SIE file.
#[derive(Debug, Clone)]
pub struct SieFile {
    pub sie_type: SieType,
    pub program: Option<String>,
    pub program_version: Option<String>,
    pub gen_date: Option<String>,
    pub company_name: Option<String>,
    pub org_number: Option<String>,
    pub fiscal_years: Vec<SieFiscalYear>,
    pub accounts: Vec<SieAccount>,
    pub balances: Vec<SieBalance>,
    pub vouchers: Vec<SieVoucher>,
}

pub struct SieFileView {
    pub sie_type: SieType,
    pub program: Option<Seq<char>>,
    pub program_version: Option<Seq<char>>,
    pub gen_date: Option<Seq<char>>,
    pub company_name: Option<Seq<char>>,
    pub org_number: Option<Seq<char>>,
    pub fiscal_years: Seq<SieFiscalYearView>,
    pub accounts: Seq<SieAccountView>,
    pub balances: Seq<SieBalance>,
    pub vouchers: Seq<SieVoucherView>,
}

impl View for SieFile {
    type V = SieFileView;

    open spec fn view(&self) -> SieFileView {
        SieFileView {
            sie_type: self.sie_type,
            program: opt_text(self.program),
            program_version: opt_text(self.program_version),
            gen_date: opt_text(self.gen_date),
            company_name: opt_text(self.company_name),
            org_number: opt_text(self.org_number),
            fiscal_years: self.fiscal_years@.map_values(|f: SieFiscalYear| f@),
            accounts: self.accounts@.map_values(|a: SieAccount| a@),
            balances: self.balances@,
            vouchers: self.vouchers@.map_values(|v: SieVoucher| v@),
        }
    }
}

/// A file of the given type with nothing in it.
pub open spec fn empty_sie_file(sie_type: SieType) -> SieFileView {
    SieFileView {
        sie_type,
        program: None,
        program_version: None,
        gen_date: None,
        company_name: None,
        org_number: None,
        fiscal_years: Seq::empty(),
        accounts: Seq::empty(),
        balances: Seq::empty(),
        vouchers: Seq::empty(),
    }
}

impl SieFile {
    pub fn new(sie_type: SieType) -> (f: SieFile)
        ensures
            f@ == empty_sie_file(sie_type),
    {
        let f = SieFile {
            sie_type,
            program: None,
            program_version: None,
            gen_date: None,
            company_name: None,
            org_number: None,
            fiscal_years: Vec::new(),
            accounts: Vec::new(),
            balances: Vec::new(),
            vouchers: Vec::new(),
        };
        assert(f@.fiscal_years =~= Seq::<SieFiscalYearView>::empty());
        assert(f@.accounts =~= Seq::<SieAccountView>::empty());
        assert(f@.vouchers =~= Seq::<SieVoucherView>::empty());
        f
    }
}

/// Summary of a parsed SIE file for preview before import.
#[derive(Debug, Clone)]
pub struct SieImportPreview {
    pub sie_type: String,
    pub company_name: Option<String>,
    pub org_number: Option<String>,
    pub fiscal_years: Vec<SieFiscalYearPreview>,
    pub account_count: usize,
    pub voucher_count: usize,
    pub transaction_count: usize,
    pub opening_balances: usize,
    pub closing_balances: usize,
}

#[derive(Debug, Clone)]
pub struct SieFiscalYearPreview {
    pub index: i32,
    pub start_date: String,
    pub end_date: String,
}

/// Total number of transaction lines over the vouchers.
pub open spec fn count_lines(vs: Seq<SieVoucherView>) -> int
    decreases vs.len(),
{
    if vs.len() == 0 {
        0
    } else {
        count_lines(vs.drop_last()) + vs.last().lines.len()
    }
}

/// Number of balances of the given kind.
pub open spec fn count_balances(bs: Seq<SieBalance>, kind: BalanceType) -> int {
    bs.filter(|b: SieBalance| b.balance_type == kind).len() as int
}

impl SieImportPreview {
    /// The preview of a parsed file (`From<&SieFile>`).
    pub fn from(file: &SieFile) -> (p: SieImportPreview)
        requires
            count_lines(file@.vouchers) <= usize::MAX,
        ensures
            p.sie_type@ == sie_type_text(file.sie_type),
            opt_text(p.company_name) == file@.company_name,
            opt_text(p.org_number) == file@.org_number,
            p.fiscal_years@.len() == file.fiscal_years@.len(),
            forall|i: int|
                0 <= i < p.fiscal_years@.len() ==> {
                    &&& (#[trigger] p.fiscal_years@[i]).index == file.fiscal_years@[i].index
                    &&& p.fiscal_years@[i].start_date@ == file.fiscal_years@[i].start_date@
                    &&& p.fiscal_years@[i].end_date@ == file.fiscal_years@[i].end_date@
                },
            p.account_count == file.accounts@.len(),
            p.voucher_count == file.vouchers@.len(),
            p.transaction_count == count_lines(file@.vouchers),
            p.opening_balances == count_balances(file.balances@, BalanceType::Opening),
            p.closing_balances == count_balances(file.balances@, BalanceType::Closing),
    {
        let mut fys: Vec<SieFiscalYearPreview> = Vec::new();
        let mut i: usize = 0;
        while i < file.fiscal_years.len()
            invariant
                i <= file.fiscal_years@.len(),
                fys@.len() == i,
                forall|j: int|
                    0 <= j < i ==> {
                        &&& (#[trigger] fys@[j]).index == file.fiscal_years@[j].index
                        &&& fys@[j].start_date@ == file.fiscal_years@[j].start_date@
                        &&& fys@[j].end_date@ == file.fiscal_years@[j].end_date@
                    },
            decreases file.fiscal_years.len() - i,
        {
            let fy = &file.fiscal_years[i];
            fys.push(
                SieFiscalYearPreview {
                    index: fy.index,
                    start_date: fy.start_date.clone(),
                    end_date: fy.end_date.clone(),
                },
            );
            i += 1;
        }
        let mut tc: usize = 0;
        let mut k: usize = 0;
        let ghost vs = file@.vouchers;
        while k < file.vouchers.len()
            invariant
                k <= file.vouchers@.len(),
                vs == file@.vouchers,
                vs.len() == file.vouchers@.len(),
                count_lines(vs) <= usize::MAX,
                tc == count_lines(vs.take(k as int)),
            decreases file.vouchers.len() - k,
        {
            proof {
                assert(vs.take(k + 1).drop_last() =~= vs.take(k as int));
                assert(vs[k as int].lines.len() == file.vouchers@[k as int].lines@.len());
                lemma_count_lines_prefix(vs, k + 1);
            }
            tc = tc + file.vouchers[k].lines.len();
            k += 1;
        }
        assert(vs.take(vs.len() as int) =~= vs);
        let mut opening: usize = 0;
        let mut closing: usize = 0;
        let mut m: usize = 0;
        let ghost bs = file.balances@;
        while m < file.balances.len()
            invariant
                m <= bs.len(),
                bs == file.balances@,
                opening == count_balances(bs.take(m as int), BalanceType::Opening),
                closing == count_balances(bs.take(m as int), BalanceType::Closing),
                opening <= m,
                closing <= m,
            decreases bs.len() - m,
        {
            let b = file.balances[m];
            proof {
                assert(bs.take(m + 1) =~= bs.take(m as int).push(b));
                bs.take(m as int).lemma_filter_push(b, |x: SieBalance| x.balance_type == BalanceType::Opening);
                bs.take(m as int).lemma_filter_push(b, |x: SieBalance| x.balance_type == BalanceType::Closing);
            }
            if b.balance_type == BalanceType::Opening {
                opening += 1;
            }
            if b.balance_type == BalanceType::Closing {
                closing += 1;
            }
            m += 1;
        }
        assert(bs.take(bs.len() as int) =~= bs);
        SieImportPreview {
            sie_type: to_string(file.sie_type.as_str()),
            company_name: clone_opt(&file.company_name),
            org_number: clone_opt(&file.org_number),
            fiscal_years: fys,
            account_count: file.accounts.len(),
            voucher_count: file.vouchers.len(),
            transaction_count: tc,
            opening_balances: opening,
            closing_balances: closing,
        }
    }
}

/// A prefix of the vouchers never has more lines than the whole.
pub proof fn lemma_count_lines_prefix(vs: Seq<SieVoucherView>, k: int)
    requires
        0 <= k <= vs.len(),
    ensures
        count_lines(vs.take(k)) <= count_lines(vs),
        count_lines(vs.take(k)) >= 0,
    decreases vs.len() - k,
{
    if k < vs.len() {
        lemma_count_lines_prefix(vs, k + 1);
        assert(vs.take(k + 1).drop_last() =~= vs.take(k));
        lemma_count_lines_nonneg(vs.take(k));
    } else {
        assert(vs.take(k) =~= vs);
        lemma_count_lines_nonneg(vs);
    }
}

pub proof fn lemma_count_lines_nonneg(vs: Seq<SieVoucherView>)
    ensures
        count_lines(vs) >= 0,
    decreases vs.len(),
{
    if vs.len() > 0 {
        lemma_count_lines_nonneg(vs.drop_last());
    }
}

} // verus!
