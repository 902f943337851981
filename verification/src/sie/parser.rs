//! Reading SIE files.
use vstd::prelude::*;
use crate::money::{decimal_from_text, parse_decimal_text, DecimalNumber};
use crate::sie::encoding::{decode_sie_bytes, sie_text_of_bytes};
use crate::sie::syntax::{
    char_index, delim_index, field_ranges, find_char, find_delim, find_ws, lemma_char_index,
    lemma_delim_index, lemma_ws_index, line_ranges, quoted_fields, ranges_text, ranges_within,
    sie_date, sie_date_text, text_lines, tokens, ws_index, ws_tokens,
};
use crate::sie::types::{
    empty_sie_file, sie_type_from_text, BalanceType, SieAccount, SieAccountView, SieBalance,
    SieFile, SieFileView, SieFiscalYear, SieFiscalYearView, SieTransaction, SieTransactionView,
    SieType, SieVoucher, SieVoucherView,
};
use crate::text::{string_texts, chars_of, parse_i32, parse_i32_seq, push_chars, push_str, string_of, to_string, trim_bounds, trim_seq};

verus! {

#[derive(Debug, Clone)]
pub enum SieParseError {
    InvalidType(String),
    MissingField(String),
    ParseError { line: usize, message: String },
    InvalidAmount(String),
}

pub enum SieParseErrorView {
    InvalidType(Seq<char>),
    MissingField(Seq<char>),
    ParseError { line: int, message: Seq<char> },
    InvalidAmount(Seq<char>),
}

impl View for SieParseError {
    type V = SieParseErrorView;

    open spec fn view(&self) -> SieParseErrorView {
        match self {
            SieParseError::InvalidType(s) => SieParseErrorView::InvalidType(s@),
            SieParseError::MissingField(s) => SieParseErrorView::MissingField(s@),
            SieParseError::ParseError { line, message } => SieParseErrorView::ParseError {
                line: *line as int,
                message: message@,
            },
            SieParseError::InvalidAmount(s) => SieParseErrorView::InvalidAmount(s@),
        }
    }
}

/// The message of each error, as its `Display` writes it.
pub open spec fn parse_error_text(e: SieParseErrorView) -> Seq<char> {
    match e {
        SieParseErrorView::InvalidType(s) => "Invalid SIE type: "@ + s,
        SieParseErrorView::MissingField(s) => "Missing required field: "@ + s,
        SieParseErrorView::ParseError { line, message } => "Parse error on line "@ + crate::text::nat_digits(line as nat)
            + ": "@ + message,
        SieParseErrorView::InvalidAmount(s) => "Invalid amount: "@ + s,
    }
}

impl SieParseError {
    /// The error message (what `Display` writes).
    pub fn to_text(&self) -> (s: String)
        ensures
            s@ == parse_error_text(self@),
    {
        match self {
            SieParseError::InvalidType(t) => {
                let mut s = to_string("Invalid SIE type: ");
                push_str(&mut s, t.as_str());
                s
            },
            SieParseError::MissingField(t) => {
                let mut s = to_string("Missing required field: ");
                push_str(&mut s, t.as_str());
                s
            },
            SieParseError::ParseError { line, message } => {
                let mut s = to_string("Parse error on line ");
                crate::money::push_nat(&mut s, *line as u128);
                push_str(&mut s, ": ");
                push_str(&mut s, message.as_str());
                s
            },
            SieParseError::InvalidAmount(t) => {
                let mut s = to_string("Invalid amount: ");
                push_str(&mut s, t.as_str());
                s
            },
        }
    }
}

/// The result of reading a part of a SIE file: a value, an error the reader
/// reports, or a crash (a date field whose byte slicing panics).
pub enum Outcome<T> {
    Done(T),
    Failed(SieParseErrorView),
    Crashed,
}

pub open spec fn line_error<T>(line: int, message: Seq<char>) -> Outcome<T> {
    Outcome::Failed(SieParseErrorView::ParseError { line, message })
}

/// Split a line into tag and rest. E.g. "#KONTO 1910 \"Kassa\"" -> ("#KONTO", "1910 \"Kassa\"")
pub open spec fn split_tag_spec(line: Seq<char>) -> (Seq<char>, Seq<char>) {
    let k = ws_index(line);
    if k < line.len() {
        (line.take(k), trim_seq(line.skip(k)))
    } else {
        (line, Seq::empty())
    }
}

/// Remove surrounding quotes from a string (after trimming it).
pub open spec fn unquote_spec(s: Seq<char>) -> Seq<char> {
    let t = trim_seq(s);
    if t.len() >= 2 && t[0] == '"' && t.last() == '"' {
        t.subrange(1, t.len() - 1)
    } else {
        t
    }
}

/// The decimal that a parse of `t` yields, as a `DecimalNumber`.
pub open spec fn decimal_of(t: (bool, nat, nat)) -> DecimalNumber {
    DecimalNumber { negative: t.0, mantissa: t.1 as u128, scale: t.2 as u32 }
}

/// `#RAR index start_date end_date`.
pub open spec fn rar_spec(rest: Seq<char>, line: int) -> Outcome<SieFiscalYearView> {
    let parts = ws_tokens(rest);
    if parts.len() < 3 {
        line_error(line, "RAR requires index, start_date, end_date"@)
    } else {
        match parse_i32_seq(parts[0]) {
            None => line_error(line, "Invalid RAR index: "@ + parts[0]),
            Some(index) => match (sie_date_text(parts[1]), sie_date_text(parts[2])) {
                (Some(s), Some(e)) => Outcome::Done(SieFiscalYearView { index, start_date: s, end_date: e }),
                _ => Outcome::Crashed,
            },
        }
    }
}

/// `#KONTO number "name"`.
pub open spec fn konto_spec(rest: Seq<char>, line: int) -> Outcome<SieAccountView> {
    let fields = quoted_fields(rest);
    if fields.len() < 2 {
        line_error(line, "KONTO requires number and name"@)
    } else {
        match parse_i32_seq(fields[0]) {
            None => line_error(line, "Invalid account number: "@ + fields[0]),
            Some(number) => Outcome::Done(SieAccountView { number, name: fields[1], account_type: None }),
        }
    }
}

/// `#IB` / `#UB year_index account_number amount`.
pub open spec fn balance_spec(rest: Seq<char>, kind: BalanceType, line: int) -> Outcome<SieBalance> {
    let parts = ws_tokens(rest);
    if parts.len() < 3 {
        line_error(line, "Balance line requires year_index, account, amount"@)
    } else {
        match parse_i32_seq(parts[0]) {
            None => line_error(line, "Invalid year index: "@ + parts[0]),
            Some(year_index) => match parse_i32_seq(parts[1]) {
                None => line_error(line, "Invalid account number: "@ + parts[1]),
                Some(account_number) => match decimal_from_text(parts[2]) {
                    None => Outcome::Failed(SieParseErrorView::InvalidAmount(parts[2])),
                    Some(d) => Outcome::Done(
                        SieBalance { balance_type: kind, year_index, account_number, amount: decimal_of(d) },
                    ),
                },
            },
        }
    }
}

/// `#VER series number date "description"`.
pub open spec fn ver_spec(rest: Seq<char>, line: int) -> Outcome<SieVoucherView> {
    let fields = quoted_fields(rest);
    if fields.len() < 3 {
        line_error(line, "VER requires series, number, date"@)
    } else {
        match sie_date_text(fields[2]) {
            None => Outcome::Crashed,
            Some(date) => Outcome::Done(
                SieVoucherView {
                    series: fields[0],
                    number: parse_i32_seq(fields[1]),
                    date,
                    description: if fields.len() > 3 {
                        fields[3]
                    } else {
                        Seq::empty()
                    },
                    lines: Seq::empty(),
                },
            ),
        }
    }
}

/// A line without a leading `#TRANS`.
pub open spec fn strip_trans(line: Seq<char>) -> Seq<char> {
    if line.len() >= 6 && line.take(6) == "#TRANS"@ {
        line.skip(6)
    } else {
        line
    }
}

/// `#TRANS account_number {dimension_list} amount [date] ["description"]`.
pub open spec fn trans_spec(line: Seq<char>, n: int) -> Outcome<SieTransactionView> {
    let after_tag = trim_seq(strip_trans(line));
    let k = delim_index(after_tag);
    let account_str = trim_seq(after_tag.take(k));
    let remaining = if k < after_tag.len() {
        after_tag.skip(k + 1)
    } else {
        Seq::empty()
    };
    match parse_i32_seq(account_str) {
        None => line_error(n, "Invalid account in TRANS: "@ + account_str),
        Some(account_number) => {
            let p = char_index(remaining, '}');
            let after_dims = if p < remaining.len() {
                trim_seq(remaining.skip(p + 1))
            } else {
                trim_seq(remaining)
            };
            let fields = quoted_fields(after_dims);
            if fields.len() == 0 {
                line_error(n, "TRANS requires amount"@)
            } else {
                match decimal_from_text(fields[0]) {
                    None => Outcome::Failed(SieParseErrorView::InvalidAmount(fields[0])),
                    Some(d) => {
                        let description = if fields.len() > 2 {
                            Some(fields[2])
                        } else {
                            None
                        };
                        if fields.len() > 1 {
                            match sie_date_text(fields[1]) {
                                None => Outcome::Crashed,
                                Some(date) => Outcome::Done(
                                    SieTransactionView {
                                        account_number,
                                        amount: decimal_of(d),
                                        date: Some(date),
                                        description,
                                    },
                                ),
                            }
                        } else {
                            Outcome::Done(
                                SieTransactionView { account_number, amount: decimal_of(d), date: None, description },
                            )
                        }
                    },
                }
            }
        },
    }
}

/// Where the reader stands between two lines.
pub struct ParseState {
    pub file: SieFileView,
    pub current: Option<SieVoucherView>,
    pub in_block: bool,
}

/// Index of the first account with the given number (the length when there is none).
pub open spec fn first_with_number(accs: Seq<SieAccountView>, num: i32) -> int
    decreases accs.len(),
{
    if accs.len() == 0 {
        0
    } else if accs[0].number == num {
        0
    } else {
        1 + first_with_number(accs.drop_first(), num)
    }
}

/// `#KTYP`: the first account with the number gets the type.
pub open spec fn set_account_type(accs: Seq<SieAccountView>, num: i32, t: Seq<char>) -> Seq<SieAccountView> {
    let k = first_with_number(accs, num);
    if k < accs.len() {
        accs.update(k, SieAccountView { account_type: Some(t), ..accs[k] })
    } else {
        accs
    }
}

pub open spec fn with_file(st: ParseState, file: SieFileView) -> ParseState {
    ParseState { file, ..st }
}

/// A top-level tag line.
pub open spec fn tag_step(st: ParseState, tag: Seq<char>, rest: Seq<char>, n: int) -> Outcome<ParseState> {
    let f = st.file;
    if tag == "#SIETYP"@ {
        match sie_type_from_text(rest) {
            Some(t) => Outcome::Done(with_file(st, SieFileView { sie_type: t, ..f })),
            None => Outcome::Failed(SieParseErrorView::InvalidType(rest)),
        }
    } else if tag == "#PROGRAM"@ {
        let parts = quoted_fields(rest);
        Outcome::Done(
            with_file(
                st,
                SieFileView {
                    program: if parts.len() > 0 {
                        Some(parts[0])
                    } else {
                        None
                    },
                    program_version: if parts.len() > 1 {
                        Some(parts[1])
                    } else {
                        None
                    },
                    ..f
                },
            ),
        )
    } else if tag == "#GEN"@ {
        let parts = ws_tokens(rest);
        if parts.len() == 0 {
            Outcome::Done(with_file(st, SieFileView { gen_date: None, ..f }))
        } else {
            match sie_date_text(parts[0]) {
                Some(d) => Outcome::Done(with_file(st, SieFileView { gen_date: Some(d), ..f })),
                None => Outcome::Crashed,
            }
        }
    } else if tag == "#FNAMN"@ {
        Outcome::Done(with_file(st, SieFileView { company_name: Some(unquote_spec(rest)), ..f }))
    } else if tag == "#ORGNR"@ {
        let parts = ws_tokens(rest);
        let org = if parts.len() > 0 {
            parts[0]
        } else {
            Seq::empty()
        };
        Outcome::Done(with_file(st, SieFileView { org_number: Some(org), ..f }))
    } else if tag == "#RAR"@ {
        match rar_spec(rest, n) {
            Outcome::Done(fy) => Outcome::Done(
                with_file(st, SieFileView { fiscal_years: f.fiscal_years.push(fy), ..f }),
            ),
            Outcome::Failed(e) => Outcome::Failed(e),
            Outcome::Crashed => Outcome::Crashed,
        }
    } else if tag == "#KONTO"@ {
        match konto_spec(rest, n) {
            Outcome::Done(a) => Outcome::Done(with_file(st, SieFileView { accounts: f.accounts.push(a), ..f })),
            Outcome::Failed(e) => Outcome::Failed(e),
            Outcome::Crashed => Outcome::Crashed,
        }
    } else if tag == "#KTYP"@ {
        let parts = ws_tokens(rest);
        if parts.len() >= 2 {
            match parse_i32_seq(parts[0]) {
                Some(num) => Outcome::Done(
                    with_file(st, SieFileView { accounts: set_account_type(f.accounts, num, parts[1]), ..f }),
                ),
                None => Outcome::Done(st),
            }
        } else {
            Outcome::Done(st)
        }
    } else if tag == "#IB"@ || tag == "#UB"@ {
        let kind = if tag == "#IB"@ {
            BalanceType::Opening
        } else {
            BalanceType::Closing
        };
        match balance_spec(rest, kind, n) {
            Outcome::Done(b) => Outcome::Done(with_file(st, SieFileView { balances: f.balances.push(b), ..f })),
            Outcome::Failed(e) => Outcome::Failed(e),
            Outcome::Crashed => Outcome::Crashed,
        }
    } else if tag == "#VER"@ {
        match ver_spec(rest, n) {
            Outcome::Done(v) => Outcome::Done(ParseState { current: Some(v), ..st }),
            Outcome::Failed(e) => Outcome::Failed(e),
            Outcome::Crashed => Outcome::Crashed,
        }
    } else {
        // #FLAGGA, #FORMAT and unknown tags are ignored
        Outcome::Done(st)
    }
}

/// One line of the file (`n` counts lines from 0).
pub open spec fn line_step(st: ParseState, n: int, raw: Seq<char>) -> Outcome<ParseState> {
    let line = trim_seq(raw);
    if line.len() == 0 {
        Outcome::Done(st)
    } else if line == "{"@ {
        Outcome::Done(ParseState { in_block: true, ..st })
    } else if line == "}"@ {
        match st.current {
            Some(v) => Outcome::Done(
                ParseState {
                    file: SieFileView { vouchers: st.file.vouchers.push(v), ..st.file },
                    current: None,
                    in_block: false,
                },
            ),
            None => Outcome::Done(ParseState { in_block: false, ..st }),
        }
    } else if st.in_block {
        if line.len() >= 6 && line.take(6) == "#TRANS"@ {
            match trans_spec(line, n) {
                Outcome::Done(t) => match st.current {
                    Some(v) => Outcome::Done(
                        ParseState { current: Some(SieVoucherView { lines: v.lines.push(t), ..v }), ..st },
                    ),
                    None => Outcome::Done(st),
                },
                Outcome::Failed(e) => Outcome::Failed(e),
                Outcome::Crashed => Outcome::Crashed,
            }
        } else {
            // #RTRANS, #BTRANS and anything else inside a voucher are ignored
            Outcome::Done(st)
        }
    } else if line[0] != '#' {
        Outcome::Done(st)
    } else {
        let (tag, rest) = split_tag_spec(line);
        tag_step(st, tag, rest, n)
    }
}

/// The lines from `i` on.
pub open spec fn lines_from(lines: Seq<Seq<char>>, i: int, st: ParseState) -> Outcome<ParseState>
    decreases lines.len() - i,
{
    if i >= lines.len() || i < 0 {
        Outcome::Done(st)
    } else {
        match line_step(st, i, lines[i]) {
            Outcome::Done(next) => lines_from(lines, i + 1, next),
            Outcome::Failed(e) => Outcome::Failed(e),
            Outcome::Crashed => Outcome::Crashed,
        }
    }
}

/// The reader at the start: an empty Type 4 file, outside any voucher.
pub open spec fn initial_state() -> ParseState {
    ParseState { file: empty_sie_file(SieType::Type4), current: None, in_block: false }
}

/// What reading the text `content` gives.
pub open spec fn sie_parse(content: Seq<char>) -> Outcome<SieFileView> {
    match lines_from(text_lines(content), 0, initial_state()) {
        Outcome::Done(st) => Outcome::Done(st.file),
        Outcome::Failed(e) => Outcome::Failed(e),
        Outcome::Crashed => Outcome::Crashed,
    }
}


/// The view of an optional voucher.
pub open spec fn opt_voucher(v: Option<SieVoucher>) -> Option<SieVoucherView> {
    match v {
        Some(x) => Some(x@),
        None => None,
    }
}

/// Whether an executable result matches an outcome.
pub open spec fn agrees<T: View>(r: Option<Result<T, SieParseError>>, o: Outcome<T::V>) -> bool {
    match r {
        None => o is Crashed,
        Some(Ok(x)) => o == Outcome::<T::V>::Done(x@),
        Some(Err(e)) => o == Outcome::<T::V>::Failed(e@),
    }
}

impl View for SieBalance {
    type V = SieBalance;

    open spec fn view(&self) -> SieBalance {
        *self
    }
}

/// Whether `v[from..to]` is the text `lit`.
fn range_is(v: &[char], from: usize, to: usize, lit: &str) -> (b: bool)
    requires
        from <= to <= v@.len(),
    ensures
        b == (v@.subrange(from as int, to as int) == lit@),
{
    let l = chars_of(lit);
    if to - from != l.len() {
        return false;
    }
    let mut i: usize = 0;
    while i < l.len()
        invariant
            i <= l@.len(),
            to - from == l@.len(),
            from <= to <= v@.len(),
            l@ == lit@,
            forall|j: int| 0 <= j < i ==> v@[from + j] == l@[j],
        decreases l.len() - i,
    {
        if v[from + i] != l[i] {
            assert(v@.subrange(from as int, to as int)[i as int] != lit@[i as int]);
            return false;
        }
        i += 1;
    }
    assert(v@.subrange(from as int, to as int) =~= lit@);
    true
}

/// Whether `v[from..to]` begins with the text `lit`.
fn range_starts_with(v: &[char], from: usize, to: usize, lit: &str) -> (b: bool)
    requires
        from <= to <= v@.len(),
    ensures
        b == (v@.subrange(from as int, to as int).len() >= lit@.len() && v@.subrange(from as int, to as int).take(
            lit@.len() as int,
        ) == lit@),
{
    let l = chars_of(lit);
    if to - from < l.len() {
        return false;
    }
    let r = range_is(v, from, from + l.len(), lit);
    assert(v@.subrange(from as int, to as int).take(lit@.len() as int) =~= v@.subrange(
        from as int,
        from + l@.len(),
    ));
    r
}

/// `prefix` followed by `v[from..to]`.
fn message_with(prefix: &str, v: &[char], from: usize, to: usize) -> (s: String)
    requires
        from <= to <= v@.len(),
    ensures
        s@ == prefix@ + v@.subrange(from as int, to as int),
{
    let mut s = to_string(prefix);
    push_chars(&mut s, v, from, to);
    s
}

fn line_err<T>(line: usize, message: &str) -> (r: Option<Result<T, SieParseError>>)
    ensures
        r == Some(Err::<T, SieParseError>(SieParseError::ParseError { line, message: r->0->Err_0->message })),
        r->0->Err_0@ == (SieParseErrorView::ParseError { line: line as int, message: message@ }),
{
    Some(Err(SieParseError::ParseError { line, message: to_string(message) }))
}

/// Parse #RAR line: index start_date end_date
fn read_rar(v: &[char], from: usize, to: usize, line: usize) -> (r: Option<Result<SieFiscalYear, SieParseError>>)
    requires
        from <= to <= v@.len(),
    ensures
        agrees(r, rar_spec(v@.subrange(from as int, to as int), line as int)),
{
    let parts = tokens(v, from, to);
    let ghost ps = ws_tokens(v@.subrange(from as int, to as int));
    if parts.len() < 3 {
        return line_err(line, "RAR requires index, start_date, end_date");
    }
    let (a0, b0) = parts[0];
    let (a1, b1) = parts[1];
    let (a2, b2) = parts[2];
    assert(ps[0] == v@.subrange(a0 as int, b0 as int));
    assert(ps[1] == v@.subrange(a1 as int, b1 as int));
    assert(ps[2] == v@.subrange(a2 as int, b2 as int));
    let index = match parse_i32(v, a0, b0) {
        Some(i) => i,
        None => {
            let m = message_with("Invalid RAR index: ", v, a0, b0);
            return Some(Err(SieParseError::ParseError { line, message: m }));
        },
    };
    let start_date = match sie_date(v, a1, b1) {
        Some(d) => d,
        None => return None,
    };
    let end_date = match sie_date(v, a2, b2) {
        Some(d) => d,
        None => return None,
    };
    Some(Ok(SieFiscalYear { index, start_date, end_date }))
}

/// Parse #KONTO line: number "name"
fn read_konto(v: &[char], from: usize, to: usize, line: usize) -> (r: Option<Result<SieAccount, SieParseError>>)
    requires
        from <= to <= v@.len(),
    ensures
        agrees(r, konto_spec(v@.subrange(from as int, to as int), line as int)),
{
    let fields = field_ranges(v, from, to);
    let ghost fs = quoted_fields(v@.subrange(from as int, to as int));
    if fields.len() < 2 {
        return line_err(line, "KONTO requires number and name");
    }
    let (a0, b0) = fields[0];
    let (a1, b1) = fields[1];
    assert(fs[0] == v@.subrange(a0 as int, b0 as int));
    assert(fs[1] == v@.subrange(a1 as int, b1 as int));
    let number = match parse_i32(v, a0, b0) {
        Some(n) => n,
        None => {
            let m = message_with("Invalid account number: ", v, a0, b0);
            return Some(Err(SieParseError::ParseError { line, message: m }));
        },
    };
    Some(Ok(SieAccount { number, name: string_of(v, a1, b1), account_type: None }))
}

/// Parse #IB/#UB line: year_index account_number amount
fn read_balance(v: &[char], from: usize, to: usize, kind: BalanceType, line: usize) -> (r: Option<
    Result<SieBalance, SieParseError>,
>)
    requires
        from <= to <= v@.len(),
    ensures
        agrees(r, balance_spec(v@.subrange(from as int, to as int), kind, line as int)),
{
    let parts = tokens(v, from, to);
    let ghost ps = ws_tokens(v@.subrange(from as int, to as int));
    if parts.len() < 3 {
        return line_err(line, "Balance line requires year_index, account, amount");
    }
    let (a0, b0) = parts[0];
    let (a1, b1) = parts[1];
    let (a2, b2) = parts[2];
    assert(ps[0] == v@.subrange(a0 as int, b0 as int));
    assert(ps[1] == v@.subrange(a1 as int, b1 as int));
    assert(ps[2] == v@.subrange(a2 as int, b2 as int));
    let year_index = match parse_i32(v, a0, b0) {
        Some(i) => i,
        None => {
            let m = message_with("Invalid year index: ", v, a0, b0);
            return Some(Err(SieParseError::ParseError { line, message: m }));
        },
    };
    let account_number = match parse_i32(v, a1, b1) {
        Some(i) => i,
        None => {
            let m = message_with("Invalid account number: ", v, a1, b1);
            return Some(Err(SieParseError::ParseError { line, message: m }));
        },
    };
    let amount_text = string_of(v, a2, b2);
    match parse_decimal_text(amount_text.as_str()) {
        Some(amount) => Some(Ok(SieBalance { balance_type: kind, year_index, account_number, amount })),
        None => Some(Err(SieParseError::InvalidAmount(amount_text))),
    }
}

/// Parse #VER line: series number date "description"
fn read_ver(v: &[char], from: usize, to: usize, line: usize) -> (r: Option<Result<SieVoucher, SieParseError>>)
    requires
        from <= to <= v@.len(),
    ensures
        agrees(r, ver_spec(v@.subrange(from as int, to as int), line as int)),
{
    let fields = field_ranges(v, from, to);
    let ghost fs = quoted_fields(v@.subrange(from as int, to as int));
    if fields.len() < 3 {
        return line_err(line, "VER requires series, number, date");
    }
    let (a0, b0) = fields[0];
    let (a1, b1) = fields[1];
    let (a2, b2) = fields[2];
    assert(fs[0] == v@.subrange(a0 as int, b0 as int));
    assert(fs[1] == v@.subrange(a1 as int, b1 as int));
    assert(fs[2] == v@.subrange(a2 as int, b2 as int));
    let series = string_of(v, a0, b0);
    let number = parse_i32(v, a1, b1);
    let date = match sie_date(v, a2, b2) {
        Some(d) => d,
        None => return None,
    };
    let description = if fields.len() > 3 {
        let (a3, b3) = fields[3];
        assert(fs[3] == v@.subrange(a3 as int, b3 as int));
        string_of(v, a3, b3)
    } else {
        String::new()
    };
    let voucher = SieVoucher { series, number, date, description, lines: Vec::new() };
    assert(voucher@.lines =~= Seq::<SieTransactionView>::empty());
    Some(Ok(voucher))
}

/// Parse #TRANS line: account {} amount [date] ["description"]
fn read_trans(v: &[char], from: usize, to: usize, line_num: usize) -> (r: Option<
    Result<SieTransaction, SieParseError>,
>)
    requires
        from <= to <= v@.len(),
    ensures
        agrees(r, trans_spec(v@.subrange(from as int, to as int), line_num as int)),
{
    let ghost line = v@.subrange(from as int, to as int);
    // #TRANS account_number {dimension_list} amount [date] ["description"]
    let start = if range_starts_with(v, from, to, "#TRANS") {
        proof {
            reveal_strlit("#TRANS");
            assert(line.skip(6) =~= v@.subrange(from + 6, to as int));
        }
        from + 6
    } else {
        from
    };
    assert(strip_trans(line) == v@.subrange(start as int, to as int)) by {
        reveal_strlit("#TRANS");
    }
    let (ta, tb) = trim_bounds(v, start, to);
    let ghost after_tag = v@.subrange(ta as int, tb as int);
    // Extract account number (first token)
    let k = find_delim(v, ta, tb);
    proof {
        lemma_delim_index(after_tag);
        assert(after_tag.take(k - ta) =~= v@.subrange(ta as int, k as int));
    }
    let (aa, ab) = trim_bounds(v, ta, k);
    let account_number = match parse_i32(v, aa, ab) {
        Some(n) => n,
        None => {
            let m = message_with("Invalid account in TRANS: ", v, aa, ab);
            return Some(Err(SieParseError::ParseError { line: line_num, message: m }));
        },
    };
    let rs = if k < tb {
        k + 1
    } else {
        tb
    };
    proof {
        if k < tb {
            assert(after_tag.skip(k - ta + 1) =~= v@.subrange(k + 1, tb as int));
        } else {
            assert(v@.subrange(tb as int, tb as int) =~= Seq::<char>::empty());
        }
    }
    let ghost remaining = v@.subrange(rs as int, tb as int);
    // Skip the dimension list (everything between { and })
    let p = find_char(v, rs, tb, '}');
    proof {
        lemma_char_index(remaining, '}');
    }
    let (da, db) = if p < tb {
        assert(remaining.skip(p - rs + 1) =~= v@.subrange(p + 1, tb as int));
        trim_bounds(v, p + 1, tb)
    } else {
        trim_bounds(v, rs, tb)
    };
    let fields = field_ranges(v, da, db);
    let ghost fs = quoted_fields(v@.subrange(da as int, db as int));
    if fields.len() == 0 {
        return line_err(line_num, "TRANS requires amount");
    }
    let (a0, b0) = fields[0];
    assert(fs[0] == v@.subrange(a0 as int, b0 as int));
    let amount_text = string_of(v, a0, b0);
    let amount = match parse_decimal_text(amount_text.as_str()) {
        Some(d) => d,
        None => return Some(Err(SieParseError::InvalidAmount(amount_text))),
    };
    let description = if fields.len() > 2 {
        let (a2, b2) = fields[2];
        assert(fs[2] == v@.subrange(a2 as int, b2 as int));
        Some(string_of(v, a2, b2))
    } else {
        None
    };
    let date = if fields.len() > 1 {
        let (a1, b1) = fields[1];
        assert(fs[1] == v@.subrange(a1 as int, b1 as int));
        match sie_date(v, a1, b1) {
            Some(d) => Some(d),
            None => return None,
        }
    } else {
        None
    };
    Some(Ok(SieTransaction { account_number, amount, date, description }))
}


/// The reader's state as a view.
pub open spec fn state_view(file: SieFile, current: Option<SieVoucher>, in_block: bool) -> ParseState {
    ParseState { file: file@, current: opt_voucher(current), in_block }
}

/// Whether a step's result matches an outcome for the state after it.
pub open spec fn step_agrees(
    r: Option<Result<(), SieParseError>>,
    o: Outcome<ParseState>,
    file: SieFile,
    current: Option<SieVoucher>,
    in_block: bool,
) -> bool {
    match r {
        None => o is Crashed,
        Some(Ok(_)) => o == Outcome::Done(state_view(file, current, in_block)),
        Some(Err(e)) => o == Outcome::<ParseState>::Failed(e@),
    }
}

/// Index of the first account with the given number.
fn find_account(accs: &Vec<SieAccount>, num: i32) -> (k: usize)
    ensures
        k as int == first_with_number(accs@.map_values(|a: SieAccount| a@), num),
{
    let ghost va = accs@.map_values(|a: SieAccount| a@);
    assert(va.skip(0) =~= va);
    let mut i: usize = 0;
    while i < accs.len() && accs[i].number != num
        invariant
            i <= accs@.len(),
            va == accs@.map_values(|a: SieAccount| a@),
            first_with_number(va, num) == i + first_with_number(va.skip(i as int), num),
        decreases accs.len() - i,
    {
        assert(va.skip(i as int).drop_first() =~= va.skip(i + 1));
        i += 1;
    }
    proof {
        if i < accs.len() {
            assert(va.skip(i as int)[0] == va[i as int]);
        }
    }
    i
}

/// A top-level tag line, `v[ta..tb]` holding the tag and `v[ra..rb]` the rest.
fn step_tag(
    v: &[char],
    ta: usize,
    tb: usize,
    ra: usize,
    rb: usize,
    n: usize,
    file: &mut SieFile,
    current: &mut Option<SieVoucher>,
    in_block: bool,
) -> (r: Option<Result<(), SieParseError>>)
    requires
        ta <= tb <= v@.len(),
        ra <= rb <= v@.len(),
    ensures
        step_agrees(
            r,
            tag_step(
                state_view(*old(file), *old(current), in_block),
                v@.subrange(ta as int, tb as int),
                v@.subrange(ra as int, rb as int),
                n as int,
            ),
            *final(file),
            *final(current),
            in_block,
        ),
{
    let ghost tag = v@.subrange(ta as int, tb as int);
    let ghost rest = v@.subrange(ra as int, rb as int);
    let ghost st = state_view(*file, *current, in_block);
    let ghost f = st.file;
    if range_is(v, ta, tb, "#SIETYP") {
        let text = string_of(v, ra, rb);
        match SieType::from_str(text.as_str()) {
            Some(t) => {
                file.sie_type = t;
                return Some(Ok(()));
            },
            None => return Some(Err(SieParseError::InvalidType(text))),
        }
    }
    if range_is(v, ta, tb, "#PROGRAM") {
        let parts = field_ranges(v, ra, rb);
        let ghost ps = quoted_fields(rest);
        file.program = if parts.len() > 0 {
            let (a0, b0) = parts[0];
            assert(ps[0] == v@.subrange(a0 as int, b0 as int));
            Some(string_of(v, a0, b0))
        } else {
            None
        };
        file.program_version = if parts.len() > 1 {
            let (a1, b1) = parts[1];
            assert(ps[1] == v@.subrange(a1 as int, b1 as int));
            Some(string_of(v, a1, b1))
        } else {
            None
        };
        return Some(Ok(()));
    }
    if range_is(v, ta, tb, "#GEN") {
        let parts = tokens(v, ra, rb);
        let ghost ps = ws_tokens(rest);
        if parts.len() == 0 {
            file.gen_date = None;
        } else {
            let (a0, b0) = parts[0];
            assert(ps[0] == v@.subrange(a0 as int, b0 as int));
            match sie_date(v, a0, b0) {
                Some(d) => file.gen_date = Some(d),
                None => return None,
            }
        }
        return Some(Ok(()));
    }
    if range_is(v, ta, tb, "#FNAMN") {
        let (ua, ub) = trim_bounds(v, ra, rb);
        let ghost t = v@.subrange(ua as int, ub as int);
        if ub - ua >= 2 && v[ua] == '"' && v[ub - 1] == '"' {
            assert(t.subrange(1, t.len() - 1) =~= v@.subrange(ua + 1, ub - 1));
            file.company_name = Some(string_of(v, ua + 1, ub - 1));
        } else {
            file.company_name = Some(string_of(v, ua, ub));
        }
        return Some(Ok(()));
    }
    if range_is(v, ta, tb, "#ORGNR") {
        let parts = tokens(v, ra, rb);
        let ghost ps = ws_tokens(rest);
        if parts.len() > 0 {
            let (a0, b0) = parts[0];
            assert(ps[0] == v@.subrange(a0 as int, b0 as int));
            file.org_number = Some(string_of(v, a0, b0));
        } else {
            file.org_number = Some(String::new());
        }
        return Some(Ok(()));
    }
    if range_is(v, ta, tb, "#RAR") {
        match read_rar(v, ra, rb, n) {
            Some(Ok(fy)) => {
                file.fiscal_years.push(fy);
                assert(file@.fiscal_years =~= f.fiscal_years.push(fy@));
                return Some(Ok(()));
            },
            Some(Err(e)) => return Some(Err(e)),
            None => return None,
        }
    }
    if range_is(v, ta, tb, "#KONTO") {
        match read_konto(v, ra, rb, n) {
            Some(Ok(a)) => {
                file.accounts.push(a);
                assert(file@.accounts =~= f.accounts.push(a@));
                return Some(Ok(()));
            },
            Some(Err(e)) => return Some(Err(e)),
            None => return None,
        }
    }
    if range_is(v, ta, tb, "#KTYP") {
        let parts = tokens(v, ra, rb);
        let ghost ps = ws_tokens(rest);
        if parts.len() >= 2 {
            let (a0, b0) = parts[0];
            let (a1, b1) = parts[1];
            assert(ps[0] == v@.subrange(a0 as int, b0 as int));
            assert(ps[1] == v@.subrange(a1 as int, b1 as int));
            if let Some(num) = parse_i32(v, a0, b0) {
                let k = find_account(&file.accounts, num);
                if k < file.accounts.len() {
                    let old_acc = file.accounts.remove(k);
                    let acc = SieAccount {
                        number: old_acc.number,
                        name: old_acc.name,
                        account_type: Some(string_of(v, a1, b1)),
                    };
                    file.accounts.insert(k, acc);
                    assert(file@.accounts =~= set_account_type(f.accounts, num, ps[1]));
                } else {
                    assert(set_account_type(f.accounts, num, ps[1]) == f.accounts);
                }
            }
        }
        return Some(Ok(()));
    }
    let is_ib = range_is(v, ta, tb, "#IB");
    if is_ib || range_is(v, ta, tb, "#UB") {
        let kind = if is_ib {
            BalanceType::Opening
        } else {
            BalanceType::Closing
        };
        match read_balance(v, ra, rb, kind, n) {
            Some(Ok(b)) => {
                file.balances.push(b);
                return Some(Ok(()));
            },
            Some(Err(e)) => return Some(Err(e)),
            None => return None,
        }
    }
    if range_is(v, ta, tb, "#VER") {
        match read_ver(v, ra, rb, n) {
            Some(Ok(voucher)) => {
                *current = Some(voucher);
                return Some(Ok(()));
            },
            Some(Err(e)) => return Some(Err(e)),
            None => return None,
        }
    }
    // #FLAGGA, #FORMAT and unknown tags are ignored
    Some(Ok(()))
}

/// One line of the file, `v[la..lb]` as it stands before trimming.
fn step_line(
    v: &[char],
    la: usize,
    lb: usize,
    n: usize,
    file: &mut SieFile,
    current: &mut Option<SieVoucher>,
    in_block: &mut bool,
) -> (r: Option<Result<(), SieParseError>>)
    requires
        la <= lb <= v@.len(),
    ensures
        step_agrees(
            r,
            line_step(state_view(*old(file), *old(current), *old(in_block)), n as int, v@.subrange(la as int, lb as int)),
            *final(file),
            *final(current),
            *final(in_block),
        ),
{
    let (a, b) = trim_bounds(v, la, lb);
    let ghost line = v@.subrange(a as int, b as int);
    let ghost st = state_view(*file, *current, *in_block);
    if a == b {
        return Some(Ok(()));
    }
    if range_is(v, a, b, "{") {
        *in_block = true;
        return Some(Ok(()));
    }
    if range_is(v, a, b, "}") {
        *in_block = false;
        let cur = current.take();
        if let Some(voucher) = cur {
            let ghost vv = voucher@;
            file.vouchers.push(voucher);
            assert(file@.vouchers =~= st.file.vouchers.push(vv));
        }
        return Some(Ok(()));
    }
    if *in_block {
        proof {
            reveal_strlit("#TRANS");
        }
        if range_starts_with(v, a, b, "#TRANS") {
            match read_trans(v, a, b, n) {
                Some(Ok(t)) => {
                    let cur = current.take();
                    match cur {
                        Some(mut voucher) => {
                            let ghost old_v = voucher@;
                            voucher.lines.push(t);
                            assert(voucher@.lines =~= old_v.lines.push(t@));
                            *current = Some(voucher);
                        },
                        None => {},
                    }
                    return Some(Ok(()));
                },
                Some(Err(e)) => return Some(Err(e)),
                None => return None,
            }
        }
        return Some(Ok(()));
    }
    if v[a] != '#' {
        return Some(Ok(()));
    }
    let k = find_ws(v, a, b);
    proof {
        lemma_ws_index(line);
    }
    if k < b {
        let (ra, rb) = trim_bounds(v, k, b);
        proof {
            assert(line.take(k - a) =~= v@.subrange(a as int, k as int));
            assert(line.skip(k - a) =~= v@.subrange(k as int, b as int));
        }
        step_tag(v, a, k, ra, rb, n, file, current, *in_block)
    } else {
        assert(v@.subrange(b as int, b as int) =~= Seq::<char>::empty());
        step_tag(v, a, b, b, b, n, file, current, *in_block)
    }
}

/// Reads a SIE text; `None` where the original reader would panic.
fn parse_core(content: &str) -> (r: Option<Result<SieFile, SieParseError>>)
    ensures
        agrees(r, sie_parse(content@)),
{
    let v = chars_of(content);
    let lines = line_ranges(&v);
    let ghost ls = text_lines(v@);
    let mut file = SieFile::new(SieType::Type4);
    let mut current: Option<SieVoucher> = None;
    let mut in_block = false;
    let mut i: usize = 0;
    while i < lines.len()
        invariant
            i <= lines@.len(),
            v@ == content@,
            ls == text_lines(v@),
            ranges_within(lines@, 0, v@.len() as int),
            ranges_text(v@, lines@) == ls,
            lines_from(ls, 0, initial_state()) == lines_from(ls, i as int, state_view(file, current, in_block)),
        decreases lines.len() - i,
    {
        let (la, lb) = lines[i];
        assert(ls[i as int] == v@.subrange(la as int, lb as int));
        let ghost st = state_view(file, current, in_block);
        match step_line(&v, la, lb, i, &mut file, &mut current, &mut in_block) {
            Some(Ok(())) => {},
            Some(Err(e)) => return Some(Err(e)),
            None => return None,
        }
        i += 1;
    }
    Some(Ok(file))
}

/// Parse SIE file from a UTF-8 string.
pub fn parse_sie_str(content: &str) -> (r: Result<SieFile, SieParseError>)
    requires
        !(sie_parse(content@) is Crashed),
    ensures
        agrees(Some(r), sie_parse(content@)),
{
    match parse_core(content) {
        Some(r) => r,
        None => {
            proof {
                assert(false);
            }
            Err(SieParseError::MissingField(String::new()))
        },
    }
}

/// Reads a SIE text, or `None` on a text where reading it would panic (a date
/// field of eight bytes that cannot be cut after its fourth and sixth byte).
pub fn try_parse_sie_str(content: &str) -> (r: Option<Result<SieFile, SieParseError>>)
    ensures
        agrees(r, sie_parse(content@)),
{
    parse_core(content)
}

/// Parse SIE file from raw bytes (handles encoding automatically).
pub fn parse_sie(bytes: &[u8]) -> (r: Result<SieFile, SieParseError>)
    requires
        !(sie_parse(sie_text_of_bytes(bytes@)) is Crashed),
    ensures
        agrees(Some(r), sie_parse(sie_text_of_bytes(bytes@))),
{
    let content = decode_sie_bytes(bytes);
    parse_sie_str(content.as_str())
}

/// Reads SIE file bytes, or `None` where reading them would panic.
pub fn try_parse_sie(bytes: &[u8]) -> (r: Option<Result<SieFile, SieParseError>>)
    ensures
        agrees(r, sie_parse(sie_text_of_bytes(bytes@))),
{
    let content = decode_sie_bytes(bytes);
    parse_core(content.as_str())
}


/// Split a line into tag and rest. E.g. "#KONTO 1910 \"Kassa\"" -> ("#KONTO", "1910 \"Kassa\"")
pub fn split_tag(line: &str) -> (r: (String, String))
    ensures
        (r.0@, r.1@) == split_tag_spec(line@),
{
    let v = chars_of(line);
    let n = v.len();
    let k = find_ws(&v, 0, n);
    assert(v@.subrange(0, n as int) =~= v@);
    proof {
        lemma_ws_index(v@);
    }
    if k < n {
        let (ra, rb) = trim_bounds(&v, k, n);
        assert(v@.take(k as int) =~= v@.subrange(0, k as int));
        assert(v@.skip(k as int) =~= v@.subrange(k as int, n as int));
        (string_of(&v, 0, k), string_of(&v, ra, rb))
    } else {
        (string_of(&v, 0, n), String::new())
    }
}

/// Remove surrounding quotes from a string.
pub fn unquote(s: &str) -> (r: String)
    ensures
        r@ == unquote_spec(s@),
{
    let v = chars_of(s);
    let (ua, ub) = trim_bounds(&v, 0, v.len());
    assert(v@.subrange(0, v@.len() as int) =~= v@);
    let ghost t = v@.subrange(ua as int, ub as int);
    if ub - ua >= 2 && v[ua] == '"' && v[ub - 1] == '"' {
        assert(t.subrange(1, t.len() - 1) =~= v@.subrange(ua + 1, ub - 1));
        string_of(&v, ua + 1, ub - 1)
    } else {
        string_of(&v, ua, ub)
    }
}

/// Parse quoted fields: "field1" "field2" -> vec!["field1", "field2"]
pub fn parse_quoted_fields(s: &str) -> (r: Vec<String>)
    ensures
        string_texts(r@) == quoted_fields(s@),
{
    let v = chars_of(s);
    let rs = field_ranges(&v, 0, v.len());
    assert(v@.subrange(0, v@.len() as int) =~= v@);
    let mut out: Vec<String> = Vec::new();
    let mut i: usize = 0;
    while i < rs.len()
        invariant
            i <= rs@.len(),
            out@.len() == i,
            ranges_within(rs@, 0, v@.len() as int),
            string_texts(out@) == ranges_text(v@, rs@).take(i as int),
        decreases rs.len() - i,
    {
        let (a, b) = rs[i];
        let ghost old_out = out@;
        let t = string_of(&v, a, b);
        out.push(t);
        proof {
            assert(ranges_text(v@, rs@)[i as int] == v@.subrange(a as int, b as int));
            assert forall|j: int| 0 <= j < i + 1 implies #[trigger] string_texts(out@)[j] == ranges_text(v@, rs@).take(i + 1)[j] by {
                if j < i {
                    assert(out@[j] == old_out[j]);
                    assert(string_texts(old_out)[j] == ranges_text(v@, rs@).take(i as int)[j]);
                }
            }
            assert(string_texts(out@) =~= ranges_text(v@, rs@).take(i + 1));
        }
        i += 1;
    }
    assert(ranges_text(v@, rs@).take(rs@.len() as int) =~= ranges_text(v@, rs@));
    out
}

/// Format a SIE date (YYYYMMDD) to ISO (YYYY-MM-DD).
pub fn format_sie_date(date: &str) -> (r: String)
    requires
        sie_date_text(date@) is Some,
    ensures
        sie_date_text(date@) == Some(r@),
{
    let v = chars_of(date);
    assert(v@.subrange(0, v@.len() as int) =~= v@);
    match sie_date(&v, 0, v.len()) {
        Some(d) => d,
        None => {
            proof {
                assert(false);
            }
            String::new()
        },
    }
}

/// Parse SIE date back from ISO or YYYYMMDD format, returning YYYYMMDD.
pub fn to_sie_date(date: &str) -> (r: String)
    ensures
        r@ == crate::sie::syntax::sie_compact_date(date@),
{
    let mut r = String::new();
    crate::sie::syntax::push_without_dashes(&mut r, date);
    assert(Seq::<char>::empty() + crate::sie::syntax::sie_compact_date(date@) =~= crate::sie::syntax::sie_compact_date(date@));
    r
}

/// The `Result<Option<..>>` form of a line reader's outcome.
pub open spec fn agrees_opt<T: View>(r: Result<Option<T>, SieParseError>, o: Outcome<T::V>) -> bool {
    match r {
        Ok(Some(x)) => o == Outcome::<T::V>::Done(x@),
        Ok(None) => false,
        Err(e) => o == Outcome::<T::V>::Failed(e@),
    }
}

/// Parse #RAR line: index start_date end_date
pub fn parse_rar_line(rest: &str, line: usize) -> (r: Result<Option<SieFiscalYear>, SieParseError>)
    requires
        !(rar_spec(rest@, line as int) is Crashed),
    ensures
        agrees_opt(r, rar_spec(rest@, line as int)),
{
    let v = chars_of(rest);
    assert(v@.subrange(0, v@.len() as int) =~= v@);
    match read_rar(&v, 0, v.len(), line) {
        Some(Ok(fy)) => Ok(Some(fy)),
        Some(Err(e)) => Err(e),
        None => {
            proof {
                assert(false);
            }
            Ok(None)
        },
    }
}

/// Parse #KONTO line: number "name"
pub fn parse_konto_line(rest: &str, line: usize) -> (r: Result<Option<SieAccount>, SieParseError>)
    ensures
        agrees_opt(r, konto_spec(rest@, line as int)),
{
    let v = chars_of(rest);
    assert(v@.subrange(0, v@.len() as int) =~= v@);
    match read_konto(&v, 0, v.len(), line) {
        Some(Ok(a)) => Ok(Some(a)),
        Some(Err(e)) => Err(e),
        None => {
            proof {
                assert(false);
            }
            Ok(None)
        },
    }
}

/// Parse #IB/#UB line: year_index account_number amount
pub fn parse_balance_line(rest: &str, balance_type: BalanceType, line: usize) -> (r: Result<
    Option<SieBalance>,
    SieParseError,
>)
    ensures
        agrees_opt(r, balance_spec(rest@, balance_type, line as int)),
{
    let v = chars_of(rest);
    assert(v@.subrange(0, v@.len() as int) =~= v@);
    match read_balance(&v, 0, v.len(), balance_type, line) {
        Some(Ok(b)) => Ok(Some(b)),
        Some(Err(e)) => Err(e),
        None => {
            proof {
                assert(false);
            }
            Ok(None)
        },
    }
}

/// Parse #VER line: series number date "description"
pub fn parse_ver_line(rest: &str, line: usize) -> (r: Result<SieVoucher, SieParseError>)
    requires
        !(ver_spec(rest@, line as int) is Crashed),
    ensures
        agrees(Some(r), ver_spec(rest@, line as int)),
{
    let v = chars_of(rest);
    assert(v@.subrange(0, v@.len() as int) =~= v@);
    match read_ver(&v, 0, v.len(), line) {
        Some(r) => r,
        None => {
            proof {
                assert(false);
            }
            Err(SieParseError::MissingField(String::new()))
        },
    }
}

/// Parse #TRANS line: account {} amount [date] ["description"]
pub fn parse_trans_line(line: &str, line_num: usize) -> (r: Result<SieTransaction, SieParseError>)
    requires
        !(trans_spec(line@, line_num as int) is Crashed),
    ensures
        agrees(Some(r), trans_spec(line@, line_num as int)),
{
    let v = chars_of(line);
    assert(v@.subrange(0, v@.len() as int) =~= v@);
    match read_trans(&v, 0, v.len(), line_num) {
        Some(r) => r,
        None => {
            proof {
                assert(false);
            }
            Err(SieParseError::MissingField(String::new()))
        },
    }
}

/// Parses a decimal amount as `Decimal::from_str` does, naming the text on failure.
pub fn parse_decimal(s: &str) -> (r: Result<DecimalNumber, SieParseError>)
    ensures
        match r {
            Ok(d) => decimal_from_text(s@) matches Some(t) && d == decimal_of(t),
            Err(e) => decimal_from_text(s@) is None && e@ == SieParseErrorView::InvalidAmount(s@),
        },
{
    match parse_decimal_text(s) {
        Some(d) => Ok(d),
        None => Err(SieParseError::InvalidAmount(to_string(s))),
    }
}

} // verus!
