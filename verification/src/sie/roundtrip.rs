//! Reading back what the writer wrote: the text of a SIE file, parsed, gives
//! the file again.
use vstd::prelude::*;
use crate::sie::encoding::{all_latin1, latin1_bytes, lemma_latin1_roundtrip, sie_text_of_bytes};
use crate::money::{decimal_from_text, decimal_text, padded_digits, pow10, DecimalNumber};
use crate::sie::parser::{
    balance_spec, decimal_of, first_with_number, initial_state, konto_spec, line_step, lines_from, rar_spec,
    set_account_type, sie_parse, split_tag_spec, strip_trans, tag_step, trans_spec, unquote_spec, ver_spec,
    with_file, Outcome, ParseState,
};
use crate::sie::syntax::{
    byte_cut, char_index, delim_index, quoted_fields, sie_compact_date, sie_date_text, strip_cr, text_lines,
    utf8_len, ws_index, ws_tokens,
};
use crate::sie::types::{
    sie_type_from_text, sie_type_text, BalanceType, SieAccountView, SieBalance, SieFileView, SieFiscalYearView,
    SieTransactionView, SieType, SieVoucherView,
};
use crate::sie::writer::{
    account_text, accounts_text, balance_text, balances_text, fiscal_years_text, gen_line, header_text,
    lines_text, name_line, nl, org_line, program_line, quoted, rar_text, sie_file_text, trans_text, voucher_text,
    vouchers_text,
};
use crate::text::{
    all_digits, digit_char, digit_val, digits_value, int_text, is_digit, is_ws, nat_digits, parse_i32_seq,
    trim_end_seq, trim_seq, trim_start_seq,
};

verus! {

/// The lines from the first on, numbered from `n`.
pub open spec fn run_lines(st: ParseState, ls: Seq<Seq<char>>, n: int) -> Outcome<ParseState>
    decreases ls.len(),
{
    if ls.len() == 0 {
        Outcome::Done(st)
    } else {
        match line_step(st, n, ls[0]) {
            Outcome::Done(next) => run_lines(next, ls.drop_first(), n + 1),
            Outcome::Failed(e) => Outcome::Failed(e),
            Outcome::Crashed => Outcome::Crashed,
        }
    }
}

proof fn lemma_lines_from_run(ls: Seq<Seq<char>>, i: int, st: ParseState)
    requires
        0 <= i <= ls.len(),
    ensures
        lines_from(ls, i, st) == run_lines(st, ls.skip(i), i),
    decreases ls.len() - i,
{
    if i < ls.len() {
        assert(ls.skip(i)[0] == ls[i]);
        assert(ls.skip(i).drop_first() =~= ls.skip(i + 1));
        match line_step(st, i, ls[i]) {
            Outcome::Done(next) => lemma_lines_from_run(ls, i + 1, next),
            _ => {},
        }
    }
}

proof fn lemma_run_concat(st: ParseState, a: Seq<Seq<char>>, b: Seq<Seq<char>>, n: int)
    ensures
        run_lines(st, a + b, n) == match run_lines(st, a, n) {
            Outcome::Done(m) => run_lines(m, b, n + a.len()),
            Outcome::Failed(e) => Outcome::Failed(e),
            Outcome::Crashed => Outcome::Crashed,
        },
    decreases a.len(),
{
    if a.len() == 0 {
        assert(a + b =~= b);
    } else {
        assert((a + b)[0] == a[0]);
        assert((a + b).drop_first() =~= a.drop_first() + b);
        match line_step(st, n, a[0]) {
            Outcome::Done(next) => lemma_run_concat(next, a.drop_first(), b, n + 1),
            _ => {},
        }
    }
}

proof fn lemma_char_index_concat(x: Seq<char>, y: Seq<char>, c: char)
    requires
        char_index(x, c) < x.len(),
    ensures
        char_index(x + y, c) == char_index(x, c),
    decreases x.len(),
{
    if x[0] != c {
        assert((x + y).drop_first() =~= x.drop_first() + y);
        lemma_char_index_concat(x.drop_first(), y, c);
    }
}

proof fn lemma_char_index_absent(x: Seq<char>, c: char)
    requires
        forall|i: int| 0 <= i < x.len() ==> x[i] != c,
    ensures
        char_index(x, c) == x.len(),
    decreases x.len(),
{
    if x.len() > 0 {
        lemma_char_index_absent(x.drop_first(), c);
    }
}

proof fn lemma_char_index_present(x: Seq<char>, c: char, i: int)
    requires
        0 <= i < x.len(),
        x[i] == c,
    ensures
        char_index(x, c) <= i,
    decreases x.len(),
{
    if x[0] != c {
        lemma_char_index_present(x.drop_first(), c, i - 1);
    }
}

/// Text that is empty or ends a line.
pub open spec fn whole_lines(x: Seq<char>) -> bool {
    x.len() == 0 || x.last() == '\n'
}

proof fn lemma_text_lines_concat(x: Seq<char>, y: Seq<char>)
    requires
        whole_lines(x),
    ensures
        text_lines(x + y) == text_lines(x) + text_lines(y),
    decreases x.len(),
{
    if x.len() == 0 {
        assert(x + y =~= y);
        assert(text_lines(x) =~= Seq::<Seq<char>>::empty());
        assert(text_lines(x) + text_lines(y) =~= text_lines(y));
    } else {
        lemma_char_index_present(x, '\n', x.len() - 1);
        crate::sie::syntax::lemma_char_index(x, '\n');
        let k = char_index(x, '\n');
        lemma_char_index_concat(x, y, '\n');
        assert((x + y).take(k) =~= x.take(k));
        assert((x + y).skip(k + 1) =~= x.skip(k + 1) + y);
        let r = x.skip(k + 1);
        if r.len() > 0 {
            assert(r.last() == x.last());
        }
        lemma_text_lines_concat(r, y);
        assert(text_lines(x + y) =~= text_lines(x) + text_lines(y));
    }
}

/// A line without a line break.
pub open spec fn one_line(l: Seq<char>) -> bool {
    forall|i: int| 0 <= i < l.len() ==> l[i] != '\n'
}

proof fn lemma_text_lines_one(l: Seq<char>)
    requires
        one_line(l),
    ensures
        text_lines(l + nl()) == seq![strip_cr(l)],
{
    let x = l + nl();
    lemma_char_index_absent(l, '\n');
    assert(char_index(l, '\n') == l.len());
    assert(l + seq!['\n'] == x);
    lemma_char_index_tail(l, '\n');
    let k = char_index(x, '\n');
    assert(k == l.len());
    assert(x.take(k) =~= l);
    assert(x.skip(k + 1) =~= Seq::<char>::empty());
    assert(text_lines(Seq::<char>::empty()) =~= Seq::<Seq<char>>::empty());
    assert(text_lines(x) =~= seq![strip_cr(l)]);
}

proof fn lemma_char_index_tail(l: Seq<char>, c: char)
    requires
        char_index(l, c) == l.len(),
    ensures
        char_index(l + seq![c], c) == l.len(),
    decreases l.len(),
{
    if l.len() > 0 {
        assert((l + seq![c]).drop_first() =~= l.drop_first() + seq![c]);
        lemma_char_index_tail(l.drop_first(), c);
    }
}

/// A bare field: not empty, without white space or quotes.
pub open spec fn token(t: Seq<char>) -> bool {
    &&& t.len() > 0
    &&& forall|i: int| 0 <= i < t.len() ==> !is_ws(#[trigger] t[i]) && t[i] != '"'
}

/// Text that can stand in quotes on one line: no quote, no line break.
pub open spec fn plain(s: Seq<char>) -> bool {
    forall|i: int| 0 <= i < s.len() ==> #[trigger] s[i] != '"' && s[i] != '\n'
}

/// Text with no white space at either end.
pub open spec fn trimmed(s: Seq<char>) -> bool {
    s.len() == 0 || (!is_ws(s[0]) && !is_ws(s.last()))
}

proof fn lemma_ws_index_token(t: Seq<char>, rest: Seq<char>)
    requires
        token(t),
        rest.len() > 0 ==> is_ws(rest[0]),
    ensures
        ws_index(t + rest) == t.len(),
    decreases t.len(),
{
    let s = t + rest;
    assert(s[0] == t[0]);
    assert(!is_ws(t[0]));
    assert(ws_index(s) == 1 + ws_index(s.drop_first()));
    if t.len() > 1 {
        assert(s.drop_first() =~= t.drop_first() + rest);
        assert forall|i: int| 0 <= i < t.drop_first().len() implies !is_ws(#[trigger] t.drop_first()[i])
            && t.drop_first()[i] != '"' by {
            assert(t.drop_first()[i] == t[i + 1]);
        }
        lemma_ws_index_token(t.drop_first(), rest);
    } else {
        assert(s.drop_first() =~= rest);
        assert(ws_index(rest) == 0);
    }
}

proof fn lemma_ws_tokens_cons(t: Seq<char>, rest: Seq<char>)
    requires
        token(t),
    ensures
        ws_tokens(t + seq![' '] + rest) == seq![t] + ws_tokens(rest),
{
    let s = t + seq![' '] + rest;
    assert(s =~= t + (seq![' '] + rest));
    lemma_ws_index_token(t, seq![' '] + rest);
    assert(s[0] == t[0]);
    assert(s.take(t.len() as int) =~= t);
    assert(s.skip(t.len() as int) =~= seq![' '] + rest);
    assert((seq![' '] + rest).drop_first() =~= rest);
    assert(!is_ws(t[0]) && t[0] != '"');
    assert(ws_tokens(seq![' '] + rest) == ws_tokens(rest));
    assert(ws_tokens(s) == seq![t] + ws_tokens(seq![' '] + rest));
}

proof fn lemma_ws_tokens_last(t: Seq<char>)
    requires
        token(t),
    ensures
        ws_tokens(t) == seq![t],
{
    lemma_ws_index_token(t, Seq::empty());
    assert(t + Seq::<char>::empty() =~= t);
    assert(t.take(t.len() as int) =~= t);
    assert(t.skip(t.len() as int) =~= Seq::<char>::empty());
    assert(ws_tokens(Seq::<char>::empty()) =~= Seq::<Seq<char>>::empty());
    assert(seq![t] + Seq::<Seq<char>>::empty() =~= seq![t]);
}

proof fn lemma_fields_cons(t: Seq<char>, rest: Seq<char>)
    requires
        token(t),
    ensures
        quoted_fields(t + seq![' '] + rest) == seq![t] + quoted_fields(rest),
{
    let s = t + seq![' '] + rest;
    assert(s =~= t + (seq![' '] + rest));
    lemma_ws_index_token(t, seq![' '] + rest);
    assert(s[0] == t[0]);
    assert(s.take(t.len() as int) =~= t);
    assert(s.skip(t.len() as int) =~= seq![' '] + rest);
    assert((seq![' '] + rest).drop_first() =~= rest);
    assert(!is_ws(t[0]) && t[0] != '"');
    assert(quoted_fields(seq![' '] + rest) == quoted_fields(rest));
    assert(quoted_fields(s) == seq![t] + quoted_fields(seq![' '] + rest));
}

proof fn lemma_fields_last(t: Seq<char>)
    requires
        token(t),
    ensures
        quoted_fields(t) == seq![t],
{
    lemma_ws_index_token(t, Seq::empty());
    assert(t + Seq::<char>::empty() =~= t);
    assert(t.take(t.len() as int) =~= t);
    assert(t.skip(t.len() as int) =~= Seq::<char>::empty());
    assert(quoted_fields(Seq::<char>::empty()) =~= Seq::<Seq<char>>::empty());
    assert(seq![t] + Seq::<Seq<char>>::empty() =~= seq![t]);
}

proof fn lemma_fields_quoted(p: Seq<char>, rest: Seq<char>)
    requires
        plain(p),
    ensures
        quoted_fields(quoted(p) + rest) == seq![p] + quoted_fields(rest),
{
    let s = quoted(p) + rest;
    assert(s[0] == '"');
    let r = s.drop_first();
    assert(r =~= p + (seq!['"'] + rest));
    assert forall|i: int| 0 <= i < p.len() implies p[i] != '"' by {
        assert(p[i] != '"' && p[i] != '\n');
    }
    lemma_char_index_absent(p, '"');
    lemma_char_index_present(r, '"', p.len() as int);
    lemma_char_index_prefix(p, seq!['"'] + rest, '"');
    assert(r.take(p.len() as int) =~= p);
    assert(r.skip(p.len() as int + 1) =~= rest);
}

proof fn lemma_char_index_prefix(p: Seq<char>, rest: Seq<char>, c: char)
    requires
        char_index(p, c) == p.len(),
    ensures
        char_index(p + rest, c) == p.len() + char_index(rest, c),
    decreases p.len(),
{
    if p.len() == 0 {
        assert(p + rest =~= rest);
    } else {
        assert((p + rest).drop_first() =~= p.drop_first() + rest);
        lemma_char_index_prefix(p.drop_first(), rest, c);
    }
}

proof fn lemma_fields_space(rest: Seq<char>)
    ensures
        quoted_fields(seq![' '] + rest) == quoted_fields(rest),
{
    assert((seq![' '] + rest).drop_first() =~= rest);
}

proof fn lemma_trim_id(s: Seq<char>)
    requires
        trimmed(s),
    ensures
        trim_seq(s) == s,
{
}

proof fn lemma_trim_lead(w: char, s: Seq<char>)
    requires
        is_ws(w),
        trimmed(s),
    ensures
        trim_seq(seq![w] + s) == s,
{
    let x = seq![w] + s;
    assert(x.drop_first() =~= s);
    assert(trim_start_seq(x) == trim_start_seq(s));
    if s.len() > 0 {
        assert(trim_start_seq(s) == s);
    } else {
        assert(trim_start_seq(s) == s);
    }
}

proof fn lemma_digit_char(d: int)
    requires
        0 <= d < 10,
    ensures
        is_digit(digit_char(d)),
        digit_val(digit_char(d)) == d,
{
}

proof fn lemma_nat_digits_value(m: nat)
    ensures
        all_digits(nat_digits(m)),
        nat_digits(m).len() >= 1,
        digits_value(nat_digits(m)) == m,
    decreases m,
{
    crate::text::lemma_nat_digits_all_digits(m);
    if m < 10 {
        lemma_digit_char(m as int);
        let s = nat_digits(m);
        assert(s.drop_last() =~= Seq::<char>::empty());
        assert(digits_value(s) == digits_value(s.drop_last()) * 10 + digit_val(s.last()));
    } else {
        lemma_nat_digits_value(m / 10);
        lemma_digit_char((m % 10) as int);
        let s = nat_digits(m);
        assert(s.drop_last() =~= nat_digits(m / 10));
        assert(s.last() == digit_char((m % 10) as int));
        assert(digits_value(s) == digits_value(s.drop_last()) * 10 + digit_val(s.last()));
        assert((m / 10) * 10 + m % 10 == m);
    }
}

/// Characters that a number's text is made of.
pub open spec fn number_chars(s: Seq<char>) -> bool {
    forall|i: int| 0 <= i < s.len() ==> is_digit(#[trigger] s[i]) || s[i] == '-' || s[i] == '.'
}

proof fn lemma_number_token(s: Seq<char>)
    requires
        s.len() > 0,
        number_chars(s),
    ensures
        token(s),
        trimmed(s),
{
    assert forall|i: int| 0 <= i < s.len() implies !is_ws(#[trigger] s[i]) && s[i] != '"' by {
        assert(is_digit(s[i]) || s[i] == '-' || s[i] == '.');
    }
    assert(is_digit(s[s.len() - 1]) || s[s.len() - 1] == '-' || s[s.len() - 1] == '.');
}

proof fn lemma_int_text(n: i32)
    ensures
        parse_i32_seq(int_text(n as int)) == Some(n),
        number_chars(int_text(n as int)),
        token(int_text(n as int)),
        trimmed(int_text(n as int)),
{
    let t = int_text(n as int);
    if n < 0 {
        let m = (-n) as nat;
        lemma_nat_digits_value(m);
        let body = nat_digits(m);
        assert(t.drop_first() =~= body);
        assert(t[0] == '-');
        assert forall|i: int| 0 <= i < t.len() implies is_digit(#[trigger] t[i]) || t[i] == '-' || t[i] == '.' by {
            if i > 0 {
                assert(t[i] == body[i - 1]);
            }
        }
    } else {
        lemma_nat_digits_value(n as nat);
        assert(!(t[0] == '+' || t[0] == '-')) by {
            assert(is_digit(t[0]));
        }
        assert forall|i: int| 0 <= i < t.len() implies is_digit(#[trigger] t[i]) || t[i] == '-' || t[i] == '.' by {
            assert(is_digit(t[i]));
        }
    }
    lemma_number_token(t);
}

proof fn lemma_padded_digits(n: nat, width: nat)
    ensures
        all_digits(padded_digits(n, width)),
        padded_digits(n, width).len() == width,
    decreases width,
{
    if width > 0 {
        lemma_padded_digits(n / 10, (width - 1) as nat);
        lemma_digit_char((n % 10) as int);
        let s = padded_digits(n, width);
        assert forall|i: int| 0 <= i < s.len() implies #[trigger] is_digit(s[i]) by {
            if i < s.len() - 1 {
                assert(s[i] == padded_digits(n / 10, (width - 1) as nat)[i]);
            }
        }
    }
}

proof fn lemma_decimal_text(d: DecimalNumber)
    ensures
        number_chars(decimal_text(d)),
        token(decimal_text(d)),
        trimmed(decimal_text(d)),
{
    let p = pow10(d.scale as nat);
    let whole = nat_digits((d.mantissa as nat / p) as nat);
    lemma_nat_digits_value((d.mantissa as nat / p) as nat);
    let sign = if d.negative {
        seq!['-']
    } else {
        Seq::<char>::empty()
    };
    let t = decimal_text(d);
    if d.scale == 0 {
        assert(t == sign + whole);
        assert forall|i: int| 0 <= i < t.len() implies is_digit(#[trigger] t[i]) || t[i] == '-' || t[i] == '.' by {
            if i >= sign.len() {
                assert(t[i] == whole[i - sign.len()]);
            }
        }
    } else {
        let frac = padded_digits((d.mantissa as nat % p) as nat, d.scale as nat);
        lemma_padded_digits((d.mantissa as nat % p) as nat, d.scale as nat);
        assert(t == sign + whole + seq!['.'] + frac);
        assert forall|i: int| 0 <= i < t.len() implies is_digit(#[trigger] t[i]) || t[i] == '-' || t[i] == '.' by {
            if i >= sign.len() + whole.len() + 1 {
                assert(t[i] == frac[i - sign.len() - whole.len() - 1]);
            } else if i >= sign.len() && i < sign.len() + whole.len() {
                assert(t[i] == whole[i - sign.len()]);
            }
        }
    }
    lemma_number_token(t);
}

/// A date written `YYYY-MM-DD` in ASCII digits.
pub open spec fn iso_date(d: Seq<char>) -> bool {
    &&& d.len() == 10
    &&& d[4] == '-'
    &&& d[7] == '-'
    &&& forall|i: int| 0 <= i < 10 && i != 4 && i != 7 ==> is_digit(#[trigger] d[i])
}

pub open spec fn ascii(s: Seq<char>) -> bool {
    forall|i: int| 0 <= i < s.len() ==> (#[trigger] s[i] as u32) < 0x80
}

proof fn lemma_ascii_utf8_len(s: Seq<char>)
    requires
        ascii(s),
    ensures
        utf8_len(s) == s.len(),
    decreases s.len(),
{
    if s.len() > 0 {
        assert(ascii(s.drop_last())) by {
            assert forall|i: int| 0 <= i < s.drop_last().len() implies (#[trigger] s.drop_last()[i] as u32)
                < 0x80 by {
                assert(s.drop_last()[i] == s[i]);
            }
        }
        lemma_ascii_utf8_len(s.drop_last());
        assert((s.last() as u32) < 0x80);
    }
}

proof fn lemma_ascii_byte_cut(s: Seq<char>, b: nat)
    requires
        ascii(s),
        b <= s.len(),
    ensures
        byte_cut(s, b) == Some(b as int),
    decreases s.len(),
{
    lemma_ascii_utf8_len(s);
    if s.len() != b {
        assert(ascii(s.drop_last())) by {
            assert forall|i: int| 0 <= i < s.drop_last().len() implies (#[trigger] s.drop_last()[i] as u32)
                < 0x80 by {
                assert(s.drop_last()[i] == s[i]);
            }
        }
        lemma_ascii_byte_cut(s.drop_last(), b);
    }
}

proof fn lemma_no_dash_filter(s: Seq<char>)
    requires
        forall|i: int| 0 <= i < s.len() ==> #[trigger] s[i] != '-',
    ensures
        sie_compact_date(s) == s,
    decreases s.len(),
{
    if s.len() > 0 {
        lemma_no_dash_filter(s.drop_last());
        s.drop_last().lemma_filter_push(s.last(), |c: char| c != '-');
        assert(s.drop_last().push(s.last()) =~= s);
    } else {
        assert(s.filter(|c: char| c != '-') =~= s);
    }
}

proof fn lemma_iso_date(d: Seq<char>)
    requires
        iso_date(d),
    ensures
        token(sie_compact_date(d)),
        trimmed(sie_compact_date(d)),
        sie_date_text(sie_compact_date(d)) == Some(d),
        compact_date(sie_compact_date(d)),
{
    let y = d.take(4);
    let m = d.subrange(5, 7);
    let dd = d.subrange(8, 10);
    let dash = seq!['-'];
    assert(d =~= y + dash + m + dash + dd);
    assert forall|i: int| 0 <= i < 10 && i != 4 && i != 7 implies #[trigger] d[i] != '-' by {
        assert(is_digit(d[i]));
    }
    assert forall|i: int| 0 <= i < y.len() implies #[trigger] y[i] != '-' by {
        assert(y[i] == d[i]);
    }
    assert forall|i: int| 0 <= i < m.len() implies #[trigger] m[i] != '-' by {
        assert(m[i] == d[i + 5]);
    }
    assert forall|i: int| 0 <= i < dd.len() implies #[trigger] dd[i] != '-' by {
        assert(dd[i] == d[i + 8]);
    }
    lemma_no_dash_filter(y);
    lemma_no_dash_filter(m);
    lemma_no_dash_filter(dd);
    let pred = |c: char| c != '-';
    assert(dash.filter(pred) =~= Seq::<char>::empty()) by {
        Seq::<char>::empty().lemma_filter_push('-', pred);
        assert(Seq::<char>::empty().push('-') =~= dash);
        assert(Seq::<char>::empty().filter(pred) =~= Seq::<char>::empty());
    }
    Seq::filter_distributes_over_add(y + dash + m + dash, dd, pred);
    Seq::filter_distributes_over_add(y + dash + m, dash, pred);
    Seq::filter_distributes_over_add(y + dash, m, pred);
    Seq::filter_distributes_over_add(y, dash, pred);
    let c = y + m + dd;
    assert(sie_compact_date(d) =~= c);
    assert forall|i: int| 0 <= i < c.len() implies (#[trigger] c[i] as u32) < 0x80 && is_digit(c[i]) by {
        if i < 4 {
            assert(c[i] == d[i]);
        } else if i < 6 {
            assert(c[i] == d[i + 1]);
        } else {
            assert(c[i] == d[i + 2]);
        }
        assert(is_digit(c[i]));
    }
    assert forall|i: int| 0 <= i < c.len() implies !is_ws(#[trigger] c[i]) && c[i] != '"' by {
        assert(is_digit(c[i]));
    }
    assert(is_digit(c[0]) && is_digit(c[7]));
    lemma_ascii_utf8_len(c);
    lemma_ascii_byte_cut(c, 4);
    lemma_ascii_byte_cut(c, 6);
    lemma_trim_id(c);
    assert(c.take(4) + seq!['-'] + c.subrange(4, 6) + seq!['-'] + c.skip(6) =~= d);
}

/// The texts of the tags a reader knows.
proof fn reveal_tags()
    ensures
        "#SIETYP"@ == seq!['#', 'S', 'I', 'E', 'T', 'Y', 'P'],
        "#PROGRAM"@ == seq!['#', 'P', 'R', 'O', 'G', 'R', 'A', 'M'],
        "#GEN"@ == seq!['#', 'G', 'E', 'N'],
        "#FNAMN"@ == seq!['#', 'F', 'N', 'A', 'M', 'N'],
        "#ORGNR"@ == seq!['#', 'O', 'R', 'G', 'N', 'R'],
        "#RAR"@ == seq!['#', 'R', 'A', 'R'],
        "#KONTO"@ == seq!['#', 'K', 'O', 'N', 'T', 'O'],
        "#KTYP"@ == seq!['#', 'K', 'T', 'Y', 'P'],
        "#IB"@ == seq!['#', 'I', 'B'],
        "#UB"@ == seq!['#', 'U', 'B'],
        "#VER"@ == seq!['#', 'V', 'E', 'R'],
        "#TRANS"@ == seq!['#', 'T', 'R', 'A', 'N', 'S'],
        "{"@ == seq!['{'],
        "}"@ == seq!['}'],
{
    reveal_strlit("#SIETYP");
    reveal_strlit("#PROGRAM");
    reveal_strlit("#GEN");
    reveal_strlit("#FNAMN");
    reveal_strlit("#ORGNR");
    reveal_strlit("#RAR");
    reveal_strlit("#KONTO");
    reveal_strlit("#KTYP");
    reveal_strlit("#IB");
    reveal_strlit("#UB");
    reveal_strlit("#VER");
    reveal_strlit("#TRANS");
    reveal_strlit("{");
    reveal_strlit("}");
}

proof fn lemma_tag_rar(st: ParseState, rest: Seq<char>, n: int)
    ensures
        tag_step(st, "#RAR"@, rest, n) == match rar_spec(rest, n) {
            Outcome::Done(fy) => Outcome::Done(
                with_file(st, SieFileView { fiscal_years: st.file.fiscal_years.push(fy), ..st.file }),
            ),
            Outcome::Failed(e) => Outcome::Failed(e),
            Outcome::Crashed => Outcome::Crashed,
        },
{
    reveal_tags();
    assert("#RAR"@ != "#GEN"@) by {
        assert("#RAR"@[1] != "#GEN"@[1]);
    }
}

proof fn lemma_tag_sietyp(st: ParseState, rest: Seq<char>, n: int)
    ensures
        tag_step(st, "#SIETYP"@, rest, n) == match sie_type_from_text(rest) {
            Some(t) => Outcome::Done(with_file(st, SieFileView { sie_type: t, ..st.file })),
            None => Outcome::Failed(crate::sie::parser::SieParseErrorView::InvalidType(rest)),
        },
{
    reveal_tags();
}

proof fn lemma_tag_program(st: ParseState, p: Seq<char>, v: Seq<char>, n: int)
    requires
        plain(p),
        plain(v),
    ensures
        tag_step(st, "#PROGRAM"@, quoted(p) + seq![' '] + quoted(v), n) == Outcome::<ParseState>::Done(
            with_file(st, SieFileView { program: Some(p), program_version: Some(v), ..st.file }),
        ),
{
    reveal_tags();
    assert("#PROGRAM"@ != "#SIETYP"@);
    let rest = quoted(p) + seq![' '] + quoted(v);
    assert(rest =~= quoted(p) + (seq![' '] + quoted(v)));
    lemma_fields_quoted(p, seq![' '] + quoted(v));
    lemma_fields_space(quoted(v));
    lemma_fields_quoted(v, Seq::empty());
    assert(quoted(v) + Seq::<char>::empty() =~= quoted(v));
    assert(quoted_fields(Seq::<char>::empty()) =~= Seq::<Seq<char>>::empty());
    assert(quoted_fields(rest) =~= seq![p, v]);
}

proof fn lemma_tag_gen(st: ParseState, d: Seq<char>, n: int)
    requires
        iso_date(d),
    ensures
        tag_step(st, "#GEN"@, sie_compact_date(d), n) == Outcome::<ParseState>::Done(
            with_file(st, SieFileView { gen_date: Some(d), ..st.file }),
        ),
{
    reveal_tags();
    assert("#GEN"@ != "#SIETYP"@);
    assert("#GEN"@ != "#PROGRAM"@);
    lemma_iso_date(d);
    lemma_ws_tokens_last(sie_compact_date(d));
}

proof fn lemma_tag_fnamn(st: ParseState, name: Seq<char>, n: int)
    ensures
        tag_step(st, "#FNAMN"@, quoted(name), n) == Outcome::<ParseState>::Done(
            with_file(st, SieFileView { company_name: Some(name), ..st.file }),
        ),
{
    reveal_tags();
    assert("#FNAMN"@ != "#SIETYP"@);
    assert("#FNAMN"@ != "#PROGRAM"@);
    assert("#FNAMN"@ != "#GEN"@);
    let q = quoted(name);
    lemma_trim_id(q);
    assert(q.subrange(1, q.len() - 1) =~= name);
    assert(unquote_spec(q) == name);
}

proof fn lemma_tag_orgnr(st: ParseState, o: Seq<char>, n: int)
    requires
        o.len() == 0 || token(o),
    ensures
        tag_step(st, "#ORGNR"@, o, n) == Outcome::<ParseState>::Done(
            with_file(st, SieFileView { org_number: Some(o), ..st.file }),
        ),
{
    reveal_tags();
    assert("#ORGNR"@ != "#SIETYP"@);
    assert("#ORGNR"@ != "#PROGRAM"@);
    assert("#ORGNR"@ != "#GEN"@);
    assert("#ORGNR"@ != "#FNAMN"@);
    let parts = ws_tokens(o);
    if o.len() > 0 {
        lemma_ws_tokens_last(o);
        assert(parts.len() > 0 && parts[0] == o);
    } else {
        assert(parts =~= Seq::<Seq<char>>::empty());
    }
    let org = if parts.len() > 0 {
        parts[0]
    } else {
        Seq::empty()
    };
    assert(org =~= o);
}

/// The decimal that reading the text of `a` gives is `a` again.
pub open spec fn amount_reads_back(a: DecimalNumber) -> bool {
    match decimal_from_text(decimal_text(a)) {
        Some(t) => decimal_of(t) == a,
        None => false,
    }
}

pub open spec fn rar_rest(fy: SieFiscalYearView) -> Seq<char> {
    int_text(fy.index as int) + seq![' '] + sie_compact_date(fy.start_date) + seq![' '] + sie_compact_date(
        fy.end_date,
    )
}

proof fn lemma_tag_rar_line(st: ParseState, fy: SieFiscalYearView, n: int)
    requires
        iso_date(fy.start_date),
        iso_date(fy.end_date),
    ensures
        tag_step(st, "#RAR"@, rar_rest(fy), n) == Outcome::<ParseState>::Done(
            with_file(st, SieFileView { fiscal_years: st.file.fiscal_years.push(fy), ..st.file }),
        ),
{
    lemma_tag_rar(st, rar_rest(fy), n);
    let a = int_text(fy.index as int);
    let b = sie_compact_date(fy.start_date);
    let c = sie_compact_date(fy.end_date);
    lemma_int_text(fy.index);
    lemma_iso_date(fy.start_date);
    lemma_iso_date(fy.end_date);
    assert(rar_rest(fy) =~= a + seq![' '] + (b + seq![' '] + c));
    lemma_ws_tokens_cons(a, b + seq![' '] + c);
    lemma_ws_tokens_cons(b, c);
    lemma_ws_tokens_last(c);
    assert(ws_tokens(rar_rest(fy)) =~= seq![a, b, c]);
}

pub open spec fn konto_rest(a: SieAccountView) -> Seq<char> {
    int_text(a.number as int) + seq![' '] + quoted(a.name)
}

proof fn lemma_tag_konto_line(st: ParseState, a: SieAccountView, n: int)
    requires
        plain(a.name),
    ensures
        tag_step(st, "#KONTO"@, konto_rest(a), n) == Outcome::<ParseState>::Done(
            with_file(
                st,
                SieFileView {
                    accounts: st.file.accounts.push(SieAccountView { account_type: None, ..a }),
                    ..st.file
                },
            ),
        ),
{
    reveal_tags();
    assert("#KONTO"@ != "#SIETYP"@);
    assert("#KONTO"@ != "#PROGRAM"@);
    assert("#KONTO"@ != "#GEN"@);
    assert("#KONTO"@ != "#FNAMN"@);
    assert("#KONTO"@ != "#ORGNR"@);
    assert("#KONTO"@ != "#RAR"@);
    let t = int_text(a.number as int);
    lemma_int_text(a.number);
    lemma_fields_cons(t, quoted(a.name));
    lemma_fields_quoted(a.name, Seq::empty());
    assert(quoted(a.name) + Seq::<char>::empty() =~= quoted(a.name));
    assert(quoted_fields(Seq::<char>::empty()) =~= Seq::<Seq<char>>::empty());
    assert(quoted_fields(konto_rest(a)) =~= seq![t, a.name]);
    assert(konto_spec(konto_rest(a), n) == Outcome::Done(SieAccountView { account_type: None, ..a }));
}

proof fn lemma_tag_ktyp_line(st: ParseState, num: i32, t: Seq<char>, n: int)
    requires
        token(t),
    ensures
        tag_step(st, "#KTYP"@, int_text(num as int) + seq![' '] + t, n) == Outcome::<ParseState>::Done(
            with_file(st, SieFileView { accounts: set_account_type(st.file.accounts, num, t), ..st.file }),
        ),
{
    reveal_tags();
    assert("#KTYP"@ != "#SIETYP"@);
    assert("#KTYP"@ != "#PROGRAM"@);
    assert("#KTYP"@ != "#GEN"@);
    assert("#KTYP"@ != "#FNAMN"@);
    assert("#KTYP"@ != "#ORGNR"@);
    assert("#KTYP"@ != "#RAR"@);
    assert("#KTYP"@ != "#KONTO"@);
    let a = int_text(num as int);
    lemma_int_text(num);
    lemma_ws_tokens_cons(a, t);
    lemma_ws_tokens_last(t);
    assert(ws_tokens(a + seq![' '] + t) =~= seq![a, t]);
}

pub open spec fn balance_rest(b: SieBalance) -> Seq<char> {
    int_text(b.year_index as int) + seq![' '] + int_text(b.account_number as int) + seq![' '] + decimal_text(
        b.amount,
    )
}

pub open spec fn balance_tag(kind: BalanceType) -> Seq<char> {
    match kind {
        BalanceType::Opening => "#IB"@,
        BalanceType::Closing => "#UB"@,
    }
}

proof fn lemma_tag_balance_line(st: ParseState, b: SieBalance, n: int)
    requires
        amount_reads_back(b.amount),
    ensures
        tag_step(st, balance_tag(b.balance_type), balance_rest(b), n) == Outcome::<ParseState>::Done(
            with_file(st, SieFileView { balances: st.file.balances.push(b), ..st.file }),
        ),
{
    reveal_tags();
    let tag = balance_tag(b.balance_type);
    assert(tag != "#SIETYP"@);
    assert(tag != "#PROGRAM"@);
    assert(tag != "#GEN"@);
    assert(tag != "#FNAMN"@);
    assert(tag != "#ORGNR"@);
    assert(tag != "#RAR"@);
    assert(tag != "#KONTO"@);
    assert(tag != "#KTYP"@);
    assert("#IB"@ != "#UB"@) by {
        assert("#IB"@[1] != "#UB"@[1]);
    }
    let x = int_text(b.year_index as int);
    let y = int_text(b.account_number as int);
    let z = decimal_text(b.amount);
    lemma_int_text(b.year_index);
    lemma_int_text(b.account_number);
    lemma_decimal_text(b.amount);
    assert(balance_rest(b) =~= x + seq![' '] + (y + seq![' '] + z));
    lemma_ws_tokens_cons(x, y + seq![' '] + z);
    lemma_ws_tokens_cons(y, z);
    lemma_ws_tokens_last(z);
    assert(ws_tokens(balance_rest(b)) =~= seq![x, y, z]);
    let kind = if tag == "#IB"@ {
        BalanceType::Opening
    } else {
        BalanceType::Closing
    };
    assert(kind == b.balance_type);
    assert(balance_spec(balance_rest(b), kind, n) == Outcome::Done(b));
}

pub open spec fn ver_rest(v: SieVoucherView) -> Seq<char> {
    let num = match v.number {
        Some(k) => int_text(k as int),
        None => Seq::empty(),
    };
    v.series + seq![' '] + num + seq![' '] + sie_compact_date(v.date) + seq![' '] + quoted(v.description)
}

proof fn lemma_tag_ver_line(st: ParseState, v: SieVoucherView, n: int)
    requires
        token(v.series),
        v.number is Some,
        iso_date(v.date),
        plain(v.description),
    ensures
        tag_step(st, "#VER"@, ver_rest(v), n) == Outcome::<ParseState>::Done(
            ParseState { current: Some(SieVoucherView { lines: Seq::empty(), ..v }), ..st },
        ),
{
    reveal_tags();
    assert("#VER"@ != "#SIETYP"@);
    assert("#VER"@ != "#PROGRAM"@);
    assert("#VER"@ != "#GEN"@) by {
        assert("#VER"@[1] != "#GEN"@[1]);
    }
    assert("#VER"@ != "#FNAMN"@);
    assert("#VER"@ != "#ORGNR"@);
    assert("#VER"@ != "#RAR"@) by {
        assert("#VER"@[1] != "#RAR"@[1]);
    }
    assert("#VER"@ != "#KONTO"@);
    assert("#VER"@ != "#KTYP"@);
    assert("#VER"@ != "#IB"@);
    assert("#VER"@ != "#UB"@);
    let k = v.number.unwrap();
    let a = v.series;
    let b = int_text(k as int);
    let c = sie_compact_date(v.date);
    let q = quoted(v.description);
    lemma_int_text(k);
    lemma_iso_date(v.date);
    assert(ver_rest(v) =~= a + seq![' '] + (b + seq![' '] + (c + seq![' '] + q)));
    lemma_fields_cons(a, b + seq![' '] + (c + seq![' '] + q));
    lemma_fields_cons(b, c + seq![' '] + q);
    lemma_fields_cons(c, q);
    lemma_fields_quoted(v.description, Seq::empty());
    assert(q + Seq::<char>::empty() =~= q);
    assert(quoted_fields(Seq::<char>::empty()) =~= Seq::<Seq<char>>::empty());
    assert(quoted_fields(ver_rest(v)) =~= seq![a, b, c, v.description]);
    assert(ver_spec(ver_rest(v), n) == Outcome::Done(SieVoucherView { lines: Seq::empty(), ..v }));
}

proof fn lemma_tag_other(st: ParseState, rest: Seq<char>, n: int)
    ensures
        tag_step(st, "#FLAGGA"@, rest, n) == Outcome::<ParseState>::Done(st),
        tag_step(st, "#FORMAT"@, rest, n) == Outcome::<ParseState>::Done(st),
{
    reveal_tags();
    reveal_strlit("#FLAGGA");
    reveal_strlit("#FORMAT");
    assert("#FLAGGA"@ != "#SIETYP"@) by {
        assert("#FLAGGA"@[1] != "#SIETYP"@[1]);
    }
    assert("#FORMAT"@ != "#SIETYP"@) by {
        assert("#FORMAT"@[1] != "#SIETYP"@[1]);
    }
}

proof fn lemma_top_line(st: ParseState, n: int, tag: Seq<char>, rest: Seq<char>)
    requires
        !st.in_block,
        token(tag),
        tag[0] == '#',
        trimmed(rest),
        rest.len() > 0,
    ensures
        line_step(st, n, tag + seq![' '] + rest) == tag_step(st, tag, rest, n),
{
    reveal_tags();
    let line = tag + seq![' '] + rest;
    assert(line =~= tag + (seq![' '] + rest));
    assert(line[0] == '#');
    assert(line.last() == rest.last());
    lemma_trim_id(line);
    assert(line != "{"@);
    assert(line != "}"@);
    lemma_ws_index_token(tag, seq![' '] + rest);
    assert(line.take(tag.len() as int) =~= tag);
    assert(line.skip(tag.len() as int) =~= seq![' '] + rest);
    lemma_trim_lead(' ', rest);
    assert(split_tag_spec(line) == (tag, rest));
}

proof fn lemma_top_line_bare(st: ParseState, n: int, tag: Seq<char>)
    requires
        !st.in_block,
        token(tag),
        tag[0] == '#',
    ensures
        line_step(st, n, tag + seq![' ']) == tag_step(st, tag, Seq::empty(), n),
{
    reveal_tags();
    let line = tag + seq![' '];
    assert(line.drop_last() =~= tag);
    assert(trim_start_seq(line) == line);
    assert(trim_end_seq(line) == trim_end_seq(tag));
    lemma_trim_id(tag);
    assert(trim_seq(line) == tag);
    assert(tag != "{"@);
    assert(tag != "}"@);
    lemma_ws_index_token(tag, Seq::empty());
    assert(tag + Seq::<char>::empty() =~= tag);
    assert(split_tag_spec(tag) == (tag, Seq::<char>::empty()));
}

proof fn lemma_delim_index_number(t: Seq<char>, rest: Seq<char>)
    requires
        t.len() > 0,
        number_chars(t),
        rest.len() > 0,
        is_ws(rest[0]),
    ensures
        delim_index(t + rest) == t.len(),
    decreases t.len(),
{
    let s = t + rest;
    assert(s[0] == t[0]);
    assert(is_digit(t[0]) || t[0] == '-' || t[0] == '.');
    assert(!is_ws(s[0]) && s[0] != '{');
    assert(delim_index(s) == 1 + delim_index(s.drop_first()));
    if t.len() > 1 {
        assert(s.drop_first() =~= t.drop_first() + rest);
        assert forall|i: int| 0 <= i < t.drop_first().len() implies is_digit(#[trigger] t.drop_first()[i])
            || t.drop_first()[i] == '-' || t.drop_first()[i] == '.' by {
            assert(t.drop_first()[i] == t[i + 1]);
        }
        lemma_delim_index_number(t.drop_first(), rest);
    } else {
        assert(s.drop_first() =~= rest);
        assert(delim_index(rest) == 0);
    }
}

/// What follows the dimension list of a transaction line: the amount, then
/// the date and the description where there are any.
pub open spec fn trans_tail(t: SieTransactionView) -> Seq<char> {
    let base = decimal_text(t.amount);
    let with_date = match t.date {
        Some(d) => base + seq![' '] + sie_compact_date(d),
        None => if t.description is Some {
            base + seq![' '] + quoted(Seq::empty())
        } else {
            base
        },
    };
    match t.description {
        Some(d) => with_date + seq![' '] + quoted(d),
        None => with_date,
    }
}

/// A transaction whose line keeps its date and description: a date in ISO
/// form, a description on one line and without quotes, and only after a date
/// (without one, the empty date field before the text reads back as an empty
/// date).
pub open spec fn trans_shape(t: SieTransactionView) -> bool {
    &&& t.date matches Some(d) ==> iso_date(d)
    &&& t.description matches Some(d) ==> plain(d) && t.date is Some
}

/// A transaction that its line gives back.
pub open spec fn trans_ok(t: SieTransactionView) -> bool {
    &&& amount_reads_back(t.amount)
    &&& trans_shape(t)
}

proof fn lemma_trans_tail(t: SieTransactionView)
    requires
        trans_ok(t),
    ensures
        trimmed(trans_tail(t)),
        trans_tail(t).len() > 0,
        one_line(trans_tail(t)),
        quoted_fields(trans_tail(t)) == match (t.date, t.description) {
            (Some(d), Some(x)) => seq![decimal_text(t.amount), sie_compact_date(d), x],
            (Some(d), None) => seq![decimal_text(t.amount), sie_compact_date(d)],
            (None, Some(x)) => seq![decimal_text(t.amount), Seq::empty(), x],
            (None, None) => seq![decimal_text(t.amount)],
        },
{
    let a = decimal_text(t.amount);
    lemma_decimal_text(t.amount);
    lemma_token_one_line(a);
    assert(quoted_fields(Seq::<char>::empty()) =~= Seq::<Seq<char>>::empty());
    match t.date {
        Some(d) => {
            let c = sie_compact_date(d);
            lemma_iso_date(d);
            lemma_token_one_line(c);
            lemma_one_line_add(a, seq![' ']);
            lemma_one_line_add(a + seq![' '], c);
            match t.description {
                Some(x) => {
                    let q = quoted(x);
                    lemma_quoted_one_line(x);
                    lemma_one_line_add(a + seq![' '] + c, seq![' ']);
                    lemma_one_line_add(a + seq![' '] + c + seq![' '], q);
                    assert(trans_tail(t) =~= a + seq![' '] + (c + seq![' '] + q));
                    lemma_fields_cons(a, c + seq![' '] + q);
                    lemma_fields_cons(c, q);
                    lemma_fields_quoted(x, Seq::empty());
                    assert(q + Seq::<char>::empty() =~= q);
                    assert(quoted_fields(trans_tail(t)) =~= seq![a, c, x]);
                },
                None => {
                    lemma_fields_cons(a, c);
                    lemma_fields_last(c);
                    assert(quoted_fields(trans_tail(t)) =~= seq![a, c]);
                    assert(c[c.len() - 1] == trans_tail(t).last());
                },
            }
        },
        None => {
            match t.description {
                Some(x) => {
                    let e = quoted(Seq::<char>::empty());
                    let q = quoted(x);
                    assert(one_line(Seq::<char>::empty()));
                    lemma_quoted_one_line(Seq::<char>::empty());
                    lemma_quoted_one_line(x);
                    lemma_one_line_add(a, seq![' ']);
                    lemma_one_line_add(a + seq![' '], e);
                    lemma_one_line_add(a + seq![' '] + e, seq![' ']);
                    lemma_one_line_add(a + seq![' '] + e + seq![' '], q);
                    assert(trans_tail(t) =~= a + seq![' '] + (e + (seq![' '] + q)));
                    lemma_fields_cons(a, e + (seq![' '] + q));
                    assert(plain(Seq::<char>::empty()));
                    lemma_fields_quoted(Seq::<char>::empty(), seq![' '] + q);
                    lemma_fields_space(q);
                    lemma_fields_quoted(x, Seq::empty());
                    assert(q + Seq::<char>::empty() =~= q);
                    assert(quoted_fields(trans_tail(t)) =~= seq![a, Seq::<char>::empty(), x]);
                    assert(trans_tail(t).last() == '"');
                },
                None => {
                    lemma_fields_last(a);
                },
            }
        },
    }
}

/// The line of a transaction, without its line break.
pub open spec fn trans_line(t: SieTransactionView) -> Seq<char> {
    "\t#TRANS "@ + int_text(t.account_number as int) + " {} "@ + trans_tail(t)
}

/// The line of a transaction once trimmed.
pub open spec fn trans_body(t: SieTransactionView) -> Seq<char> {
    "#TRANS"@ + seq![' '] + int_text(t.account_number as int) + seq![' ', '{', '}', ' '] + trans_tail(t)
}

proof fn lemma_trans_spec(t: SieTransactionView, n: int)
    requires
        trans_ok(t),
    ensures
        trans_spec(trans_body(t), n) == Outcome::Done(t),
{
    reveal_tags();
    let a = int_text(t.account_number as int);
    let r = trans_tail(t);
    lemma_int_text(t.account_number);
    lemma_trans_tail(t);
    let x = trans_body(t);
    assert(x.take(6) =~= "#TRANS"@);
    let after = a + seq![' ', '{', '}', ' '] + r;
    assert(strip_trans(x) =~= seq![' '] + after);
    assert(after[0] == a[0]);
    assert(after.last() == r.last());
    lemma_trim_lead(' ', after);
    assert(after =~= a + (seq![' ', '{', '}', ' '] + r));
    lemma_delim_index_number(a, seq![' ', '{', '}', ' '] + r);
    assert(after.take(a.len() as int) =~= a);
    lemma_trim_id(a);
    let remaining = after.skip(a.len() as int + 1);
    assert(remaining =~= seq!['{', '}', ' '] + r);
    assert(char_index(remaining, '}') == 1) by {
        assert(remaining[0] == '{');
        assert(remaining.drop_first()[0] == '}');
        assert(char_index(remaining.drop_first(), '}') == 0);
        assert(char_index(remaining, '}') == 1 + char_index(remaining.drop_first(), '}'));
    }
    assert(remaining.skip(2) =~= seq![' '] + r);
    lemma_trim_lead(' ', r);
    assert(trim_seq(strip_trans(x)) == after);
    assert(delim_index(after) == a.len());
    assert(trim_seq(after.take(a.len() as int)) == a);
    assert(parse_i32_seq(a) == Some(t.account_number));
    let fields = quoted_fields(r);
    assert(trim_seq(remaining.skip(2)) == r);
    assert(fields.len() > 0 && fields[0] == decimal_text(t.amount));
    assert(amount_reads_back(t.amount));
    let dt = decimal_from_text(fields[0]).unwrap();
    assert(decimal_of(dt) == t.amount);
    let description = if fields.len() > 2 {
        Some(fields[2])
    } else {
        None
    };
    assert(description == t.description);
    if fields.len() > 1 {
        let d = t.date.unwrap();
        lemma_iso_date(d);
        assert(fields[1] == sie_compact_date(d));
        assert(sie_date_text(fields[1]) == Some(d));
    } else {
        if t.date is Some {
            lemma_iso_date(t.date.unwrap());
        }
        assert(t.date is None);
    }
}

proof fn lemma_trans_line(st: ParseState, t: SieTransactionView, n: int)
    requires
        st.in_block,
        st.current is Some,
        trans_ok(t),
    ensures
        line_step(st, n, trans_line(t)) == Outcome::<ParseState>::Done(
            ParseState {
                current: Some(
                    SieVoucherView { lines: st.current.unwrap().lines.push(t), ..st.current.unwrap() },
                ),
                ..st
            },
        ),
{
    reveal_tags();
    reveal_strlit("\t#TRANS ");
    reveal_strlit(" {} ");
    let a = int_text(t.account_number as int);
    let r = trans_tail(t);
    lemma_trans_tail(t);
    let x = trans_body(t);
    assert(trans_line(t) =~= seq!['\t'] + x);
    assert(x[0] == '#');
    assert(x.last() == r.last());
    lemma_trim_lead('\t', x);
    assert(x != "{"@);
    assert(x != "}"@);
    assert(x.take(6) =~= "#TRANS"@);
    lemma_trans_spec(t, n);
}

proof fn lemma_one_line_add(a: Seq<char>, b: Seq<char>)
    requires
        one_line(a),
        one_line(b),
    ensures
        one_line(a + b),
{
    assert forall|i: int| 0 <= i < (a + b).len() implies (a + b)[i] != '\n' by {
        if i < a.len() {
            assert((a + b)[i] == a[i]);
        } else {
            assert((a + b)[i] == b[i - a.len()]);
        }
    }
}

proof fn lemma_token_one_line(t: Seq<char>)
    requires
        token(t),
    ensures
        one_line(t),
{
    assert forall|i: int| 0 <= i < t.len() implies t[i] != '\n' by {
        assert(!is_ws(t[i]));
    }
}

proof fn lemma_quoted_one_line(p: Seq<char>)
    requires
        one_line(p),
    ensures
        one_line(quoted(p)),
        trimmed(quoted(p)),
        quoted(p).len() >= 2,
{
    assert forall|i: int| 0 <= i < quoted(p).len() implies quoted(p)[i] != '\n' by {
        if 0 < i < quoted(p).len() - 1 {
            assert(quoted(p)[i] == p[i - 1]);
            assert(p[i - 1] != '\n');
        }
    }
}

/// One line of text, its line break after it.
proof fn lemma_piece(l: Seq<char>)
    requires
        one_line(l),
        l.len() > 0,
        l.last() != '\r',
    ensures
        text_lines(l + nl()) == seq![l],
        whole_lines(l + nl()),
{
    lemma_text_lines_one(l);
}

proof fn lemma_run_one(st: ParseState, l: Seq<char>, n: int)
    ensures
        run_lines(st, seq![l], n) == line_step(st, n, l),
{
    assert(seq![l].drop_first() =~= Seq::<Seq<char>>::empty());
    match line_step(st, n, l) {
        Outcome::Done(x) => {
            assert(run_lines(x, Seq::<Seq<char>>::empty(), n + 1) == Outcome::<ParseState>::Done(x));
        },
        _ => {},
    }
}

/// A tag line outside any voucher.
proof fn lemma_top_piece(st: ParseState, n: int, tag: Seq<char>, rest: Seq<char>)
    requires
        !st.in_block,
        token(tag),
        tag[0] == '#',
        trimmed(rest),
        rest.len() > 0,
        one_line(rest),
    ensures
        run_lines(st, text_lines(tag + seq![' '] + rest + nl()), n) == tag_step(st, tag, rest, n),
        whole_lines(tag + seq![' '] + rest + nl()),
        text_lines(tag + seq![' '] + rest + nl()).len() == 1,
{
    let l = tag + seq![' '] + rest;
    lemma_token_one_line(tag);
    lemma_one_line_add(tag, seq![' ']);
    lemma_one_line_add(tag + seq![' '], rest);
    assert(l.last() == rest.last());
    lemma_piece(l);
    lemma_run_one(st, l, n);
    lemma_top_line(st, n, tag, rest);
}

/// The texts of the tags that the writer puts before a space.
proof fn reveal_writer_tags()
    ensures
        "#RAR "@ == "#RAR"@ + seq![' '],
        "#KONTO "@ == "#KONTO"@ + seq![' '],
        "#KTYP "@ == "#KTYP"@ + seq![' '],
        "#VER "@ == "#VER"@ + seq![' '],
        "#GEN "@ == "#GEN"@ + seq![' '],
        "#FNAMN "@ == "#FNAMN"@ + seq![' '],
        "#ORGNR "@ == "#ORGNR"@ + seq![' '],
        "#PROGRAM "@ == "#PROGRAM"@ + seq![' '],
        "#SIETYP "@ == "#SIETYP"@ + seq![' '],
        " "@ == seq![' '],
        "#IB"@ == seq!['#', 'I', 'B'],
        "#UB"@ == seq!['#', 'U', 'B'],
{
    reveal_tags();
    reveal_strlit("#RAR ");
    reveal_strlit("#KONTO ");
    reveal_strlit("#KTYP ");
    reveal_strlit("#VER ");
    reveal_strlit("#GEN ");
    reveal_strlit("#FNAMN ");
    reveal_strlit("#ORGNR ");
    reveal_strlit("#PROGRAM ");
    reveal_strlit("#SIETYP ");
    reveal_strlit(" ");
    assert("#RAR "@ =~= "#RAR"@ + seq![' ']);
    assert("#KONTO "@ =~= "#KONTO"@ + seq![' ']);
    assert("#KTYP "@ =~= "#KTYP"@ + seq![' ']);
    assert("#VER "@ =~= "#VER"@ + seq![' ']);
    assert("#GEN "@ =~= "#GEN"@ + seq![' ']);
    assert("#FNAMN "@ =~= "#FNAMN"@ + seq![' ']);
    assert("#ORGNR "@ =~= "#ORGNR"@ + seq![' ']);
    assert("#PROGRAM "@ =~= "#PROGRAM"@ + seq![' ']);
    assert("#SIETYP "@ =~= "#SIETYP"@ + seq![' ']);
}

proof fn lemma_tag_token(tag: Seq<char>)
    requires
        tag.len() > 0,
        tag[0] == '#',
        forall|i: int| 1 <= i < tag.len() ==> 'A' <= #[trigger] tag[i] <= 'Z',
    ensures
        token(tag),
{
    assert forall|i: int| 0 <= i < tag.len() implies !is_ws(#[trigger] tag[i]) && tag[i] != '"' by {
        if i > 0 {
            assert('A' <= tag[i] <= 'Z');
        }
    }
}

proof fn lemma_rar_piece(st: ParseState, fy: SieFiscalYearView, n: int)
    requires
        !st.in_block,
        iso_date(fy.start_date),
        iso_date(fy.end_date),
    ensures
        run_lines(st, text_lines(rar_text(fy)), n) == Outcome::<ParseState>::Done(
            with_file(st, SieFileView { fiscal_years: st.file.fiscal_years.push(fy), ..st.file }),
        ),
        whole_lines(rar_text(fy)),
{
    reveal_tags();
    reveal_writer_tags();
    lemma_tag_token("#RAR"@);
    let a = int_text(fy.index as int);
    let b = sie_compact_date(fy.start_date);
    let c = sie_compact_date(fy.end_date);
    lemma_int_text(fy.index);
    lemma_iso_date(fy.start_date);
    lemma_iso_date(fy.end_date);
    let rest = rar_rest(fy);
    lemma_token_one_line(a);
    lemma_token_one_line(b);
    lemma_token_one_line(c);
    lemma_one_line_add(a, seq![' ']);
    lemma_one_line_add(a + seq![' '], b);
    lemma_one_line_add(a + seq![' '] + b, seq![' ']);
    lemma_one_line_add(a + seq![' '] + b + seq![' '], c);
    assert(rest[0] == a[0]);
    assert(rest.last() == c.last());
    assert(rar_text(fy) =~= "#RAR"@ + seq![' '] + rest + nl());
    lemma_top_piece(st, n, "#RAR"@, rest);
    lemma_tag_rar_line(st, fy, n);
}

proof fn lemma_whole_add(x: Seq<char>, y: Seq<char>)
    requires
        whole_lines(x),
        whole_lines(y),
    ensures
        whole_lines(x + y),
{
    if y.len() == 0 {
        assert(x + y =~= x);
    } else {
        assert((x + y).last() == y.last());
    }
}

/// Text made of whole lines, with the lines that it splits into.
proof fn lemma_lines_add(x: Seq<char>, y: Seq<char>)
    requires
        whole_lines(x),
        whole_lines(y),
    ensures
        whole_lines(x + y),
        text_lines(x + y) == text_lines(x) + text_lines(y),
{
    lemma_whole_add(x, y);
    lemma_text_lines_concat(x, y);
}

proof fn lemma_run_empty(st: ParseState, n: int)
    ensures
        run_lines(st, text_lines(Seq::empty()), n) == Outcome::<ParseState>::Done(st),
        whole_lines(Seq::<char>::empty()),
{
    assert(text_lines(Seq::<char>::empty()) =~= Seq::<Seq<char>>::empty());
}

proof fn lemma_fys(st: ParseState, fs: Seq<SieFiscalYearView>, n: int)
    requires
        !st.in_block,
        forall|i: int| 0 <= i < fs.len() ==> iso_date(#[trigger] fs[i].start_date) && iso_date(fs[i].end_date),
    ensures
        run_lines(st, text_lines(fiscal_years_text(fs)), n) == Outcome::<ParseState>::Done(
            with_file(st, SieFileView { fiscal_years: st.file.fiscal_years + fs, ..st.file }),
        ),
        whole_lines(fiscal_years_text(fs)),
    decreases fs.len(),
{
    if fs.len() == 0 {
        lemma_run_empty(st, n);
        assert(st.file.fiscal_years + fs =~= st.file.fiscal_years);
        assert(with_file(st, SieFileView { fiscal_years: st.file.fiscal_years + fs, ..st.file }) == st);
    } else {
        let init = fs.drop_last();
        let last = fs.last();
        assert forall|i: int| 0 <= i < init.len() implies iso_date(#[trigger] init[i].start_date) && iso_date(
            init[i].end_date,
        ) by {
            assert(init[i] == fs[i]);
        }
        lemma_fys(st, init, n);
        let a = fiscal_years_text(init);
        let b = rar_text(last);
        let st1 = with_file(st, SieFileView { fiscal_years: st.file.fiscal_years + init, ..st.file });
        assert(iso_date(fs[fs.len() - 1].start_date) && iso_date(fs[fs.len() - 1].end_date));
        lemma_rar_piece(st1, last, n + text_lines(a).len());
        lemma_lines_add(a, b);
        lemma_run_concat(st, text_lines(a), text_lines(b), n);
        assert(st.file.fiscal_years + init + seq![last] =~= st.file.fiscal_years + fs);
        assert((st.file.fiscal_years + init).push(last) =~= st.file.fiscal_years + fs);
    }
}

proof fn lemma_balance_piece(st: ParseState, b: SieBalance, n: int)
    requires
        !st.in_block,
        amount_reads_back(b.amount),
    ensures
        run_lines(st, text_lines(balance_text(b)), n) == Outcome::<ParseState>::Done(
            with_file(st, SieFileView { balances: st.file.balances.push(b), ..st.file }),
        ),
        whole_lines(balance_text(b)),
{
    reveal_tags();
    reveal_writer_tags();
    let tag = balance_tag(b.balance_type);
    lemma_tag_token(tag);
    let x = int_text(b.year_index as int);
    let y = int_text(b.account_number as int);
    let z = decimal_text(b.amount);
    lemma_int_text(b.year_index);
    lemma_int_text(b.account_number);
    lemma_decimal_text(b.amount);
    let rest = balance_rest(b);
    lemma_token_one_line(x);
    lemma_token_one_line(y);
    lemma_token_one_line(z);
    lemma_one_line_add(x, seq![' ']);
    lemma_one_line_add(x + seq![' '], y);
    lemma_one_line_add(x + seq![' '] + y, seq![' ']);
    lemma_one_line_add(x + seq![' '] + y + seq![' '], z);
    assert(rest[0] == x[0]);
    assert(rest.last() == z.last());
    assert(balance_text(b) =~= tag + seq![' '] + rest + nl());
    lemma_top_piece(st, n, tag, rest);
    lemma_tag_balance_line(st, b, n);
}

proof fn lemma_bals(st: ParseState, bs: Seq<SieBalance>, n: int)
    requires
        !st.in_block,
        forall|i: int| 0 <= i < bs.len() ==> amount_reads_back(#[trigger] bs[i].amount),
    ensures
        run_lines(st, text_lines(balances_text(bs)), n) == Outcome::<ParseState>::Done(
            with_file(st, SieFileView { balances: st.file.balances + bs, ..st.file }),
        ),
        whole_lines(balances_text(bs)),
    decreases bs.len(),
{
    if bs.len() == 0 {
        lemma_run_empty(st, n);
        assert(st.file.balances + bs =~= st.file.balances);
        assert(with_file(st, SieFileView { balances: st.file.balances + bs, ..st.file }) == st);
    } else {
        let init = bs.drop_last();
        let last = bs.last();
        assert forall|i: int| 0 <= i < init.len() implies amount_reads_back(#[trigger] init[i].amount) by {
            assert(init[i] == bs[i]);
        }
        lemma_bals(st, init, n);
        let a = balances_text(init);
        let b = balance_text(last);
        let st1 = with_file(st, SieFileView { balances: st.file.balances + init, ..st.file });
        assert(amount_reads_back(bs[bs.len() - 1].amount));
        lemma_balance_piece(st1, last, n + text_lines(a).len());
        lemma_lines_add(a, b);
        lemma_run_concat(st, text_lines(a), text_lines(b), n);
        assert((st.file.balances + init).push(last) =~= st.file.balances + bs);
    }
}

proof fn lemma_first_with_number(s: Seq<SieAccountView>, x: SieAccountView)
    requires
        forall|i: int| 0 <= i < s.len() ==> (#[trigger] s[i]).number != x.number,
    ensures
        first_with_number(s.push(x), x.number) == s.len(),
    decreases s.len(),
{
    let t = s.push(x);
    if s.len() > 0 {
        assert(t[0] == s[0]);
        assert(t.drop_first() =~= s.drop_first().push(x));
        assert forall|i: int| 0 <= i < s.drop_first().len() implies (#[trigger] s.drop_first()[i]).number
            != x.number by {
            assert(s.drop_first()[i] == s[i + 1]);
        }
        lemma_first_with_number(s.drop_first(), x);
    } else {
        assert(t[0] == x);
    }
}

/// An account whose lines give it back.
pub open spec fn account_ok(a: SieAccountView) -> bool {
    &&& plain(a.name)
    &&& a.account_type matches Some(t) ==> token(t)
}

pub open spec fn konto_text(a: SieAccountView) -> Seq<char> {
    "#KONTO"@ + seq![' '] + konto_rest(a) + nl()
}

pub open spec fn ktyp_text(num: i32, t: Seq<char>) -> Seq<char> {
    "#KTYP"@ + seq![' '] + (int_text(num as int) + seq![' '] + t) + nl()
}

proof fn lemma_konto_piece(st: ParseState, a: SieAccountView, n: int)
    requires
        !st.in_block,
        plain(a.name),
    ensures
        run_lines(st, text_lines(konto_text(a)), n) == Outcome::<ParseState>::Done(
            with_file(
                st,
                SieFileView {
                    accounts: st.file.accounts.push(SieAccountView { account_type: None, ..a }),
                    ..st.file
                },
            ),
        ),
        whole_lines(konto_text(a)),
        text_lines(konto_text(a)).len() == 1,
{
    reveal_tags();
    lemma_tag_token("#KONTO"@);
    let num = int_text(a.number as int);
    lemma_int_text(a.number);
    let q = quoted(a.name);
    lemma_quoted_one_line(a.name);
    let rest = konto_rest(a);
    lemma_token_one_line(num);
    lemma_one_line_add(num, seq![' ']);
    lemma_one_line_add(num + seq![' '], q);
    assert(rest[0] == num[0]);
    assert(rest.last() == q.last());
    lemma_top_piece(st, n, "#KONTO"@, rest);
    lemma_tag_konto_line(st, a, n);
}

proof fn lemma_ktyp_piece(st: ParseState, num: i32, t: Seq<char>, n: int)
    requires
        !st.in_block,
        token(t),
    ensures
        run_lines(st, text_lines(ktyp_text(num, t)), n) == Outcome::<ParseState>::Done(
            with_file(st, SieFileView { accounts: set_account_type(st.file.accounts, num, t), ..st.file }),
        ),
        whole_lines(ktyp_text(num, t)),
{
    reveal_tags();
    lemma_tag_token("#KTYP"@);
    let x = int_text(num as int);
    lemma_int_text(num);
    let rest = x + seq![' '] + t;
    lemma_token_one_line(x);
    lemma_token_one_line(t);
    lemma_one_line_add(x, seq![' ']);
    lemma_one_line_add(x + seq![' '], t);
    assert(rest[0] == x[0]);
    assert(rest.last() == t.last());
    assert(!is_ws(t[t.len() - 1]));
    lemma_top_piece(st, n, "#KTYP"@, rest);
    lemma_tag_ktyp_line(st, num, t, n);
}

proof fn lemma_account_piece(st: ParseState, a: SieAccountView, n: int)
    requires
        !st.in_block,
        account_ok(a),
        forall|i: int| 0 <= i < st.file.accounts.len() ==> (#[trigger] st.file.accounts[i]).number != a.number,
    ensures
        run_lines(st, text_lines(account_text(a)), n) == Outcome::<ParseState>::Done(
            with_file(st, SieFileView { accounts: st.file.accounts.push(a), ..st.file }),
        ),
        whole_lines(account_text(a)),
{
    reveal_writer_tags();
    let konto = konto_text(a);
    lemma_konto_piece(st, a, n);
    let a0 = SieAccountView { account_type: None, ..a };
    let st1 = with_file(st, SieFileView { accounts: st.file.accounts.push(a0), ..st.file });
    match a.account_type {
        Some(t) => {
            let ktyp = ktyp_text(a.number, t);
            assert(account_text(a) =~= konto + ktyp);
            lemma_ktyp_piece(st1, a.number, t, n + 1);
            lemma_first_with_number(st.file.accounts, a0);
            assert(st.file.accounts.push(a0)[st.file.accounts.len() as int] == a0);
            assert(set_account_type(st.file.accounts.push(a0), a.number, t) =~= st.file.accounts.push(a));
            lemma_lines_add(konto, ktyp);
            lemma_run_concat(st, text_lines(konto), text_lines(ktyp), n);
        },
        None => {
            assert(account_text(a) =~= konto);
            assert(a0 == a);
        },
    }
}

proof fn lemma_accs(st: ParseState, accs: Seq<SieAccountView>, n: int)
    requires
        !st.in_block,
        forall|i: int| 0 <= i < accs.len() ==> account_ok(#[trigger] accs[i]),
        forall|i: int, j: int| 0 <= i < j < accs.len() ==> (#[trigger] accs[i]).number != (#[trigger] accs[j]).number,
        forall|i: int, j: int|
            0 <= i < st.file.accounts.len() && 0 <= j < accs.len() ==> (#[trigger] st.file.accounts[i]).number
                != (#[trigger] accs[j]).number,
    ensures
        run_lines(st, text_lines(accounts_text(accs)), n) == Outcome::<ParseState>::Done(
            with_file(st, SieFileView { accounts: st.file.accounts + accs, ..st.file }),
        ),
        whole_lines(accounts_text(accs)),
    decreases accs.len(),
{
    if accs.len() == 0 {
        lemma_run_empty(st, n);
        assert(st.file.accounts + accs =~= st.file.accounts);
        assert(with_file(st, SieFileView { accounts: st.file.accounts + accs, ..st.file }) == st);
    } else {
        let init = accs.drop_last();
        let last = accs.last();
        assert forall|i: int| 0 <= i < init.len() implies account_ok(#[trigger] init[i]) by {
            assert(init[i] == accs[i]);
        }
        assert forall|i: int, j: int| 0 <= i < j < init.len() implies (#[trigger] init[i]).number != (
        #[trigger] init[j]).number by {
            assert(init[i] == accs[i] && init[j] == accs[j]);
        }
        assert forall|i: int, j: int|
            0 <= i < st.file.accounts.len() && 0 <= j < init.len() implies (
            #[trigger] st.file.accounts[i]).number != (#[trigger] init[j]).number by {
            assert(init[j] == accs[j]);
        }
        lemma_accs(st, init, n);
        let a = accounts_text(init);
        let b = account_text(last);
        let prev = st.file.accounts + init;
        let st1 = with_file(st, SieFileView { accounts: prev, ..st.file });
        assert(account_ok(accs[accs.len() - 1]));
        assert forall|i: int| 0 <= i < prev.len() implies (#[trigger] prev[i]).number != last.number by {
            if i < st.file.accounts.len() {
                assert(prev[i] == st.file.accounts[i]);
                assert(st.file.accounts[i].number != accs[accs.len() - 1].number);
            } else {
                assert(prev[i] == accs[i - st.file.accounts.len()]);
                assert(accs[i - st.file.accounts.len()].number != accs[accs.len() - 1].number);
            }
        }
        lemma_account_piece(st1, last, n + text_lines(a).len());
        lemma_lines_add(a, b);
        lemma_run_concat(st, text_lines(a), text_lines(b), n);
        assert(prev.push(last) =~= st.file.accounts + accs);
    }
}

proof fn lemma_trans_piece(st: ParseState, t: SieTransactionView, n: int)
    requires
        st.in_block,
        st.current is Some,
        trans_ok(t),
    ensures
        run_lines(st, text_lines(trans_text(t)), n) == Outcome::<ParseState>::Done(
            ParseState {
                current: Some(
                    SieVoucherView { lines: st.current.unwrap().lines.push(t), ..st.current.unwrap() },
                ),
                ..st
            },
        ),
        whole_lines(trans_text(t)),
{
    reveal_strlit("\t#TRANS ");
    reveal_strlit(" {} ");
    reveal_writer_tags();
    let l = trans_line(t);
    assert(trans_text(t) =~= l + nl());
    let a = int_text(t.account_number as int);
    lemma_int_text(t.account_number);
    lemma_token_one_line(a);
    lemma_trans_tail(t);
    let head = "\t#TRANS "@;
    let mid = " {} "@;
    assert(one_line(head));
    assert(one_line(mid));
    lemma_one_line_add(head, a);
    lemma_one_line_add(head + a, mid);
    lemma_one_line_add(head + a + mid, trans_tail(t));
    assert(l.last() == trans_tail(t).last());
    lemma_piece(l);
    lemma_run_one(st, l, n);
    lemma_trans_line(st, t, n);
}

proof fn lemma_trans_lines(st: ParseState, ts: Seq<SieTransactionView>, n: int)
    requires
        st.in_block,
        st.current is Some,
        forall|i: int| 0 <= i < ts.len() ==> trans_ok(#[trigger] ts[i]),
    ensures
        run_lines(st, text_lines(lines_text(ts)), n) == Outcome::<ParseState>::Done(
            ParseState {
                current: Some(
                    SieVoucherView { lines: st.current.unwrap().lines + ts, ..st.current.unwrap() },
                ),
                ..st
            },
        ),
        whole_lines(lines_text(ts)),
    decreases ts.len(),
{
    let cur = st.current.unwrap();
    if ts.len() == 0 {
        lemma_run_empty(st, n);
        assert(cur.lines + ts =~= cur.lines);
    } else {
        let init = ts.drop_last();
        let last = ts.last();
        assert forall|i: int| 0 <= i < init.len() implies trans_ok(#[trigger] init[i]) by {
            assert(init[i] == ts[i]);
        }
        lemma_trans_lines(st, init, n);
        let a = lines_text(init);
        let b = trans_text(last);
        let st1 = ParseState { current: Some(SieVoucherView { lines: cur.lines + init, ..cur }), ..st };
        assert(trans_ok(ts[ts.len() - 1]));
        lemma_trans_piece(st1, last, n + text_lines(a).len());
        lemma_lines_add(a, b);
        lemma_run_concat(st, text_lines(a), text_lines(b), n);
        assert((cur.lines + init).push(last) =~= cur.lines + ts);
    }
}

/// A voucher whose head line keeps it: a series without white space or
/// quotes, a number, an ISO date and a description on one line without quotes.
pub open spec fn voucher_shape(v: SieVoucherView) -> bool {
    &&& token(v.series)
    &&& v.number is Some
    &&& iso_date(v.date)
    &&& plain(v.description)
    &&& forall|i: int| 0 <= i < v.lines.len() ==> trans_shape(#[trigger] v.lines[i])
}

/// A voucher whose lines give it back.
pub open spec fn voucher_ok(v: SieVoucherView) -> bool {
    &&& voucher_shape(v)
    &&& forall|i: int| 0 <= i < v.lines.len() ==> trans_ok(#[trigger] v.lines[i])
}

proof fn lemma_brace_pieces(st: ParseState, n: int)
    ensures
        run_lines(st, text_lines("{"@ + nl()), n) == Outcome::<ParseState>::Done(
            ParseState { in_block: true, ..st },
        ),
        whole_lines("{"@ + nl()),
        text_lines("{"@ + nl()).len() == 1,
        st.current matches Some(v) ==> run_lines(st, text_lines("}"@ + nl()), n) == Outcome::<
            ParseState,
        >::Done(
            ParseState {
                file: SieFileView { vouchers: st.file.vouchers.push(v), ..st.file },
                current: None,
                in_block: false,
            },
        ),
        whole_lines("}"@ + nl()),
{
    reveal_tags();
    let o = "{"@;
    let c = "}"@;
    assert(one_line(o));
    assert(one_line(c));
    lemma_piece(o);
    lemma_piece(c);
    lemma_run_one(st, o, n);
    lemma_run_one(st, c, n);
    lemma_trim_id(o);
    lemma_trim_id(c);
}

proof fn lemma_ver_piece(st: ParseState, v: SieVoucherView, n: int)
    requires
        !st.in_block,
        voucher_ok(v),
    ensures
        run_lines(st, text_lines("#VER"@ + seq![' '] + ver_rest(v) + nl()), n) == Outcome::<ParseState>::Done(
            ParseState { current: Some(SieVoucherView { lines: Seq::empty(), ..v }), ..st },
        ),
        whole_lines("#VER"@ + seq![' '] + ver_rest(v) + nl()),
        text_lines("#VER"@ + seq![' '] + ver_rest(v) + nl()).len() == 1,
{
    reveal_tags();
    lemma_tag_token("#VER"@);
    let k = v.number.unwrap();
    let a = v.series;
    let b = int_text(k as int);
    let c = sie_compact_date(v.date);
    let q = quoted(v.description);
    lemma_int_text(k);
    lemma_iso_date(v.date);
    lemma_quoted_one_line(v.description);
    lemma_token_one_line(a);
    lemma_token_one_line(b);
    lemma_token_one_line(c);
    let rest = ver_rest(v);
    assert(rest =~= a + seq![' '] + b + seq![' '] + c + seq![' '] + q);
    lemma_one_line_add(a, seq![' ']);
    lemma_one_line_add(a + seq![' '], b);
    lemma_one_line_add(a + seq![' '] + b, seq![' ']);
    lemma_one_line_add(a + seq![' '] + b + seq![' '], c);
    lemma_one_line_add(a + seq![' '] + b + seq![' '] + c, seq![' ']);
    lemma_one_line_add(a + seq![' '] + b + seq![' '] + c + seq![' '], q);
    assert(rest[0] == a[0]);
    assert(rest.last() == q.last());
    lemma_top_piece(st, n, "#VER"@, rest);
    lemma_tag_ver_line(st, v, n);
}

proof fn lemma_voucher_piece(st: ParseState, v: SieVoucherView, n: int)
    requires
        !st.in_block,
        st.current is None,
        voucher_ok(v),
    ensures
        run_lines(st, text_lines(voucher_text(v)), n) == Outcome::<ParseState>::Done(
            with_file(st, SieFileView { vouchers: st.file.vouchers.push(v), ..st.file }),
        ),
        whole_lines(voucher_text(v)),
{
    reveal_writer_tags();
    reveal_tags();
    let ver = "#VER"@ + seq![' '] + ver_rest(v) + nl();
    let open = "{"@ + nl();
    let body = lines_text(v.lines);
    let close = "}"@ + nl();
    assert(voucher_text(v) =~= ver + open + body + close);
    let v0 = SieVoucherView { lines: Seq::empty(), ..v };
    let st1 = ParseState { current: Some(v0), ..st };
    let st2 = ParseState { in_block: true, ..st1 };
    let st3 = ParseState { current: Some(SieVoucherView { lines: v0.lines + v.lines, ..v0 }), ..st2 };
    lemma_ver_piece(st, v, n);
    lemma_brace_pieces(st1, n + 1);
    lemma_trans_lines(st2, v.lines, n + 2);
    assert(v0.lines + v.lines =~= v.lines);
    assert(SieVoucherView { lines: v0.lines + v.lines, ..v0 } == v);
    lemma_brace_pieces(st3, n + 2 + text_lines(body).len());
    lemma_lines_add(ver, open);
    lemma_lines_add(ver + open, body);
    lemma_lines_add(ver + open + body, close);
    lemma_run_concat(st, text_lines(ver), text_lines(open), n);
    lemma_run_concat(st, text_lines(ver) + text_lines(open), text_lines(body), n);
    lemma_run_concat(st, text_lines(ver) + text_lines(open) + text_lines(body), text_lines(close), n);
}

proof fn lemma_vouchers(st: ParseState, vs: Seq<SieVoucherView>, n: int)
    requires
        !st.in_block,
        st.current is None,
        forall|i: int| 0 <= i < vs.len() ==> voucher_ok(#[trigger] vs[i]),
    ensures
        run_lines(st, text_lines(vouchers_text(vs)), n) == Outcome::<ParseState>::Done(
            with_file(st, SieFileView { vouchers: st.file.vouchers + vs, ..st.file }),
        ),
        whole_lines(vouchers_text(vs)),
    decreases vs.len(),
{
    if vs.len() == 0 {
        lemma_run_empty(st, n);
        assert(st.file.vouchers + vs =~= st.file.vouchers);
        assert(with_file(st, SieFileView { vouchers: st.file.vouchers + vs, ..st.file }) == st);
    } else {
        let init = vs.drop_last();
        let last = vs.last();
        assert forall|i: int| 0 <= i < init.len() implies voucher_ok(#[trigger] init[i]) by {
            assert(init[i] == vs[i]);
        }
        lemma_vouchers(st, init, n);
        let a = vouchers_text(init);
        let b = voucher_text(last);
        let st1 = with_file(st, SieFileView { vouchers: st.file.vouchers + init, ..st.file });
        assert(voucher_ok(vs[vs.len() - 1]));
        lemma_voucher_piece(st1, last, n + text_lines(a).len());
        lemma_lines_add(a, b);
        lemma_run_concat(st, text_lines(a), text_lines(b), n);
        assert((st.file.vouchers + init).push(last) =~= st.file.vouchers + vs);
    }
}

/// A header whose lines give it back.
pub open spec fn header_ok(f: SieFileView) -> bool {
    &&& f.program is Some <==> f.program_version is Some
    &&& f.program matches Some(p) ==> plain(p)
    &&& f.program_version matches Some(v) ==> plain(v)
    &&& f.gen_date matches Some(d) ==> iso_date(d)
    &&& f.company_name matches Some(c) ==> one_line(c)
    &&& f.org_number matches Some(o) ==> o.len() == 0 || token(o)
}

/// The header fields of `f` over the fields of `g`.
pub open spec fn with_header(g: SieFileView, f: SieFileView) -> SieFileView {
    SieFileView {
        sie_type: f.sie_type,
        program: f.program,
        program_version: f.program_version,
        gen_date: f.gen_date,
        company_name: f.company_name,
        org_number: f.org_number,
        ..g
    }
}

proof fn lemma_fixed_pieces(st: ParseState, t: SieType, n: int)
    requires
        !st.in_block,
    ensures
        run_lines(st, text_lines("#FLAGGA 0"@ + nl()), n) == Outcome::<ParseState>::Done(st),
        whole_lines("#FLAGGA 0"@ + nl()),
        run_lines(st, text_lines("#FORMAT PC8"@ + nl()), n) == Outcome::<ParseState>::Done(st),
        whole_lines("#FORMAT PC8"@ + nl()),
        run_lines(st, text_lines("#SIETYP "@ + sie_type_text(t) + nl()), n) == Outcome::<ParseState>::Done(
            with_file(st, SieFileView { sie_type: t, ..st.file }),
        ),
        whole_lines("#SIETYP "@ + sie_type_text(t) + nl()),
{
    reveal_tags();
    reveal_writer_tags();
    reveal_strlit("#FLAGGA 0");
    reveal_strlit("#FORMAT PC8");
    reveal_strlit("#FLAGGA");
    reveal_strlit("#FORMAT");
    reveal_strlit("0");
    reveal_strlit("PC8");
    reveal_strlit("1");
    reveal_strlit("2");
    reveal_strlit("4");
    lemma_tag_token("#FLAGGA"@);
    lemma_tag_token("#FORMAT"@);
    lemma_tag_token("#SIETYP"@);
    assert("#FLAGGA 0"@ =~= "#FLAGGA"@ + seq![' '] + "0"@);
    assert("#FORMAT PC8"@ =~= "#FORMAT"@ + seq![' '] + "PC8"@);
    lemma_top_piece(st, n, "#FLAGGA"@, "0"@);
    lemma_top_piece(st, n, "#FORMAT"@, "PC8"@);
    lemma_tag_other(st, "0"@, n);
    lemma_tag_other(st, "PC8"@, n);
    let ty = sie_type_text(t);
    assert(ty.len() == 1 && ('0' <= ty[0] <= '9'));
    lemma_trim_id(ty);
    assert(sie_type_from_text(ty) == Some(t));
    lemma_top_piece(st, n, "#SIETYP"@, ty);
    lemma_tag_sietyp(st, ty, n);
}

proof fn lemma_program_piece(st: ParseState, f: SieFileView, n: int)
    requires
        !st.in_block,
        header_ok(f),
        st.file.program is None,
        st.file.program_version is None,
    ensures
        run_lines(st, text_lines(program_line(f)), n) == Outcome::<ParseState>::Done(
            with_file(st, SieFileView { program: f.program, program_version: f.program_version, ..st.file }),
        ),
        whole_lines(program_line(f)),
{
    reveal_tags();
    reveal_writer_tags();
    match f.program {
        Some(p) => {
            let v = f.program_version.unwrap();
            lemma_tag_token("#PROGRAM"@);
            lemma_quoted_one_line(p);
            lemma_quoted_one_line(v);
            let rest = quoted(p) + seq![' '] + quoted(v);
            lemma_one_line_add(quoted(p), seq![' ']);
            lemma_one_line_add(quoted(p) + seq![' '], quoted(v));
            assert(rest[0] == '"');
            assert(rest.last() == '"');
            assert(program_line(f) =~= "#PROGRAM"@ + seq![' '] + rest + nl());
            lemma_top_piece(st, n, "#PROGRAM"@, rest);
            lemma_tag_program(st, p, v, n);
        },
        None => {
            assert(program_line(f) =~= Seq::<char>::empty());
            lemma_run_empty(st, n);
            assert(with_file(st, SieFileView { program: f.program, program_version: f.program_version, ..st.file })
                == st);
        },
    }
}

proof fn lemma_gen_piece(st: ParseState, f: SieFileView, n: int)
    requires
        !st.in_block,
        header_ok(f),
        st.file.gen_date is None,
    ensures
        run_lines(st, text_lines(gen_line(f)), n) == Outcome::<ParseState>::Done(
            with_file(st, SieFileView { gen_date: f.gen_date, ..st.file }),
        ),
        whole_lines(gen_line(f)),
{
    reveal_tags();
    reveal_writer_tags();
    match f.gen_date {
        Some(d) => {
            lemma_tag_token("#GEN"@);
            lemma_iso_date(d);
            let c = sie_compact_date(d);
            lemma_token_one_line(c);
            assert(gen_line(f) =~= "#GEN"@ + seq![' '] + c + nl());
            lemma_top_piece(st, n, "#GEN"@, c);
            lemma_tag_gen(st, d, n);
        },
        None => {
            assert(gen_line(f) =~= Seq::<char>::empty());
            lemma_run_empty(st, n);
            assert(with_file(st, SieFileView { gen_date: f.gen_date, ..st.file }) == st);
        },
    }
}

proof fn lemma_name_piece(st: ParseState, f: SieFileView, n: int)
    requires
        !st.in_block,
        header_ok(f),
        st.file.company_name is None,
    ensures
        run_lines(st, text_lines(name_line(f)), n) == Outcome::<ParseState>::Done(
            with_file(st, SieFileView { company_name: f.company_name, ..st.file }),
        ),
        whole_lines(name_line(f)),
{
    reveal_tags();
    reveal_writer_tags();
    match f.company_name {
        Some(c) => {
            lemma_tag_token("#FNAMN"@);
            lemma_quoted_one_line(c);
            assert(name_line(f) =~= "#FNAMN"@ + seq![' '] + quoted(c) + nl());
            lemma_top_piece(st, n, "#FNAMN"@, quoted(c));
            lemma_tag_fnamn(st, c, n);
        },
        None => {
            assert(name_line(f) =~= Seq::<char>::empty());
            lemma_run_empty(st, n);
            assert(with_file(st, SieFileView { company_name: f.company_name, ..st.file }) == st);
        },
    }
}

proof fn lemma_org_piece(st: ParseState, f: SieFileView, n: int)
    requires
        !st.in_block,
        header_ok(f),
        st.file.org_number is None,
    ensures
        run_lines(st, text_lines(org_line(f)), n) == Outcome::<ParseState>::Done(
            with_file(st, SieFileView { org_number: f.org_number, ..st.file }),
        ),
        whole_lines(org_line(f)),
{
    reveal_tags();
    reveal_writer_tags();
    match f.org_number {
        Some(o) => {
            lemma_tag_token("#ORGNR"@);
            lemma_tag_orgnr(st, o, n);
            if o.len() > 0 {
                lemma_token_one_line(o);
                assert(!is_ws(o[0]) && !is_ws(o[o.len() - 1]));
                assert(org_line(f) =~= "#ORGNR"@ + seq![' '] + o + nl());
                lemma_top_piece(st, n, "#ORGNR"@, o);
            } else {
                let l = "#ORGNR"@ + seq![' '];
                assert(org_line(f) =~= l + nl());
                lemma_token_one_line("#ORGNR"@);
                lemma_one_line_add("#ORGNR"@, seq![' ']);
                lemma_piece(l);
                lemma_run_one(st, l, n);
                lemma_top_line_bare(st, n, "#ORGNR"@);
                assert(o =~= Seq::<char>::empty());
            }
        },
        None => {
            assert(org_line(f) =~= Seq::<char>::empty());
            lemma_run_empty(st, n);
            assert(with_file(st, SieFileView { org_number: f.org_number, ..st.file }) == st);
        },
    }
}

proof fn lemma_then(st: ParseState, a: Seq<char>, b: Seq<char>, n: int, m: ParseState, r: ParseState)
    requires
        whole_lines(a),
        whole_lines(b),
        run_lines(st, text_lines(a), n) == Outcome::<ParseState>::Done(m),
        run_lines(m, text_lines(b), n + text_lines(a).len()) == Outcome::<ParseState>::Done(r),
    ensures
        whole_lines(a + b),
        run_lines(st, text_lines(a + b), n) == Outcome::<ParseState>::Done(r),
{
    lemma_lines_add(a, b);
    lemma_run_concat(st, text_lines(a), text_lines(b), n);
}

proof fn lemma_fixed_header(st: ParseState, t: SieType, n: int)
    requires
        !st.in_block,
    ensures
        run_lines(
            st,
            text_lines("#FLAGGA 0"@ + nl() + "#FORMAT PC8"@ + nl() + "#SIETYP "@ + sie_type_text(t) + nl()),
            n,
        ) == Outcome::<ParseState>::Done(with_file(st, SieFileView { sie_type: t, ..st.file })),
        whole_lines("#FLAGGA 0"@ + nl() + "#FORMAT PC8"@ + nl() + "#SIETYP "@ + sie_type_text(t) + nl()),
{
    let p1 = "#FLAGGA 0"@ + nl();
    let p2 = "#FORMAT PC8"@ + nl();
    let p3 = "#SIETYP "@ + sie_type_text(t) + nl();
    assert(p1 + "#FORMAT PC8"@ + nl() =~= p1 + p2);
    assert(p1 + p2 + "#SIETYP "@ + sie_type_text(t) + nl() =~= p1 + p2 + p3);
    lemma_fixed_pieces(st, t, n);
    let n1 = n + text_lines(p1).len();
    lemma_fixed_pieces(st, t, n1);
    lemma_then(st, p1, p2, n, st, st);
    let n2 = n + text_lines(p1 + p2).len();
    lemma_fixed_pieces(st, t, n2);
    lemma_then(st, p1 + p2, p3, n, st, with_file(st, SieFileView { sie_type: t, ..st.file }));
}

proof fn lemma_header(st: ParseState, f: SieFileView, n: int)
    requires
        !st.in_block,
        header_ok(f),
        st.file.program is None,
        st.file.program_version is None,
        st.file.gen_date is None,
        st.file.company_name is None,
        st.file.org_number is None,
    ensures
        run_lines(st, text_lines(header_text(f)), n) == Outcome::<ParseState>::Done(
            with_file(st, with_header(st.file, f)),
        ),
        whole_lines(header_text(f)),
{
    let p0 = "#FLAGGA 0"@ + nl() + "#FORMAT PC8"@ + nl() + "#SIETYP "@ + sie_type_text(f.sie_type) + nl();
    let p4 = program_line(f);
    let p5 = gen_line(f);
    let p6 = name_line(f);
    let p7 = org_line(f);
    assert(header_text(f) =~= p0 + p4 + p5 + p6 + p7);
    let s3 = with_file(st, SieFileView { sie_type: f.sie_type, ..st.file });
    let s4 = with_file(s3, SieFileView { program: f.program, program_version: f.program_version, ..s3.file });
    let s5 = with_file(s4, SieFileView { gen_date: f.gen_date, ..s4.file });
    let s6 = with_file(s5, SieFileView { company_name: f.company_name, ..s5.file });
    let s7 = with_file(s6, SieFileView { org_number: f.org_number, ..s6.file });
    lemma_fixed_header(st, f.sie_type, n);
    assert(run_lines(st, text_lines(p0 + p4), n) == Outcome::<ParseState>::Done(s4) && whole_lines(p0 + p4))
        by {
        lemma_program_piece(s3, f, n + text_lines(p0).len());
        lemma_then(st, p0, p4, n, s3, s4);
    }
    assert(run_lines(st, text_lines(p0 + p4 + p5), n) == Outcome::<ParseState>::Done(s5) && whole_lines(
        p0 + p4 + p5,
    )) by {
        lemma_gen_piece(s4, f, n + text_lines(p0 + p4).len());
        lemma_then(st, p0 + p4, p5, n, s4, s5);
    }
    assert(run_lines(st, text_lines(p0 + p4 + p5 + p6), n) == Outcome::<ParseState>::Done(s6) && whole_lines(
        p0 + p4 + p5 + p6,
    )) by {
        lemma_name_piece(s5, f, n + text_lines(p0 + p4 + p5).len());
        lemma_then(st, p0 + p4 + p5, p6, n, s5, s6);
    }
    assert(run_lines(st, text_lines(p0 + p4 + p5 + p6 + p7), n) == Outcome::<ParseState>::Done(s7)
        && whole_lines(p0 + p4 + p5 + p6 + p7)) by {
        lemma_org_piece(s6, f, n + text_lines(p0 + p4 + p5 + p6).len());
        lemma_then(st, p0 + p4 + p5 + p6, p7, n, s6, s7);
    }
    assert(s7 == with_file(st, with_header(st.file, f)));
}

/// A file that its text keeps: header fields, dates, names, account types
/// and voucher fields in the forms that their lines can carry, account
/// numbers that occur once, and vouchers only in a Type 4 file.
pub open spec fn sie_writable(f: SieFileView) -> bool {
    &&& header_ok(f)
    &&& forall|i: int|
        0 <= i < f.fiscal_years.len() ==> iso_date(#[trigger] f.fiscal_years[i].start_date) && iso_date(
            f.fiscal_years[i].end_date,
        )
    &&& forall|i: int| 0 <= i < f.accounts.len() ==> account_ok(#[trigger] f.accounts[i])
    &&& forall|i: int, j: int|
        0 <= i < j < f.accounts.len() ==> (#[trigger] f.accounts[i]).number != (#[trigger] f.accounts[j]).number
    &&& f.sie_type == SieType::Type4 || f.vouchers.len() == 0
    &&& forall|i: int| 0 <= i < f.vouchers.len() ==> voucher_shape(#[trigger] f.vouchers[i])
}

/// Every amount of the file reads back from its text as itself.
pub open spec fn amounts_read_back(f: SieFileView) -> bool {
    &&& forall|i: int| 0 <= i < f.balances.len() ==> amount_reads_back(#[trigger] f.balances[i].amount)
    &&& forall|i: int, j: int|
        0 <= i < f.vouchers.len() && 0 <= j < f.vouchers[i].lines.len() ==> amount_reads_back(
            #[trigger] f.vouchers[i].lines[j].amount,
        )
}

/// Reading back what was written: the text that the writer makes of a file
/// (`write_sie_string`), read by the parser (`parse_sie_str`), gives the same
/// file, wherever each amount's decimal text reads back as that amount.
#[verifier::spinoff_prover]
#[verifier::rlimit(50)]
pub proof fn lemma_write_then_read(f: SieFileView)
    requires
        sie_writable(f),
    ensures
        amounts_read_back(f) ==> sie_parse(sie_file_text(f)) == Outcome::Done(f),
{
    if amounts_read_back(f) {
        let st0 = initial_state();
        let h = header_text(f);
        let a = crate::sie::writer::fiscal_years_text(f.fiscal_years);
        let b = accounts_text(f.accounts);
        let c = balances_text(f.balances);
        let d = if f.sie_type == SieType::Type4 {
            vouchers_text(f.vouchers)
        } else {
            Seq::empty()
        };
        assert(sie_file_text(f) == h + a + b + c + d);
        let f1 = with_header(st0.file, f);
        let s1 = with_file(st0, f1);
        lemma_header(st0, f, 0);
        let f2 = SieFileView { fiscal_years: f1.fiscal_years + f.fiscal_years, ..f1 };
        let s2 = with_file(s1, f2);
        assert(run_lines(st0, text_lines(h + a), 0) == Outcome::<ParseState>::Done(s2) && whole_lines(h + a))
            by {
            lemma_fys(s1, f.fiscal_years, text_lines(h).len() as int);
            lemma_then(st0, h, a, 0, s1, s2);
        }
        let f3 = SieFileView { accounts: f2.accounts + f.accounts, ..f2 };
        let s3 = with_file(s2, f3);
        assert(run_lines(st0, text_lines(h + a + b), 0) == Outcome::<ParseState>::Done(s3) && whole_lines(
            h + a + b,
        )) by {
            assert(f2.accounts.len() == 0);
            lemma_accs(s2, f.accounts, text_lines(h + a).len() as int);
            lemma_then(st0, h + a, b, 0, s2, s3);
        }
        let f4 = SieFileView { balances: f3.balances + f.balances, ..f3 };
        let s4 = with_file(s3, f4);
        assert(run_lines(st0, text_lines(h + a + b + c), 0) == Outcome::<ParseState>::Done(s4) && whole_lines(
            h + a + b + c,
        )) by {
            lemma_bals(s3, f.balances, text_lines(h + a + b).len() as int);
            lemma_then(st0, h + a + b, c, 0, s3, s4);
        }
        let f5 = SieFileView { vouchers: f4.vouchers + f.vouchers, ..f4 };
        let s5 = with_file(s4, f5);
        assert(run_lines(st0, text_lines(h + a + b + c + d), 0) == Outcome::<ParseState>::Done(s5)) by {
            if f.sie_type == SieType::Type4 {
                assert forall|i: int| 0 <= i < f.vouchers.len() implies voucher_ok(#[trigger] f.vouchers[i]) by {
                    assert(voucher_shape(f.vouchers[i]));
                    assert forall|j: int| 0 <= j < f.vouchers[i].lines.len() implies trans_ok(
                        #[trigger] f.vouchers[i].lines[j],
                    ) by {
                        assert(amount_reads_back(f.vouchers[i].lines[j].amount));
                        assert(trans_shape(f.vouchers[i].lines[j]));
                    }
                }
                lemma_vouchers(s4, f.vouchers, text_lines(h + a + b + c).len() as int);
                lemma_then(st0, h + a + b + c, d, 0, s4, s5);
            } else {
                lemma_run_empty(s4, text_lines(h + a + b + c).len() as int);
                lemma_then(st0, h + a + b + c, d, 0, s4, s4);
                assert(f4.vouchers + f.vouchers =~= f4.vouchers);
            }
        }
        assert(f5 =~= f);
        let ls = text_lines(sie_file_text(f));
        lemma_lines_from_run(ls, 0, st0);
        assert(ls.skip(0) =~= ls);
    }
}

/// The same for bytes: the Latin-1 bytes that the writer makes of a file
/// (`write_sie`), read by the parser (`parse_sie`), give the file again, for a
/// text of Latin-1 characters that is ASCII or whose bytes are not by chance
/// valid UTF-8.
pub proof fn lemma_write_then_read_bytes(f: SieFileView)
    requires
        sie_writable(f),
        all_latin1(sie_file_text(f)),
        vstd::utf8::is_ascii_chars(sie_file_text(f)) || !vstd::utf8::valid_utf8(latin1_bytes(sie_file_text(f))),
    ensures
        amounts_read_back(f) ==> sie_parse(sie_text_of_bytes(latin1_bytes(sie_file_text(f)))) == Outcome::Done(
            f,
        ),
{
    lemma_latin1_roundtrip(sie_file_text(f));
    lemma_write_then_read(f);
}

/// A compact SIE date: eight ASCII digits, `YYYYMMDD`.
pub open spec fn compact_date(c: Seq<char>) -> bool {
    &&& c.len() == 8
    &&& forall|i: int| 0 <= i < 8 ==> is_digit(#[trigger] c[i])
}

/// `format_sie_date` undoes `to_sie_date` on an ISO date: dropping the dashes
/// of `YYYY-MM-DD` and reading the result as a SIE date gives the date again.
pub proof fn lemma_iso_date_roundtrip(d: Seq<char>)
    requires
        iso_date(d),
    ensures
        sie_date_text(sie_compact_date(d)) == Some(d),
        compact_date(sie_compact_date(d)),
{
    lemma_iso_date(d);
}

/// `to_sie_date` undoes `format_sie_date` on a compact date: reading
/// `YYYYMMDD` as `YYYY-MM-DD` and dropping the dashes gives it again.
pub proof fn lemma_compact_date_roundtrip(c: Seq<char>)
    requires
        compact_date(c),
    ensures
        sie_date_text(c) matches Some(d) && iso_date(d) && sie_compact_date(d) == c,
        sie_compact_date(c) == c,
{
    assert forall|i: int| 0 <= i < c.len() implies (#[trigger] c[i] as u32) < 0x80 by {
        assert(is_digit(c[i]));
    }
    assert(is_digit(c[0]) && is_digit(c[7]));
    lemma_trim_id(c);
    lemma_ascii_utf8_len(c);
    lemma_ascii_byte_cut(c, 4);
    lemma_ascii_byte_cut(c, 6);
    let y = c.take(4);
    let m = c.subrange(4, 6);
    let dd = c.skip(6);
    let dash = seq!['-'];
    let d = y + dash + m + dash + dd;
    assert(sie_date_text(c) == Some(d));
    assert forall|i: int| 0 <= i < 10 && i != 4 && i != 7 implies is_digit(#[trigger] d[i]) by {
        if i < 4 {
            assert(d[i] == c[i]);
        } else if i < 7 {
            assert(d[i] == c[i - 1]);
        } else {
            assert(d[i] == c[i - 2]);
        }
    }
    assert forall|i: int| 0 <= i < y.len() implies #[trigger] y[i] != '-' by {
        assert(is_digit(c[i]));
    }
    assert forall|i: int| 0 <= i < m.len() implies #[trigger] m[i] != '-' by {
        assert(is_digit(c[i + 4]));
    }
    assert forall|i: int| 0 <= i < dd.len() implies #[trigger] dd[i] != '-' by {
        assert(is_digit(c[i + 6]));
    }
    lemma_no_dash_filter(y);
    lemma_no_dash_filter(m);
    lemma_no_dash_filter(dd);
    let pred = |ch: char| ch != '-';
    assert(dash.filter(pred) =~= Seq::<char>::empty()) by {
        Seq::<char>::empty().lemma_filter_push('-', pred);
        assert(Seq::<char>::empty().push('-') =~= dash);
        assert(Seq::<char>::empty().filter(pred) =~= Seq::<char>::empty());
    }
    Seq::filter_distributes_over_add(y + dash + m + dash, dd, pred);
    Seq::filter_distributes_over_add(y + dash + m, dash, pred);
    Seq::filter_distributes_over_add(y + dash, m, pred);
    Seq::filter_distributes_over_add(y, dash, pred);
    assert(sie_compact_date(d) =~= y + m + dd);
    assert(y + m + dd =~= c);
    assert forall|i: int| 0 <= i < c.len() implies #[trigger] c[i] != '-' by {
        assert(is_digit(c[i]));
    }
    lemma_no_dash_filter(c);
}

/// The tags that the reader acts on.
pub open spec fn known_tag(t: Seq<char>) -> bool {
    ||| t == "#SIETYP"@
    ||| t == "#PROGRAM"@
    ||| t == "#GEN"@
    ||| t == "#FNAMN"@
    ||| t == "#ORGNR"@
    ||| t == "#RAR"@
    ||| t == "#KONTO"@
    ||| t == "#KTYP"@
    ||| t == "#IB"@
    ||| t == "#UB"@
    ||| t == "#VER"@
}

/// The reader passes over a line with a tag it does not know, outside a
/// voucher: the state after the line is the state before it.
pub proof fn lemma_unknown_tag_ignored(st: ParseState, n: int, raw: Seq<char>)
    requires
        !st.in_block,
        trim_seq(raw).len() > 0,
        trim_seq(raw)[0] == '#',
        !known_tag(split_tag_spec(trim_seq(raw)).0),
    ensures
        line_step(st, n, raw) == Outcome::<ParseState>::Done(st),
{
    reveal_tags();
    let line = trim_seq(raw);
    assert(line != "{"@);
    assert(line != "}"@);
}

/// Inside a voucher the reader passes over every line but `#TRANS` lines and
/// the closing brace.
pub proof fn lemma_block_lines_ignored(st: ParseState, n: int, raw: Seq<char>)
    requires
        st.in_block,
        trim_seq(raw).len() > 0,
        trim_seq(raw)[0] == '#',
        !(trim_seq(raw).len() >= 6 && trim_seq(raw).take(6) == "#TRANS"@),
    ensures
        line_step(st, n, raw) == Outcome::<ParseState>::Done(st),
{
    reveal_tags();
    let line = trim_seq(raw);
    assert(line != "{"@);
    assert(line != "}"@);
}

/// Two outcomes alike but for the line numbers in an error: the same file
/// read, an error in both, or a crash in both.
pub open spec fn same_outcome<T>(a: Outcome<T>, b: Outcome<T>) -> bool {
    match (a, b) {
        (Outcome::Done(x), Outcome::Done(y)) => x == y,
        (Outcome::Failed(_), Outcome::Failed(_)) => true,
        (Outcome::Crashed, Outcome::Crashed) => true,
        _ => false,
    }
}

proof fn lemma_tag_step_any_n(st: ParseState, tag: Seq<char>, rest: Seq<char>, n: int, m: int)
    ensures
        same_outcome(tag_step(st, tag, rest, n), tag_step(st, tag, rest, m)),
{
}

proof fn lemma_line_step_any_n(st: ParseState, raw: Seq<char>, n: int, m: int)
    ensures
        same_outcome(line_step(st, n, raw), line_step(st, m, raw)),
{
    let line = trim_seq(raw);
    if line.len() > 0 && line[0] == '#' {
        let (tag, rest) = split_tag_spec(line);
        lemma_tag_step_any_n(st, tag, rest, n, m);
    }
}

proof fn lemma_run_any_n(st: ParseState, ls: Seq<Seq<char>>, n: int, m: int)
    ensures
        same_outcome(run_lines(st, ls, n), run_lines(st, ls, m)),
    decreases ls.len(),
{
    if ls.len() > 0 {
        lemma_line_step_any_n(st, ls[0], n, m);
        match line_step(st, n, ls[0]) {
            Outcome::Done(next) => lemma_run_any_n(next, ls.drop_first(), n + 1, m + 1),
            _ => {},
        }
    }
}

/// A text ending in white space trims as it does without that character.
proof fn lemma_trim_drop_ws(s: Seq<char>)
    requires
        s.len() > 0,
        is_ws(s.last()),
    ensures
        trim_seq(s) == trim_seq(s.drop_last()),
    decreases s.len(),
{
    if s.len() == 1 {
        assert(s.drop_first() =~= Seq::<char>::empty());
        assert(s.drop_last() =~= Seq::<char>::empty());
        assert(trim_start_seq(s) == trim_start_seq(s.drop_first()));
    } else if is_ws(s[0]) {
        let t = s.drop_first();
        assert(t.last() == s.last());
        lemma_trim_drop_ws(t);
        assert(t.drop_last() =~= s.drop_last().drop_first());
        assert(s.drop_last()[0] == s[0]);
        assert(trim_start_seq(s) == trim_start_seq(t));
        assert(trim_start_seq(s.drop_last()) == trim_start_seq(s.drop_last().drop_first()));
    } else {
        assert(s.drop_last()[0] == s[0]);
        assert(trim_start_seq(s) == s);
        assert(trim_start_seq(s.drop_last()) == s.drop_last());
    }
}

/// A line that the reader passes over outside a voucher: blank, not a tag
/// line, or a tag line whose tag it does not know (and no brace).
pub open spec fn passed_over(l: Seq<char>) -> bool {
    let t = trim_seq(l);
    &&& t != "{"@
    &&& t != "}"@
    &&& !(t.len() > 0 && t[0] == '#' && known_tag(split_tag_spec(t).0))
}

/// The reader leaves every line that it passes over at the state before it.
proof fn lemma_passed_over_step(st: ParseState, n: int, l: Seq<char>)
    requires
        !st.in_block,
        passed_over(l),
    ensures
        line_step(st, n, l) == Outcome::<ParseState>::Done(st),
{
    reveal_tags();
    let t = trim_seq(l);
    if t.len() > 0 && t[0] == '#' {
        lemma_unknown_tag_ignored(st, n, l);
    }
}

/// Unknown tags are ignored: inserting a line that the reader passes over
/// (such as `#DIM 1 Kst`) into a SIE text, after whole lines that leave no
/// voucher block open, reads to the same file, or fails or crashes as the
/// text without it does.
pub proof fn lemma_inserted_line_ignored(a: Seq<char>, l: Seq<char>, b: Seq<char>)
    requires
        whole_lines(a),
        one_line(l),
        passed_over(l),
        forall|m: ParseState|
            run_lines(initial_state(), text_lines(a), 0) == Outcome::<ParseState>::Done(m) ==> !m.in_block,
    ensures
        same_outcome(sie_parse(a + l + nl() + b), sie_parse(a + b)),
{
    let st0 = initial_state();
    let la = text_lines(a);
    let lb = text_lines(b);
    lemma_text_lines_one(l);
    let l1 = strip_cr(l);
    assert(whole_lines(l + nl()));
    lemma_lines_add(a, l + nl());
    assert(a + l + nl() =~= a + (l + nl()));
    lemma_text_lines_concat(a + l + nl(), b);
    lemma_text_lines_concat(a, b);
    let ls2 = text_lines(a + l + nl() + b);
    let ls1 = text_lines(a + b);
    assert(ls2 == la + seq![l1] + lb);
    assert(ls1 == la + lb);
    lemma_lines_from_run(ls2, 0, st0);
    lemma_lines_from_run(ls1, 0, st0);
    assert(ls2.skip(0) =~= ls2);
    assert(ls1.skip(0) =~= ls1);
    lemma_run_concat(st0, la + seq![l1], lb, 0);
    lemma_run_concat(st0, la, seq![l1], 0);
    lemma_run_concat(st0, la, lb, 0);
    match run_lines(st0, la, 0) {
        Outcome::Done(m) => {
            assert(!m.in_block);
            if l.len() > 0 && l.last() == '\r' {
                lemma_trim_drop_ws(l);
            }
            assert(trim_seq(l1) == trim_seq(l));
            assert(passed_over(l1));
            lemma_passed_over_step(m, la.len() as int, l1);
            lemma_run_one(m, l1, la.len() as int);
            lemma_run_any_n(m, lb, la.len() as int + 1, la.len() as int);
            assert((la + seq![l1]).len() == la.len() + 1);
        },
        _ => {},
    }
}

} // verus!
