//! iXBRL (Inline XBRL) for Bolagsverket: the annual report as XHTML with
//! the facts tagged by the Swedish K2 taxonomy.
use vstd::prelude::*;
use crate::money::{push_nat, Money};
use crate::report::annual_report::{AnnualReport, ProfitAllocation};
use crate::report::balance_sheet::BalanceSheetData;
use sha2::Digest;
use vstd::string::StringSliceAdditionalSpecFns;
use crate::report::income_statement::IncomeStatementData;
use crate::report::notes::Note;
use crate::sie::syntax::{byte_cut, lemma_byte_cut_bounds, utf8_char_len, utf8_len};
use crate::sie::writer::PROGRAM_VERSION;
use crate::tax::sru::div_toward_zero;
use crate::text::{chars_of, int_text, nat_digits, push_char, push_chars, push_int, push_str};

verus! {

/// Digits grouped in threes from the right by spaces: the first `k` characters.
pub open spec fn grouped_upto(ds: Seq<char>, k: int) -> Seq<char>
    decreases k,
{
    if k <= 0 {
        Seq::empty()
    } else {
        grouped_upto(ds, k - 1) + (if k - 1 > 0 && (ds.len() - (k - 1)) % 3 == 0 {
            seq![' ']
        } else {
            Seq::empty()
        }) + seq![ds[k - 1]]
    }
}

/// Digits with a space before each group of three that another group precedes.
pub open spec fn group_thousands(ds: Seq<char>) -> Seq<char> {
    grouped_upto(ds, ds.len() as int)
}

/// An amount (öre) in whole kronor, rounded toward zero, with spaces between
/// the thousands; "-" for zero.
pub open spec fn sek_text(ore: int) -> Seq<char> {
    if ore == 0 {
        "-"@
    } else {
        let sek = div_toward_zero(ore, 100);
        let mag = if sek < 0 {
            -sek
        } else {
            sek
        };
        (if sek < 0 {
            seq!['-']
        } else {
            Seq::empty()
        }) + group_thousands(nat_digits(mag as nat))
    }
}

/// Appends the digits `ds` grouped in threes by spaces.
pub fn push_grouped(out: &mut String, ds: &Vec<char>)
    ensures
        final(out)@ == old(out)@ + group_thousands(ds@),
{
    let ghost base = old(out)@;
    let mut i: usize = 0;
    while i < ds.len()
        invariant
            i <= ds@.len(),
            out@ == base + grouped_upto(ds@, i as int),
        decreases ds.len() - i,
    {
        if i > 0 && (ds.len() - i) % 3 == 0 {
            push_char(out, ' ');
        }
        push_char(out, ds[i]);
        assert(out@ =~= base + grouped_upto(ds@, i + 1));
        i += 1;
    }
}

/// Appends `sek_text` of an amount.
fn push_sek(out: &mut String, m: Money)
    ensures
        final(out)@ == old(out)@ + sek_text(m@),
{
    let ghost base = old(out)@;
    let ore = m.to_ore();
    if ore == 0 {
        push_str(out, "-");
        return;
    }
    // Format as SEK with thousands separator
    let sek = ore / 100;
    let mag: u128 = if sek < 0 {
        (-(sek as i128)) as u128
    } else {
        sek as u128
    };
    let mut digits = String::new();
    push_nat(&mut digits, mag);
    let ds = chars_of(digits.as_str());
    assert(ds@ =~= nat_digits(mag as nat));
    if sek < 0 {
        push_char(out, '-');
    }
    let ghost mid = out@;
    push_grouped(out, &ds);
    proof {
        let sign: Seq<char> = if sek < 0 {
            seq!['-']
        } else {
            Seq::empty()
        };
        assert(mid =~= base + sign);
        assert(out@ =~= base + (sign + group_thousands(nat_digits(mag as nat))));
    }
}

/// Whole kronor with a space between the thousands ("-" for zero).
pub fn fmt_sek(m: Money) -> (s: String)
    ensures
        s@ == sek_text(m@),
{
    let mut s = String::new();
    push_sek(&mut s, m);
    assert(s@ =~= sek_text(m@));
    s
}

/// How XML writes a character: `&`, `<`, `>` and `"` as entities.
pub open spec fn escape_char(c: char) -> Seq<char> {
    if c == '&' {
        "&amp;"@
    } else if c == '<' {
        "&lt;"@
    } else if c == '>' {
        "&gt;"@
    } else if c == '"' {
        "&quot;"@
    } else {
        seq![c]
    }
}

/// A text with every character escaped for XML.
pub open spec fn escape_text(s: Seq<char>) -> Seq<char>
    decreases s.len(),
{
    if s.len() == 0 {
        Seq::empty()
    } else {
        escape_text(s.drop_last()) + escape_char(s.last())
    }
}

/// A note's text in XHTML: escaped, with `<br/>` for each line break.
pub open spec fn note_html(s: Seq<char>) -> Seq<char>
    decreases s.len(),
{
    if s.len() == 0 {
        Seq::empty()
    } else {
        note_html(s.drop_last()) + if s.last() == '\n' {
            "<br/>"@
        } else {
            escape_char(s.last())
        }
    }
}

fn push_escaped_char(out: &mut String, c: char)
    ensures
        final(out)@ == old(out)@ + escape_char(c),
{
    if c == '&' {
        push_str(out, "&amp;");
    } else if c == '<' {
        push_str(out, "&lt;");
    } else if c == '>' {
        push_str(out, "&gt;");
    } else if c == '"' {
        push_str(out, "&quot;");
    } else {
        push_char(out, c);
        assert(final(out)@ =~= old(out)@ + seq![c]);
    }
}

fn push_escaped(out: &mut String, s: &str)
    ensures
        final(out)@ == old(out)@ + escape_text(s@),
{
    let ghost base = old(out)@;
    let cs = chars_of(s);
    let mut i: usize = 0;
    while i < cs.len()
        invariant
            i <= cs@.len(),
            cs@ == s@,
            out@ == base + escape_text(cs@.take(i as int)),
        decreases cs.len() - i,
    {
        assert(cs@.take(i + 1).drop_last() =~= cs@.take(i as int));
        push_escaped_char(out, cs[i]);
        assert(out@ =~= base + escape_text(cs@.take(i + 1)));
        i += 1;
    }
    assert(cs@.take(cs@.len() as int) =~= cs@);
}

/// Escape `&`, `<`, `>` and `"` for XML.
pub fn escape_xml(s: &str) -> (r: String)
    ensures
        r@ == escape_text(s@),
{
    let mut r = String::new();
    push_escaped(&mut r, s);
    assert(r@ =~= escape_text(s@));
    r
}

fn push_note_html(out: &mut String, s: &str)
    ensures
        final(out)@ == old(out)@ + note_html(s@),
{
    let ghost base = old(out)@;
    let cs = chars_of(s);
    let mut i: usize = 0;
    while i < cs.len()
        invariant
            i <= cs@.len(),
            cs@ == s@,
            out@ == base + note_html(cs@.take(i as int)),
        decreases cs.len() - i,
    {
        assert(cs@.take(i + 1).drop_last() =~= cs@.take(i as int));
        if cs[i] == '\n' {
            push_str(out, "<br/>");
        } else {
            push_escaped_char(out, cs[i]);
        }
        assert(out@ =~= base + note_html(cs@.take(i + 1)));
        i += 1;
    }
    assert(cs@.take(cs@.len() as int) =~= cs@);
}

/// An organisation number as shown: ten bytes without a dash get one after
/// the sixth byte; anything else is shown as it is. `None` where the cut
/// would fall inside a character (the slicing panics).
pub open spec fn org_cut(org: Seq<char>) -> Option<Seq<char>> {
    if utf8_len(org) == 10 && !org.contains('-') {
        match byte_cut(org, 6) {
            Some(k) => Some(org.take(k) + seq!['-'] + org.skip(k)),
            None => None,
        }
    } else {
        Some(org)
    }
}

/// The organisation number as shown (itself where no cut can be made).
pub open spec fn org_shown(org: Seq<char>) -> Seq<char> {
    match org_cut(org) {
        Some(s) => s,
        None => org,
    }
}

fn char_bytes(c: char) -> (n: u32)
    ensures
        n == utf8_char_len(c),
{
    let u = c as u32;
    if u < 0x80 {
        1
    } else if u < 0x800 {
        2
    } else if u < 0x10000 {
        3
    } else {
        4
    }
}

/// An organisation number with a dash after its sixth byte (`NNNNNN-NNNN`)
/// when it has ten bytes and no dash.
pub fn format_org_number(org: &str) -> (r: String)
    requires
        org_cut(org@) is Some,
    ensures
        r@ == org_shown(org@),
{
    let cs = chars_of(org);
    let ghost d = cs@;
    let mut count: u32 = 0;
    let mut dash = false;
    let mut cut6: Option<usize> = None;
    let mut j: usize = 0;
    assert(d.take(0) =~= Seq::<char>::empty());
    while j < cs.len() && count <= 10
        invariant
            j <= cs@.len(),
            d == cs@,
            d == org@,
            count as nat == utf8_len(d.take(j as int)),
            count <= 14,
            dash == d.take(j as int).contains('-'),
            cut6 == (match byte_cut(d.take(j as int), 6) {
                Some(k) => Some(k as usize),
                None => None::<usize>,
            }),
        decreases cs.len() - j,
    {
        let n = char_bytes(cs[j]);
        proof {
            assert(d.take(j + 1).drop_last() =~= d.take(j as int));
            assert(d.take(j + 1).last() == cs@[j as int]);
            let t1 = d.take(j + 1);
            let t0 = d.take(j as int);
            if t1.contains('-') && cs@[j as int] != '-' {
                let w = choose|w: int| 0 <= w < t1.len() && #[trigger] t1[w] == '-';
                assert(t0[w] == '-');
            }
            if t0.contains('-') {
                let w = choose|w: int| 0 <= w < t0.len() && #[trigger] t0[w] == '-';
                assert(t1[w] == '-');
            }
            if cs@[j as int] == '-' {
                assert(t1[j as int] == '-');
            }
        }
        if cs[j] == '-' {
            dash = true;
        }
        count = count + n;
        j += 1;
        if count == 6 {
            cut6 = Some(j);
        }
    }
    if count == 10 && j == cs.len() && !dash {
        assert(d.take(j as int) =~= d);
        match cut6 {
            Some(k) => {
                proof {
                    lemma_byte_cut_bounds(d, 6);
                }
                let mut out = String::new();
                push_chars(&mut out, &cs, 0, k);
                push_char(&mut out, '-');
                push_chars(&mut out, &cs, k, cs.len());
                assert(out@ =~= d.take(k as int) + seq!['-'] + d.skip(k as int));
                out
            },
            None => {
                assert(false);
                crate::text::to_string(org)
            },
        }
    } else {
        proof {
            if j < cs.len() {
                crate::sie::syntax::lemma_utf8_len_prefix(d, j as int);
            } else {
                assert(d.take(j as int) =~= d);
            }
        }
        crate::text::to_string(org)
    }
}

/// Where `t` begins in `s` at `i`.
pub open spec fn occurs_at(s: Seq<char>, t: Seq<char>, i: int) -> bool {
    0 <= i && i + t.len() <= s.len() && s.subrange(i, i + t.len()) == t
}

/// The first place from `from` on where `t` begins in `s`.
pub open spec fn first_occurrence(s: Seq<char>, t: Seq<char>, from: int) -> Option<int>
    decreases s.len() + 1 - from,
{
    if from < 0 || from + t.len() > s.len() {
        None
    } else if occurs_at(s, t, from) {
        Some(from)
    } else {
        first_occurrence(s, t, from + 1)
    }
}

/// The two dates of a fiscal year's label "start — end": the parts when
/// `str::split` on " — " gives exactly two.
pub open spec fn label_parts(s: Seq<char>) -> Option<(Seq<char>, Seq<char>)> {
    match first_occurrence(s, " — "@, 0) {
        Some(p) => if first_occurrence(s, " — "@, p + 3) is None {
            Some((s.take(p), s.skip(p + 3)))
        } else {
            None
        },
        None => None,
    }
}

fn separator_at(cs: &Vec<char>, i: usize) -> (b: bool)
    requires
        i + 3 <= cs@.len(),
    ensures
        b == occurs_at(cs@, " — "@, i as int),
{
    proof {
        reveal_strlit(" — ");
    }
    let n = cs.len();
    assert(i + 3 <= n);
    let b = cs[i] == ' ' && cs[i + 1] == '—' && cs[i + 2] == ' ';
    proof {
        let t = " — "@;
        if b {
            assert(cs@.subrange(i as int, i + 3) =~= t);
        } else {
            if cs@.subrange(i as int, i + 3) == t {
                assert(cs@.subrange(i as int, i + 3)[0] == t[0]);
                assert(cs@.subrange(i as int, i + 3)[1] == t[1]);
                assert(cs@.subrange(i as int, i + 3)[2] == t[2]);
            }
        }
    }
    b
}

fn find_separator(cs: &Vec<char>, from: usize) -> (r: Option<usize>)
    ensures
        match r {
            Some(p) => first_occurrence(cs@, " — "@, from as int) == Some(p as int),
            None => first_occurrence(cs@, " — "@, from as int) is None,
        },
{
    proof {
        reveal_strlit(" — ");
    }
    if cs.len() < 3 {
        return None;
    }
    let mut i = from;
    while i < cs.len() && cs.len() - i >= 3
        invariant
            from <= i,
            cs@.len() >= 3,
            first_occurrence(cs@, " — "@, from as int) == first_occurrence(cs@, " — "@, i as int),
        decreases cs.len() - i,
    {
        if separator_at(cs, i) {
            return Some(i);
        }
        i += 1;
    }
    None
}

/// The start of a table row with XBRL tagging: the label and the amount
/// tagged with its name in the period's context (or at its end).
pub open spec fn row_head(instant: bool, label: Seq<char>, name: Seq<char>, cur: int, total: bool) -> Seq<char> {
    if instant {
        "\n    <tr class=\""@ + (if total { "subtotal"@ } else { Seq::<char>::empty() }) + "\">\n      <th class=\"label\">"@ + label + "</th>\n      <td><ix:nonFraction name=\"se-gen-base:"@ + name + "\" contextRef=\"current_instant\" unitRef=\"SEK\" decimals=\"0\" format=\"ixt:num-dot-decimal\">"@ + sek_text(cur) + "</ix:nonFraction></td>"@
    } else {
        "\n    <tr class=\""@ + (if total { "subtotal"@ } else { Seq::<char>::empty() }) + "\">\n      <th class=\"label\">"@ + label + "</th>\n      <td><ix:nonFraction name=\"se-gen-base:"@ + name + "\" contextRef=\"current\" unitRef=\"SEK\" decimals=\"0\" format=\"ixt:num-dot-decimal\">"@ + sek_text(cur) + "</ix:nonFraction></td>"@
    }
}

/// The previous year's cell of a row, when there is a previous year.
pub open spec fn prev_cell(prev: Option<int>) -> Seq<char> {
    match prev {
        Some(v) => "\n      <td>"@ + sek_text(v) + "</td>"@,
        None => Seq::empty(),
    }
}

/// A table row with XBRL tagging: the label, the tagged amount, the
/// previous year's amount when there is one.
pub open spec fn row_text(instant: bool, label: Seq<char>, name: Seq<char>, cur: int, prev: Option<int>, total: bool) -> Seq<char> {
    row_head(instant, label, name, cur, total) + prev_cell(prev) + "\n    </tr>"@
}

pub open spec fn opt_ore(m: Option<Money>) -> Option<int> {
    match m {
        Some(v) => Some(v@),
        None => None,
    }
}

fn write_row_head(doc: &mut String, instant: bool, label: &str, name: &str, current: Money, total: bool)
    ensures
        final(doc)@ == old(doc)@ + row_head(instant, label@, name@, current@, total),
{
    let ghost base = old(doc)@;
    if instant {
        push_str(doc, "\n    <tr class=\"");
    if total { push_str(doc, "subtotal"); }
    push_str(doc, "\">\n      <th class=\"label\">");
    push_str(doc, label);
    push_str(doc, "</th>\n      <td><ix:nonFraction name=\"se-gen-base:");
    push_str(doc, name);
    push_str(doc, "\" contextRef=\"current_instant\" unitRef=\"SEK\" decimals=\"0\" format=\"ixt:num-dot-decimal\">");
    push_sek(doc, current);
    push_str(doc, "</ix:nonFraction></td>");
    } else {
        push_str(doc, "\n    <tr class=\"");
    if total { push_str(doc, "subtotal"); }
    push_str(doc, "\">\n      <th class=\"label\">");
    push_str(doc, label);
    push_str(doc, "</th>\n      <td><ix:nonFraction name=\"se-gen-base:");
    push_str(doc, name);
    push_str(doc, "\" contextRef=\"current\" unitRef=\"SEK\" decimals=\"0\" format=\"ixt:num-dot-decimal\">");
    push_sek(doc, current);
    push_str(doc, "</ix:nonFraction></td>");
    }
    assert(doc@ =~= base + row_head(instant, label@, name@, current@, total));
}

fn write_prev_cell(doc: &mut String, previous: Option<Money>)
    ensures
        final(doc)@ == old(doc)@ + prev_cell(opt_ore(previous)),
{
    let ghost base = old(doc)@;
    match previous {
        Some(v) => {
            push_str(doc, "\n      <td>");
    push_sek(doc, v);
    push_str(doc, "</td>");
        },
        None => {},
    }
    assert(doc@ =~= base + prev_cell(opt_ore(previous)));
}

fn write_row(doc: &mut String, instant: bool, label: &str, name: &str, current: Money, previous: Option<Money>, total: bool)
    ensures
        final(doc)@ == old(doc)@ + row_text(instant, label@, name@, current@, opt_ore(previous), total),
{
    let ghost base = old(doc)@;
    write_row_head(doc, instant, label, name, current, total);
    write_prev_cell(doc, previous);
    push_str(doc, "\n    </tr>");
    assert(doc@ =~= base + row_text(instant, label@, name@, current@, opt_ore(previous), total));
}


proof fn lemma_first_occurrence(s: Seq<char>, t: Seq<char>, from: int)
    ensures
        first_occurrence(s, t, from) matches Some(p) ==> from <= p && occurs_at(s, t, p),
    decreases s.len() + 1 - from,
{
    if !(from < 0 || from + t.len() > s.len()) && !occurs_at(s, t, from) {
        lemma_first_occurrence(s, t, from + 1);
    }
}

/// The context of the previous year, when the previous income statement's
/// label splits into its two dates.
pub open spec fn prev_context_text(r: AnnualReport) -> Seq<char> {
    match r.income_statement.previous {
        Some(p) => match label_parts(p.fiscal_year@) {
            Some((start, end)) => {
                let org_raw = r.company.org_number@;
                "\n    <xbrli:context id=\"previous\">\n      <xbrli:entity>\n        <xbrli:identifier scheme=\"http://www.bolagsverket.se\">"@ + org_raw + "</xbrli:identifier>\n      </xbrli:entity>\n      <xbrli:period>\n        <xbrli:startDate>"@ + start + "</xbrli:startDate>\n        <xbrli:endDate>"@ + end + "</xbrli:endDate>\n      </xbrli:period>\n    </xbrli:context>"@
            },
            None => Seq::empty(),
        },
        None => Seq::empty(),
    }
}

/// The XHTML head and the XBRL header: namespaces, title, the hidden facts
/// and the contexts of the period, its end and the previous year.
pub open spec fn header_text(r: AnnualReport) -> Seq<char> {
    "<?xml version=\"1.0\" encoding=\"UTF-8\"?>\n<!DOCTYPE html>\n<html xmlns=\"http://www.w3.org/1999/xhtml\"\n      xmlns:ix=\"http://www.xbrl.org/2013/inlineXBRL\"\n      xmlns:ixt=\"http://www.xbrl.org/inlineXBRL/transformation/2020-02-12\"\n      xmlns:xbrli=\"http://www.xbrl.org/2003/instance\"\n      xmlns:link=\"http://www.xbrl.org/2003/linkbase\"\n      xmlns:xlink=\"http://www.w3.org/1999/xlink\"\n      xmlns:iso4217=\"http://www.xbrl.org/2003/iso4217\"\n      xmlns:se-gen-base=\"http://www.taxonomier.se/se/fr/gaap/gen-base\"\n      xmlns:se-k2-type=\"http://www.taxonomier.se/se/fr/k2/datatype\"\n      xmlns:se-cd-type=\"http://www.taxonomier.se/se/fr/cd/datatype\"\n      xml:lang=\"sv\">\n<head>\n  <meta charset=\"UTF-8\" />\n  <title>Årsredovisning "@ + r.company.name@ + " "@ + r.fiscal_year.end_date@ + "</title>\n  <meta name=\"generator\" content=\"Balans "@ + PROGRAM_VERSION@ + "\" />\n  <style>\n    body { font-family: 'Liberation Sans', Arial, sans-serif; font-size: 10pt; margin: 2cm; color: #000; }\n    h1 { font-size: 16pt; text-align: center; margin-bottom: 4pt; }\n    h2 { font-size: 13pt; margin-top: 18pt; border-bottom: 1px solid #000; padding-bottom: 3pt; }\n    h3 { font-size: 11pt; margin-top: 12pt; }\n    .header { text-align: center; margin-bottom: 24pt; }\n    .header p { margin: 2pt 0; }\n    .fin-table { width: 100%; border-collapse: collapse; margin: 8pt 0; }\n    .fin-table th, .fin-table td { padding: 2pt 6pt; text-align: right; font-size: 9pt; }\n    .fin-table th { text-align: left; font-weight: normal; }\n    .fin-table .label { text-align: left; }\n    .fin-table .total { font-weight: bold; border-top: 1px solid #000; }\n    .fin-table .subtotal { font-weight: bold; }\n    .fin-table .section { font-weight: bold; text-align: left; padding-top: 8pt; }\n    .note { margin-top: 12pt; }\n    .note-title { font-weight: bold; }\n    .hidden { display: none; }\n  </style>\n</head>\n<body>\n<ix:header>\n  <ix:hidden>\n    <ix:nonNumeric name=\"se-gen-base:Foretagsnamn\" contextRef=\"current\">"@ + r.company.name@ + "</ix:nonNumeric>\n    <ix:nonNumeric name=\"se-gen-base:Organisationsnummer\" contextRef=\"current\">"@ + org_shown(r.company.org_number@) + "</ix:nonNumeric>\n  </ix:hidden>\n  <ix:resources>\n    <xbrli:context id=\"current\">\n      <xbrli:entity>\n        <xbrli:identifier scheme=\"http://www.bolagsverket.se\">"@ + r.company.org_number@ + "</xbrli:identifier>\n      </xbrli:entity>\n      <xbrli:period>\n        <xbrli:startDate>"@ + r.fiscal_year.start_date@ + "</xbrli:startDate>\n        <xbrli:endDate>"@ + r.fiscal_year.end_date@ + "</xbrli:endDate>\n      </xbrli:period>\n    </xbrli:context>\n    <xbrli:context id=\"current_instant\">\n      <xbrli:entity>\n        <xbrli:identifier scheme=\"http://www.bolagsverket.se\">"@ + r.company.org_number@ + "</xbrli:identifier>\n      </xbrli:entity>\n      <xbrli:period>\n        <xbrli:instant>"@ + r.fiscal_year.end_date@ + "</xbrli:instant>\n      </xbrli:period>\n    </xbrli:context>"@ + prev_context_text(r) + "\n    <xbrli:unit id=\"SEK\">\n      <xbrli:measure>iso4217:SEK</xbrli:measure>\n    </xbrli:unit>\n  </ix:resources>\n</ix:header>\n"@
}

/// What an iXBRL document requires of a report: an organisation number that
/// can be shown, and the costs that are shown negated are not the least
/// amount.
pub open spec fn ixbrl_ready(r: AnnualReport) -> bool {
    &&& org_cut(r.company.org_number@) is Some
    &&& negatable(r.income_statement.current)
    &&& (r.income_statement.previous matches Some(q) ==> negatable(q))
}

/// The costs of an income statement can change sign.
pub open spec fn negatable(d: IncomeStatementData) -> bool {
    &&& d.raw_materials@ > i64::MIN
    &&& d.other_external_costs@ > i64::MIN
    &&& d.personnel_costs@ > i64::MIN
    &&& d.depreciation@ > i64::MIN
    &&& d.financial_costs@ > i64::MIN
    &&& d.tax@ > i64::MIN
}

fn write_prev_context(doc: &mut String, report: &AnnualReport)
    ensures
        final(doc)@ == old(doc)@ + prev_context_text(*report),
{
    let ghost base = old(doc)@;
    // Add previous year context if available
    if let Some(prev) = &report.income_statement.previous {
        // Parse dates from the label "YYYY-MM-DD — YYYY-MM-DD"
        let cs = chars_of(prev.fiscal_year.as_str());
        if let Some(p) = find_separator(&cs, 0) {
            proof {
                reveal_strlit(" — ");
                lemma_first_occurrence(cs@, " — "@, 0);
            }
            assert(p + 3 <= cs.len());
            if find_separator(&cs, p + 3).is_none() {
                push_str(doc, "\n    <xbrli:context id=\"previous\">\n      <xbrli:entity>\n        <xbrli:identifier scheme=\"http://www.bolagsverket.se\">");
    push_str(doc, report.company.org_number.as_str());
    push_str(doc, "</xbrli:identifier>\n      </xbrli:entity>\n      <xbrli:period>\n        <xbrli:startDate>");
    push_chars(doc, &cs, 0, p);
    push_str(doc, "</xbrli:startDate>\n        <xbrli:endDate>");
    push_chars(doc, &cs, p + 3, cs.len());
    push_str(doc, "</xbrli:endDate>\n      </xbrli:period>\n    </xbrli:context>");
                proof {
                    let start = cs@.subrange(0, p as int);
                    let end = cs@.subrange(p + 3, cs@.len() as int);
                    assert(start =~= cs@.take(p as int));
                    assert(end =~= cs@.skip(p + 3));
                    let org_raw = report.company.org_number@;
                    assert(doc@ =~= base + "\n    <xbrli:context id=\"previous\">\n      <xbrli:entity>\n        <xbrli:identifier scheme=\"http://www.bolagsverket.se\">"@ + org_raw + "</xbrli:identifier>\n      </xbrli:entity>\n      <xbrli:period>\n        <xbrli:startDate>"@ + start + "</xbrli:startDate>\n        <xbrli:endDate>"@ + end + "</xbrli:endDate>\n      </xbrli:period>\n    </xbrli:context>"@);
                }
            }
        }
    }
}

#[verifier::rlimit(100)]
fn write_header(doc: &mut String, report: &AnnualReport)
    requires
        org_cut(report.company.org_number@) is Some,
    ensures
        final(doc)@ == old(doc)@ + header_text(*report),
{
    let ghost base = old(doc)@;
    let org = format_org_number(report.company.org_number.as_str());
    push_str(doc, "<?xml version=\"1.0\" encoding=\"UTF-8\"?>\n<!DOCTYPE html>\n<html xmlns=\"http://www.w3.org/1999/xhtml\"\n      xmlns:ix=\"http://www.xbrl.org/2013/inlineXBRL\"\n      xmlns:ixt=\"http://www.xbrl.org/inlineXBRL/transformation/2020-02-12\"\n      xmlns:xbrli=\"http://www.xbrl.org/2003/instance\"\n      xmlns:link=\"http://www.xbrl.org/2003/linkbase\"\n      xmlns:xlink=\"http://www.w3.org/1999/xlink\"\n      xmlns:iso4217=\"http://www.xbrl.org/2003/iso4217\"\n      xmlns:se-gen-base=\"http://www.taxonomier.se/se/fr/gaap/gen-base\"\n      xmlns:se-k2-type=\"http://www.taxonomier.se/se/fr/k2/datatype\"\n      xmlns:se-cd-type=\"http://www.taxonomier.se/se/fr/cd/datatype\"\n      xml:lang=\"sv\">\n<head>\n  <meta charset=\"UTF-8\" />\n  <title>Årsredovisning ");
    push_str(doc, report.company.name.as_str());
    push_str(doc, " ");
    push_str(doc, report.fiscal_year.end_date.as_str());
    push_str(doc, "</title>\n  <meta name=\"generator\" content=\"Balans ");
    push_str(doc, PROGRAM_VERSION);
    push_str(doc, "\" />\n  <style>\n    body { font-family: 'Liberation Sans', Arial, sans-serif; font-size: 10pt; margin: 2cm; color: #000; }\n    h1 { font-size: 16pt; text-align: center; margin-bottom: 4pt; }\n    h2 { font-size: 13pt; margin-top: 18pt; border-bottom: 1px solid #000; padding-bottom: 3pt; }\n    h3 { font-size: 11pt; margin-top: 12pt; }\n    .header { text-align: center; margin-bottom: 24pt; }\n    .header p { margin: 2pt 0; }\n    .fin-table { width: 100%; border-collapse: collapse; margin: 8pt 0; }\n    .fin-table th, .fin-table td { padding: 2pt 6pt; text-align: right; font-size: 9pt; }\n    .fin-table th { text-align: left; font-weight: normal; }\n    .fin-table .label { text-align: left; }\n    .fin-table .total { font-weight: bold; border-top: 1px solid #000; }\n    .fin-table .subtotal { font-weight: bold; }\n    .fin-table .section { font-weight: bold; text-align: left; padding-top: 8pt; }\n    .note { margin-top: 12pt; }\n    .note-title { font-weight: bold; }\n    .hidden { display: none; }\n  </style>\n</head>\n<body>\n<ix:header>\n  <ix:hidden>\n    <ix:nonNumeric name=\"se-gen-base:Foretagsnamn\" contextRef=\"current\">");
    push_str(doc, report.company.name.as_str());
    push_str(doc, "</ix:nonNumeric>\n    <ix:nonNumeric name=\"se-gen-base:Organisationsnummer\" contextRef=\"current\">");
    push_str(doc, org.as_str());
    push_str(doc, "</ix:nonNumeric>\n  </ix:hidden>\n  <ix:resources>\n    <xbrli:context id=\"current\">\n      <xbrli:entity>\n        <xbrli:identifier scheme=\"http://www.bolagsverket.se\">");
    push_str(doc, report.company.org_number.as_str());
    push_str(doc, "</xbrli:identifier>\n      </xbrli:entity>\n      <xbrli:period>\n        <xbrli:startDate>");
    push_str(doc, report.fiscal_year.start_date.as_str());
    push_str(doc, "</xbrli:startDate>\n        <xbrli:endDate>");
    push_str(doc, report.fiscal_year.end_date.as_str());
    push_str(doc, "</xbrli:endDate>\n      </xbrli:period>\n    </xbrli:context>\n    <xbrli:context id=\"current_instant\">\n      <xbrli:entity>\n        <xbrli:identifier scheme=\"http://www.bolagsverket.se\">");
    push_str(doc, report.company.org_number.as_str());
    push_str(doc, "</xbrli:identifier>\n      </xbrli:entity>\n      <xbrli:period>\n        <xbrli:instant>");
    push_str(doc, report.fiscal_year.end_date.as_str());
    push_str(doc, "</xbrli:instant>\n      </xbrli:period>\n    </xbrli:context>");
    let ghost r = *report;
    assert(doc@ =~= base + "<?xml version=\"1.0\" encoding=\"UTF-8\"?>\n<!DOCTYPE html>\n<html xmlns=\"http://www.w3.org/1999/xhtml\"\n      xmlns:ix=\"http://www.xbrl.org/2013/inlineXBRL\"\n      xmlns:ixt=\"http://www.xbrl.org/inlineXBRL/transformation/2020-02-12\"\n      xmlns:xbrli=\"http://www.xbrl.org/2003/instance\"\n      xmlns:link=\"http://www.xbrl.org/2003/linkbase\"\n      xmlns:xlink=\"http://www.w3.org/1999/xlink\"\n      xmlns:iso4217=\"http://www.xbrl.org/2003/iso4217\"\n      xmlns:se-gen-base=\"http://www.taxonomier.se/se/fr/gaap/gen-base\"\n      xmlns:se-k2-type=\"http://www.taxonomier.se/se/fr/k2/datatype\"\n      xmlns:se-cd-type=\"http://www.taxonomier.se/se/fr/cd/datatype\"\n      xml:lang=\"sv\">\n<head>\n  <meta charset=\"UTF-8\" />\n  <title>Årsredovisning "@ + r.company.name@ + " "@ + r.fiscal_year.end_date@ + "</title>\n  <meta name=\"generator\" content=\"Balans "@ + PROGRAM_VERSION@ + "\" />\n  <style>\n    body { font-family: 'Liberation Sans', Arial, sans-serif; font-size: 10pt; margin: 2cm; color: #000; }\n    h1 { font-size: 16pt; text-align: center; margin-bottom: 4pt; }\n    h2 { font-size: 13pt; margin-top: 18pt; border-bottom: 1px solid #000; padding-bottom: 3pt; }\n    h3 { font-size: 11pt; margin-top: 12pt; }\n    .header { text-align: center; margin-bottom: 24pt; }\n    .header p { margin: 2pt 0; }\n    .fin-table { width: 100%; border-collapse: collapse; margin: 8pt 0; }\n    .fin-table th, .fin-table td { padding: 2pt 6pt; text-align: right; font-size: 9pt; }\n    .fin-table th { text-align: left; font-weight: normal; }\n    .fin-table .label { text-align: left; }\n    .fin-table .total { font-weight: bold; border-top: 1px solid #000; }\n    .fin-table .subtotal { font-weight: bold; }\n    .fin-table .section { font-weight: bold; text-align: left; padding-top: 8pt; }\n    .note { margin-top: 12pt; }\n    .note-title { font-weight: bold; }\n    .hidden { display: none; }\n  </style>\n</head>\n<body>\n<ix:header>\n  <ix:hidden>\n    <ix:nonNumeric name=\"se-gen-base:Foretagsnamn\" contextRef=\"current\">"@ + r.company.name@ + "</ix:nonNumeric>\n    <ix:nonNumeric name=\"se-gen-base:Organisationsnummer\" contextRef=\"current\">"@ + org_shown(r.company.org_number@) + "</ix:nonNumeric>\n  </ix:hidden>\n  <ix:resources>\n    <xbrli:context id=\"current\">\n      <xbrli:entity>\n        <xbrli:identifier scheme=\"http://www.bolagsverket.se\">"@ + r.company.org_number@ + "</xbrli:identifier>\n      </xbrli:entity>\n      <xbrli:period>\n        <xbrli:startDate>"@ + r.fiscal_year.start_date@ + "</xbrli:startDate>\n        <xbrli:endDate>"@ + r.fiscal_year.end_date@ + "</xbrli:endDate>\n      </xbrli:period>\n    </xbrli:context>\n    <xbrli:context id=\"current_instant\">\n      <xbrli:entity>\n        <xbrli:identifier scheme=\"http://www.bolagsverket.se\">"@ + r.company.org_number@ + "</xbrli:identifier>\n      </xbrli:entity>\n      <xbrli:period>\n        <xbrli:instant>"@ + r.fiscal_year.end_date@ + "</xbrli:instant>\n      </xbrli:period>\n    </xbrli:context>"@);
    write_prev_context(doc, report);
    push_str(doc, "\n    <xbrli:unit id=\"SEK\">\n      <xbrli:measure>iso4217:SEK</xbrli:measure>\n    </xbrli:unit>\n  </ix:resources>\n</ix:header>\n");
    assert(doc@ =~= base + header_text(*report));
}

/// Metadata section — hidden XBRL facts.
pub open spec fn hidden_text() -> Seq<char> {
    "\n<div class=\"hidden\">\n  <ix:nonNumeric name=\"se-gen-base:RedovisningsramverkK2\" contextRef=\"current\">true</ix:nonNumeric>\n</div>\n"@
}

/// The directors' report, with the proposal for the result when there is one.
pub open spec fn directors_text(r: AnnualReport) -> Seq<char> {
    "\n<div class=\"header\">\n  <h1>ÅRSREDOVISNING</h1>\n  <p><strong>"@ + r.company.name@ + "</strong></p>\n  <p>Org.nr: "@ + org_shown(r.company.org_number@) + "</p>\n  <p>Räkenskapsår: "@ + r.fiscal_year.start_date@ + " — "@ + r.fiscal_year.end_date@ + "</p>\n</div>\n\n<h2>Förvaltningsberättelse</h2>\n\n<h3>Verksamheten</h3>\n<p><ix:nonNumeric name=\"se-gen-base:VerksamhetenArtInriktning\" contextRef=\"current\">"@ + escape_text(r.directors_report.business_description@) + "</ix:nonNumeric></p>\n\n<h3>Väsentliga händelser under räkenskapsåret</h3>\n<p><ix:nonNumeric name=\"se-gen-base:ViktigaHandelserRakenskapsar\" contextRef=\"current\">"@ + escape_text(r.directors_report.important_events@) + "</ix:nonNumeric></p>\n\n<h3>Förväntad framtida utveckling</h3>\n<p><ix:nonNumeric name=\"se-gen-base:ForvantadFramtidaUtveckling\" contextRef=\"current\">"@ + escape_text(r.directors_report.future_outlook@) + "</ix:nonNumeric></p>\n"@ + allocation_text(r.directors_report.profit_allocation)
}

/// The board's proposal for the result, when there is one.
pub open spec fn allocation_text(a: Option<ProfitAllocation>) -> Seq<char> {
    match a {
        Some(pa) => "\n<h3>Förslag till vinstdisposition</h3>\n<p>Styrelsen föreslår att till förfogande stående medel:</p>\n<table class=\"fin-table\">\n  <tr><th class=\"label\">Årets resultat</th><td>"@ + sek_text(pa.result_for_year@) + "</td></tr>\n  <tr><th class=\"label\">Balanserat resultat</th><td>"@ + sek_text(pa.retained_earnings@) + "</td></tr>\n  <tr class=\"total\"><th class=\"label\">Summa</th><td>"@ + sek_text(pa.total_available@) + "</td></tr>\n</table>\n<p>Disponeras enligt följande:</p>\n<table class=\"fin-table\">\n  <tr><th class=\"label\">I ny räkning överföres</th><td>"@ + sek_text(pa.carry_forward@) + "</td></tr>\n</table>\n"@,
        None => Seq::empty(),
    }
}

fn write_profit_allocation(doc: &mut String, report: &AnnualReport)
    ensures
        final(doc)@ == old(doc)@ + allocation_text(report.directors_report.profit_allocation),
{
    let ghost base = old(doc)@;
    if let Some(pa) = &report.directors_report.profit_allocation {
        push_str(doc, "\n<h3>Förslag till vinstdisposition</h3>\n<p>Styrelsen föreslår att till förfogande stående medel:</p>\n<table class=\"fin-table\">\n  <tr><th class=\"label\">Årets resultat</th><td>");
    push_sek(doc, pa.result_for_year);
    push_str(doc, "</td></tr>\n  <tr><th class=\"label\">Balanserat resultat</th><td>");
    push_sek(doc, pa.retained_earnings);
    push_str(doc, "</td></tr>\n  <tr class=\"total\"><th class=\"label\">Summa</th><td>");
    push_sek(doc, pa.total_available);
    push_str(doc, "</td></tr>\n</table>\n<p>Disponeras enligt följande:</p>\n<table class=\"fin-table\">\n  <tr><th class=\"label\">I ny räkning överföres</th><td>");
    push_sek(doc, pa.carry_forward);
    push_str(doc, "</td></tr>\n</table>\n");
        assert(doc@ =~= base + "\n<h3>Förslag till vinstdisposition</h3>\n<p>Styrelsen föreslår att till förfogande stående medel:</p>\n<table class=\"fin-table\">\n  <tr><th class=\"label\">Årets resultat</th><td>"@ + sek_text(pa.result_for_year@) + "</td></tr>\n  <tr><th class=\"label\">Balanserat resultat</th><td>"@ + sek_text(pa.retained_earnings@) + "</td></tr>\n  <tr class=\"total\"><th class=\"label\">Summa</th><td>"@ + sek_text(pa.total_available@) + "</td></tr>\n</table>\n<p>Disponeras enligt följande:</p>\n<table class=\"fin-table\">\n  <tr><th class=\"label\">I ny räkning överföres</th><td>"@ + sek_text(pa.carry_forward@) + "</td></tr>\n</table>\n"@);
    }
}

#[verifier::rlimit(100)]
fn write_directors_report(doc: &mut String, report: &AnnualReport)
    requires
        org_cut(report.company.org_number@) is Some,
    ensures
        final(doc)@ == old(doc)@ + directors_text(*report),
{
    let ghost base = old(doc)@;
    let ghost r = *report;
    let org = format_org_number(report.company.org_number.as_str());
    push_str(doc, "\n<div class=\"header\">\n  <h1>ÅRSREDOVISNING</h1>\n  <p><strong>");
    push_str(doc, report.company.name.as_str());
    push_str(doc, "</strong></p>\n  <p>Org.nr: ");
    push_str(doc, org.as_str());
    push_str(doc, "</p>\n  <p>Räkenskapsår: ");
    push_str(doc, report.fiscal_year.start_date.as_str());
    push_str(doc, " — ");
    push_str(doc, report.fiscal_year.end_date.as_str());
    push_str(doc, "</p>\n</div>\n\n<h2>Förvaltningsberättelse</h2>\n\n<h3>Verksamheten</h3>\n<p><ix:nonNumeric name=\"se-gen-base:VerksamhetenArtInriktning\" contextRef=\"current\">");
    push_escaped(doc, report.directors_report.business_description.as_str());
    push_str(doc, "</ix:nonNumeric></p>\n\n<h3>Väsentliga händelser under räkenskapsåret</h3>\n<p><ix:nonNumeric name=\"se-gen-base:ViktigaHandelserRakenskapsar\" contextRef=\"current\">");
    push_escaped(doc, report.directors_report.important_events.as_str());
    push_str(doc, "</ix:nonNumeric></p>\n\n<h3>Förväntad framtida utveckling</h3>\n<p><ix:nonNumeric name=\"se-gen-base:ForvantadFramtidaUtveckling\" contextRef=\"current\">");
    push_escaped(doc, report.directors_report.future_outlook.as_str());
    push_str(doc, "</ix:nonNumeric></p>\n");
    assert(doc@ =~= base + "\n<div class=\"header\">\n  <h1>ÅRSREDOVISNING</h1>\n  <p><strong>"@ + r.company.name@ + "</strong></p>\n  <p>Org.nr: "@ + org_shown(r.company.org_number@) + "</p>\n  <p>Räkenskapsår: "@ + r.fiscal_year.start_date@ + " — "@ + r.fiscal_year.end_date@ + "</p>\n</div>\n\n<h2>Förvaltningsberättelse</h2>\n\n<h3>Verksamheten</h3>\n<p><ix:nonNumeric name=\"se-gen-base:VerksamhetenArtInriktning\" contextRef=\"current\">"@ + escape_text(r.directors_report.business_description@) + "</ix:nonNumeric></p>\n\n<h3>Väsentliga händelser under räkenskapsåret</h3>\n<p><ix:nonNumeric name=\"se-gen-base:ViktigaHandelserRakenskapsar\" contextRef=\"current\">"@ + escape_text(r.directors_report.important_events@) + "</ix:nonNumeric></p>\n\n<h3>Förväntad framtida utveckling</h3>\n<p><ix:nonNumeric name=\"se-gen-base:ForvantadFramtidaUtveckling\" contextRef=\"current\">"@ + escape_text(r.directors_report.future_outlook@) + "</ix:nonNumeric></p>\n"@);
    write_profit_allocation(doc, report);
}

/// The first rows of the income statement: income as it stands, costs negated.
#[verifier::opaque]
pub open spec fn income_rows_a(c: IncomeStatementData, prev: Option<IncomeStatementData>) -> Seq<char> {
    row_text(false, "Nettoomsättning"@, "Nettoomsattning"@, c.net_revenue@, match prev { Some(q) => Some(q.net_revenue@), None => None }, false)
        + row_text(false, "Övriga rörelseintäkter"@, "OvrigaRorelseintakter"@, c.other_operating_income@, match prev { Some(q) => Some(q.other_operating_income@), None => None }, false)
        + row_text(false, "Råvaror och förnödenheter"@, "RavarorFornodenheter"@, -c.raw_materials@, match prev { Some(q) => Some(-q.raw_materials@), None => None }, false)
        + row_text(false, "Övriga externa kostnader"@, "OvrigaExternaKostnader"@, -c.other_external_costs@, match prev { Some(q) => Some(-q.other_external_costs@), None => None }, false)
        + row_text(false, "Personalkostnader"@, "Personalkostnader"@, -c.personnel_costs@, match prev { Some(q) => Some(-q.personnel_costs@), None => None }, false)
        + row_text(false, "Av- och nedskrivningar"@, "AvNedskrivningarMateriellaImmateriellaAnlaggningstillgangar"@, -c.depreciation@, match prev { Some(q) => Some(-q.depreciation@), None => None }, false)
}

/// The last rows of the income statement.
#[verifier::opaque]
pub open spec fn income_rows_b(c: IncomeStatementData, prev: Option<IncomeStatementData>) -> Seq<char> {
    row_text(false, "Rörelseresultat"@, "Rorelseresultat"@, c.operating_result@, match prev { Some(q) => Some(q.operating_result@), None => None }, true)
        + row_text(false, "Finansiella intäkter"@, "OvrigaRanteintakterLiknandeResultatposter"@, c.financial_income@, match prev { Some(q) => Some(q.financial_income@), None => None }, false)
        + row_text(false, "Finansiella kostnader"@, "RantekostnaderLiknandeResultatposter"@, -c.financial_costs@, match prev { Some(q) => Some(-q.financial_costs@), None => None }, false)
        + row_text(false, "Resultat efter finansiella poster"@, "ResultatEfterFinansiellaPoster"@, c.result_after_financial@, match prev { Some(q) => Some(q.result_after_financial@), None => None }, true)
        + row_text(false, "Skatt på årets resultat"@, "SkattAretsResultat"@, -c.tax@, match prev { Some(q) => Some(-q.tax@), None => None }, false)
        + row_text(false, "Årets resultat"@, "AretsResultat"@, c.net_result@, match prev { Some(q) => Some(q.net_result@), None => None }, true)
}

/// The rows of the income statement: income as it stands, costs negated.
pub open spec fn income_rows(c: IncomeStatementData, prev: Option<IncomeStatementData>) -> Seq<char> {
    income_rows_a(c, prev) + income_rows_b(c, prev)
}

/// The income statement table.
pub open spec fn income_text(r: AnnualReport) -> Seq<char> {
    let c = r.income_statement.current;
    "\n<h2>Resultaträkning</h2>\n<table class=\"fin-table\">\n  <thead>\n    <tr>\n      <th class=\"label\"></th>\n      <th>"@ + c.fiscal_year@ + "</th>"@ + match r.income_statement.previous {
        Some(p) => "\n      <th>"@ + p.fiscal_year@ + "</th>"@,
        None => Seq::empty(),
    } + "\n    </tr>\n  </thead>\n  <tbody>"@ + income_rows(c, r.income_statement.previous) + "\n  </tbody>\n</table>\n"@
}

#[verifier::rlimit(100)]
#[verifier::spinoff_prover]
fn write_income_rows_a(doc: &mut String, c: &IncomeStatementData, prev: &Option<IncomeStatementData>)
    requires
        negatable(*c),
        *prev matches Some(q) ==> negatable(q),
    ensures
        final(doc)@ == old(doc)@ + income_rows_a(*c, *prev),
{
    let ghost base = old(doc)@;
    write_row(doc, false, "Nettoomsättning", "Nettoomsattning", c.net_revenue, match prev { Some(q) => Some(q.net_revenue), None => None }, false);
    write_row(doc, false, "Övriga rörelseintäkter", "OvrigaRorelseintakter", c.other_operating_income, match prev { Some(q) => Some(q.other_operating_income), None => None }, false);
    write_row(doc, false, "Råvaror och förnödenheter", "RavarorFornodenheter", c.raw_materials.neg(), match prev { Some(q) => Some(q.raw_materials.neg()), None => None }, false);
    write_row(doc, false, "Övriga externa kostnader", "OvrigaExternaKostnader", c.other_external_costs.neg(), match prev { Some(q) => Some(q.other_external_costs.neg()), None => None }, false);
    write_row(doc, false, "Personalkostnader", "Personalkostnader", c.personnel_costs.neg(), match prev { Some(q) => Some(q.personnel_costs.neg()), None => None }, false);
    write_row(doc, false, "Av- och nedskrivningar", "AvNedskrivningarMateriellaImmateriellaAnlaggningstillgangar", c.depreciation.neg(), match prev { Some(q) => Some(q.depreciation.neg()), None => None }, false);
    reveal(income_rows_a);
    assert(doc@ =~= base + income_rows_a(*c, *prev));
}

#[verifier::rlimit(100)]
#[verifier::spinoff_prover]
fn write_income_rows_b(doc: &mut String, c: &IncomeStatementData, prev: &Option<IncomeStatementData>)
    requires
        negatable(*c),
        *prev matches Some(q) ==> negatable(q),
    ensures
        final(doc)@ == old(doc)@ + income_rows_b(*c, *prev),
{
    let ghost base = old(doc)@;
    write_row(doc, false, "Rörelseresultat", "Rorelseresultat", c.operating_result, match prev { Some(q) => Some(q.operating_result), None => None }, true);
    write_row(doc, false, "Finansiella intäkter", "OvrigaRanteintakterLiknandeResultatposter", c.financial_income, match prev { Some(q) => Some(q.financial_income), None => None }, false);
    write_row(doc, false, "Finansiella kostnader", "RantekostnaderLiknandeResultatposter", c.financial_costs.neg(), match prev { Some(q) => Some(q.financial_costs.neg()), None => None }, false);
    write_row(doc, false, "Resultat efter finansiella poster", "ResultatEfterFinansiellaPoster", c.result_after_financial, match prev { Some(q) => Some(q.result_after_financial), None => None }, true);
    write_row(doc, false, "Skatt på årets resultat", "SkattAretsResultat", c.tax.neg(), match prev { Some(q) => Some(q.tax.neg()), None => None }, false);
    write_row(doc, false, "Årets resultat", "AretsResultat", c.net_result, match prev { Some(q) => Some(q.net_result), None => None }, true);
    reveal(income_rows_b);
    assert(doc@ =~= base + income_rows_b(*c, *prev));
}

#[verifier::rlimit(100)]
fn write_income_statement(doc: &mut String, report: &AnnualReport)
    requires
        negatable(report.income_statement.current),
        report.income_statement.previous matches Some(q) ==> negatable(q),
    ensures
        final(doc)@ == old(doc)@ + income_text(*report),
{
    let ghost base = old(doc)@;
    let ghost c = report.income_statement.current;
    push_str(doc, "\n<h2>Resultaträkning</h2>\n<table class=\"fin-table\">\n  <thead>\n    <tr>\n      <th class=\"label\"></th>\n      <th>");
    push_str(doc, report.income_statement.current.fiscal_year.as_str());
    push_str(doc, "</th>");
    if let Some(p) = &report.income_statement.previous {
        push_str(doc, "\n      <th>");
    push_str(doc, p.fiscal_year.as_str());
    push_str(doc, "</th>");
    }
    push_str(doc, "\n    </tr>\n  </thead>\n  <tbody>");
    write_income_rows_a(doc, &report.income_statement.current, &report.income_statement.previous);
    write_income_rows_b(doc, &report.income_statement.current, &report.income_statement.previous);
    push_str(doc, "\n  </tbody>\n</table>\n");
    assert(doc@ =~= base + income_text(*report));
}

/// Balance sheet rows.
#[verifier::opaque]
pub open spec fn fixed_asset_rows(c: BalanceSheetData, prev: Option<BalanceSheetData>) -> Seq<char> {
    row_text(true, "Immateriella anläggningstillgångar"@, "ImmateriellaTillgangar"@, c.assets.intangible_assets@, match prev { Some(q) => Some(q.assets.intangible_assets@), None => None }, false)
        + row_text(true, "Materiella anläggningstillgångar"@, "MateriellaTillgangar"@, c.assets.tangible_assets@, match prev { Some(q) => Some(q.assets.tangible_assets@), None => None }, false)
        + row_text(true, "Finansiella anläggningstillgångar"@, "FinansiellaAnlaggningstillgangar"@, c.assets.financial_fixed_assets@, match prev { Some(q) => Some(q.assets.financial_fixed_assets@), None => None }, false)
        + row_text(true, "Summa anläggningstillgångar"@, "SummaAnlaggningstillgangar"@, c.assets.total_fixed_assets@, match prev { Some(q) => Some(q.assets.total_fixed_assets@), None => None }, true)
}

#[verifier::rlimit(100)]
fn write_fixed_asset_rows(doc: &mut String, c: &BalanceSheetData, prev: &Option<BalanceSheetData>)
    ensures
        final(doc)@ == old(doc)@ + fixed_asset_rows(*c, *prev),
{
    let ghost base = old(doc)@;
    write_row(doc, true, "Immateriella anläggningstillgångar", "ImmateriellaTillgangar", c.assets.intangible_assets, match prev { Some(q) => Some(q.assets.intangible_assets), None => None }, false);
    write_row(doc, true, "Materiella anläggningstillgångar", "MateriellaTillgangar", c.assets.tangible_assets, match prev { Some(q) => Some(q.assets.tangible_assets), None => None }, false);
    write_row(doc, true, "Finansiella anläggningstillgångar", "FinansiellaAnlaggningstillgangar", c.assets.financial_fixed_assets, match prev { Some(q) => Some(q.assets.financial_fixed_assets), None => None }, false);
    write_row(doc, true, "Summa anläggningstillgångar", "SummaAnlaggningstillgangar", c.assets.total_fixed_assets, match prev { Some(q) => Some(q.assets.total_fixed_assets), None => None }, true);
    reveal(fixed_asset_rows);
    assert(doc@ =~= base + fixed_asset_rows(*c, *prev));
}

/// Balance sheet rows.
#[verifier::opaque]
pub open spec fn current_asset_rows(c: BalanceSheetData, prev: Option<BalanceSheetData>) -> Seq<char> {
    row_text(true, "Varulager"@, "Varulager"@, c.assets.inventory@, match prev { Some(q) => Some(q.assets.inventory@), None => None }, false)
        + row_text(true, "Kortfristiga fordringar"@, "KortfristigaFordringar"@, c.assets.current_receivables@, match prev { Some(q) => Some(q.assets.current_receivables@), None => None }, false)
        + row_text(true, "Kassa och bank"@, "KassaBank"@, c.assets.cash_and_bank@, match prev { Some(q) => Some(q.assets.cash_and_bank@), None => None }, false)
        + row_text(true, "Summa omsättningstillgångar"@, "SummaOmsattningstillgangar"@, c.assets.total_current_assets@, match prev { Some(q) => Some(q.assets.total_current_assets@), None => None }, true)
        + row_text(true, "SUMMA TILLGÅNGAR"@, "SummaTillgangar"@, c.total_assets@, match prev { Some(q) => Some(q.total_assets@), None => None }, true)
}

#[verifier::rlimit(100)]
fn write_current_asset_rows(doc: &mut String, c: &BalanceSheetData, prev: &Option<BalanceSheetData>)
    ensures
        final(doc)@ == old(doc)@ + current_asset_rows(*c, *prev),
{
    let ghost base = old(doc)@;
    write_row(doc, true, "Varulager", "Varulager", c.assets.inventory, match prev { Some(q) => Some(q.assets.inventory), None => None }, false);
    write_row(doc, true, "Kortfristiga fordringar", "KortfristigaFordringar", c.assets.current_receivables, match prev { Some(q) => Some(q.assets.current_receivables), None => None }, false);
    write_row(doc, true, "Kassa och bank", "KassaBank", c.assets.cash_and_bank, match prev { Some(q) => Some(q.assets.cash_and_bank), None => None }, false);
    write_row(doc, true, "Summa omsättningstillgångar", "SummaOmsattningstillgangar", c.assets.total_current_assets, match prev { Some(q) => Some(q.assets.total_current_assets), None => None }, true);
    write_row(doc, true, "SUMMA TILLGÅNGAR", "SummaTillgangar", c.total_assets, match prev { Some(q) => Some(q.total_assets), None => None }, true);
    reveal(current_asset_rows);
    assert(doc@ =~= base + current_asset_rows(*c, *prev));
}

/// Balance sheet rows.
#[verifier::opaque]
pub open spec fn equity_rows(c: BalanceSheetData, prev: Option<BalanceSheetData>) -> Seq<char> {
    row_text(true, "Bundet eget kapital"@, "BundetEgetKapital"@, c.equity_and_liabilities.restricted_equity@, match prev { Some(q) => Some(q.equity_and_liabilities.restricted_equity@), None => None }, false)
        + row_text(true, "Fritt eget kapital"@, "FrittEgetKapital"@, c.equity_and_liabilities.unrestricted_equity@, match prev { Some(q) => Some(q.equity_and_liabilities.unrestricted_equity@), None => None }, false)
        + row_text(true, "Summa eget kapital"@, "SummaEgetKapital"@, c.equity_and_liabilities.total_equity@, match prev { Some(q) => Some(q.equity_and_liabilities.total_equity@), None => None }, true)
        + row_text(true, "Kortfristiga skulder"@, "SummaKortfristigaSkulder"@, c.equity_and_liabilities.current_liabilities@, match prev { Some(q) => Some(q.equity_and_liabilities.current_liabilities@), None => None }, false)
        + row_text(true, "SUMMA EGET KAPITAL OCH SKULDER"@, "SummaEgetKapitalSkulder"@, c.total_equity_and_liabilities@, match prev { Some(q) => Some(q.total_equity_and_liabilities@), None => None }, true)
}

#[verifier::rlimit(100)]
fn write_equity_rows(doc: &mut String, c: &BalanceSheetData, prev: &Option<BalanceSheetData>)
    ensures
        final(doc)@ == old(doc)@ + equity_rows(*c, *prev),
{
    let ghost base = old(doc)@;
    write_row(doc, true, "Bundet eget kapital", "BundetEgetKapital", c.equity_and_liabilities.restricted_equity, match prev { Some(q) => Some(q.equity_and_liabilities.restricted_equity), None => None }, false);
    write_row(doc, true, "Fritt eget kapital", "FrittEgetKapital", c.equity_and_liabilities.unrestricted_equity, match prev { Some(q) => Some(q.equity_and_liabilities.unrestricted_equity), None => None }, false);
    write_row(doc, true, "Summa eget kapital", "SummaEgetKapital", c.equity_and_liabilities.total_equity, match prev { Some(q) => Some(q.equity_and_liabilities.total_equity), None => None }, true);
    write_row(doc, true, "Kortfristiga skulder", "SummaKortfristigaSkulder", c.equity_and_liabilities.current_liabilities, match prev { Some(q) => Some(q.equity_and_liabilities.current_liabilities), None => None }, false);
    write_row(doc, true, "SUMMA EGET KAPITAL OCH SKULDER", "SummaEgetKapitalSkulder", c.total_equity_and_liabilities, match prev { Some(q) => Some(q.total_equity_and_liabilities), None => None }, true);
    reveal(equity_rows);
    assert(doc@ =~= base + equity_rows(*c, *prev));
}

/// The balance sheet table.
pub open spec fn balance_text(r: AnnualReport) -> Seq<char> {
    let c = r.balance_sheet.current;
    let prev = r.balance_sheet.previous;
    "\n<h2>Balansräkning</h2>\n<table class=\"fin-table\">\n  <thead>\n    <tr>\n      <th class=\"label\"></th>\n      <th>"@ + c.fiscal_year@ + "</th>"@ + match prev {
        Some(p) => "\n      <th>"@ + p.fiscal_year@ + "</th>"@,
        None => Seq::empty(),
    } + "\n    </tr>\n  </thead>\n  <tbody>\n    <tr><td class=\"section\" colspan=\"3\">TILLGÅNGAR</td></tr>\n    <tr><td class=\"section\" colspan=\"3\">Anläggningstillgångar</td></tr>"@ + fixed_asset_rows(c, prev) + "\n    <tr><td class=\"section\" colspan=\"3\">Omsättningstillgångar</td></tr>"@ + current_asset_rows(c, prev) + "\n    <tr><td class=\"section\" colspan=\"3\">EGET KAPITAL OCH SKULDER</td></tr>\n    <tr><td class=\"section\" colspan=\"3\">Eget kapital</td></tr>"@ + equity_rows(c, prev) + "\n  </tbody>\n</table>\n"@
}

#[verifier::rlimit(100)]
fn write_balance_sheet(doc: &mut String, report: &AnnualReport)
    ensures
        final(doc)@ == old(doc)@ + balance_text(*report),
{
    let ghost base = old(doc)@;
    let ghost c = report.balance_sheet.current;
    push_str(doc, "\n<h2>Balansräkning</h2>\n<table class=\"fin-table\">\n  <thead>\n    <tr>\n      <th class=\"label\"></th>\n      <th>");
    push_str(doc, report.balance_sheet.current.fiscal_year.as_str());
    push_str(doc, "</th>");
    if let Some(p) = &report.balance_sheet.previous {
        push_str(doc, "\n      <th>");
    push_str(doc, p.fiscal_year.as_str());
    push_str(doc, "</th>");
    }
    push_str(doc, "\n    </tr>\n  </thead>\n  <tbody>\n    <tr><td class=\"section\" colspan=\"3\">TILLGÅNGAR</td></tr>\n    <tr><td class=\"section\" colspan=\"3\">Anläggningstillgångar</td></tr>");
    write_fixed_asset_rows(doc, &report.balance_sheet.current, &report.balance_sheet.previous);
    push_str(doc, "\n    <tr><td class=\"section\" colspan=\"3\">Omsättningstillgångar</td></tr>");
    write_current_asset_rows(doc, &report.balance_sheet.current, &report.balance_sheet.previous);
    push_str(doc, "\n    <tr><td class=\"section\" colspan=\"3\">EGET KAPITAL OCH SKULDER</td></tr>\n    <tr><td class=\"section\" colspan=\"3\">Eget kapital</td></tr>");
    write_equity_rows(doc, &report.balance_sheet.current, &report.balance_sheet.previous);
    push_str(doc, "\n  </tbody>\n</table>\n");
    assert(doc@ =~= base + balance_text(*report));
}

/// One note: its number and title, and its text with line breaks.
pub open spec fn note_text(n: Note) -> Seq<char> {
    "\n<div class=\"note\">\n  <p class=\"note-title\">Not "@ + int_text(n.number as int) + ": "@ + escape_text(n.title@) + "</p>\n  <p>"@ + note_html(n.content@) + "</p>\n</div>\n"@
}

/// The notes, in order.
pub open spec fn notes_items_text(ns: Seq<Note>) -> Seq<char>
    decreases ns.len(),
{
    if ns.len() == 0 {
        Seq::empty()
    } else {
        notes_items_text(ns.drop_last()) + note_text(ns.last())
    }
}

/// The notes section.
pub open spec fn notes_text(r: AnnualReport) -> Seq<char> {
    "\n<h2>Noter</h2>\n"@ + notes_items_text(r.notes.items@)
}

fn write_note(doc: &mut String, note: &Note)
    ensures
        final(doc)@ == old(doc)@ + note_text(*note),
{
    let ghost base = old(doc)@;
    let ghost n = *note;
    push_str(doc, "\n<div class=\"note\">\n  <p class=\"note-title\">Not ");
    push_int(doc, note.number as i64);
    push_str(doc, ": ");
    push_escaped(doc, note.title.as_str());
    push_str(doc, "</p>\n  <p>");
    push_note_html(doc, note.content.as_str());
    push_str(doc, "</p>\n</div>\n");
    assert(doc@ =~= base + note_text(*note));
}

fn write_notes(doc: &mut String, report: &AnnualReport)
    ensures
        final(doc)@ == old(doc)@ + notes_text(*report),
{
    let ghost base = old(doc)@;
    push_str(doc, "\n<h2>Noter</h2>\n");
    let ghost head = doc@;
    let ghost ns = report.notes.items@;
    let mut i: usize = 0;
    while i < report.notes.items.len()
        invariant
            i <= ns.len(),
            ns == report.notes.items@,
            doc@ == head + notes_items_text(ns.take(i as int)),
        decreases report.notes.items.len() - i,
    {
        assert(ns.take(i + 1).drop_last() =~= ns.take(i as int));
        write_note(doc, &report.notes.items[i]);
        i += 1;
    }
    assert(ns.take(ns.len() as int) =~= ns);
    assert(doc@ =~= base + notes_text(*report));
}

/// The end of the document.
pub open spec fn footer_text() -> Seq<char> {
    "\n</body>\n</html>"@
}

/// The iXBRL document of an annual report: header, hidden facts, directors'
/// report, income statement, balance sheet, notes and footer.
pub open spec fn ixbrl_text(r: AnnualReport) -> Seq<char> {
    header_text(r) + hidden_text() + directors_text(r) + income_text(r) + balance_text(r) + notes_text(r)
        + footer_text()
}

/// Generate an iXBRL (Inline XBRL) document for Bolagsverket filing.
/// The output is valid XHTML with embedded XBRL tags per the Swedish taxonomy.
pub fn generate_ixbrl(report: &AnnualReport) -> (doc: String)
    requires
        ixbrl_ready(*report),
    ensures
        doc@ == ixbrl_text(*report),
{
    let mut doc = String::new();
    write_header(&mut doc, report);
    push_str(&mut doc, "\n<div class=\"hidden\">\n  <ix:nonNumeric name=\"se-gen-base:RedovisningsramverkK2\" contextRef=\"current\">true</ix:nonNumeric>\n</div>\n");
    write_directors_report(&mut doc, report);
    write_income_statement(&mut doc, report);
    write_balance_sheet(&mut doc, report);
    write_notes(&mut doc, report);
    push_str(&mut doc, "\n</body>\n</html>");
    assert(doc@ =~= ixbrl_text(*report));
    doc
}

/// The SHA-256 digest of some bytes.
pub uninterp spec fn sha256_of(data: Seq<u8>) -> Seq<u8>;

/// The SHA-256 digest of `data` (`sha2::Sha256`).
///
/// Trusted: the result is the named digest of the bytes, 32 bytes long.
#[verifier::external_body]
fn sha256(data: &[u8]) -> (d: Vec<u8>)
    ensures
        d@ == sha256_of(data@),
        d@.len() == 32,
{
    let mut hasher = sha2::Sha256::new();
    hasher.update(data);
    hasher.finalize().to_vec()
}

/// The lowercase hexadecimal digit of a value below 16.
pub open spec fn hex_digit(v: int) -> char {
    if v < 10 {
        (v + 48) as char
    } else {
        (v + 87) as char
    }
}

/// Two lowercase hexadecimal digits per byte, the high one first.
pub open spec fn hex_text(bs: Seq<u8>) -> Seq<char>
    decreases bs.len(),
{
    if bs.len() == 0 {
        Seq::empty()
    } else {
        hex_text(bs.drop_last()) + seq![hex_digit(bs.last() as int / 16), hex_digit(bs.last() as int % 16)]
    }
}

/// `hex::encode`: the bytes as lowercase hexadecimal.
///
/// Trusted: the result is two lowercase hex digits per byte, in order.
#[verifier::external_body]
fn hex_encode(data: &[u8]) -> (s: String)
    ensures
        s@ == hex_text(data@),
{
    hex::encode(data)
}

/// Compute SHA-256 checksum of the iXBRL content.
pub fn compute_checksum(content: &str) -> (s: String)
    ensures
        s@ == hex_text(sha256_of(content.spec_bytes())),
        s@.len() == 64,
{
    let digest = sha256(content.as_bytes());
    let s = hex_encode(digest.as_slice());
    proof {
        lemma_hex_len(digest@);
    }
    s
}

proof fn lemma_hex_len(bs: Seq<u8>)
    ensures
        hex_text(bs).len() == 2 * bs.len(),
    decreases bs.len(),
{
    if bs.len() > 0 {
        lemma_hex_len(bs.drop_last());
    }
}

} // verus!
