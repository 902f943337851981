//! The layout of the annual report as a PDF document (K2 format, BFNAR
//! 2016:10): the paragraphs, tables, spacing and page breaks, in order. A PDF
//! renderer draws these blocks; what each block holds is decided here.
use vstd::prelude::*;
use crate::filing::ixbrl::{group_thousands, push_grouped};
use crate::filing::ixbrl::{format_org_number, org_cut, org_shown};
use crate::money::{push_nat, round_half_even, round_half_even_signed, Money};
use crate::report::annual_report::{AnnualReport, ProfitAllocation};
use crate::report::balance_sheet::{BalanceFigures, BalanceSheetData};
use crate::report::income_statement::{IncomeFigures, IncomeStatementData};
use crate::report::notes::Note;
use crate::sie::syntax::{line_ranges, ranges_text, ranges_within, text_lines};
use crate::text::{chars_of, int_text, is_ws, is_whitespace, nat_digits, push_char, push_chars, push_int, push_str, string_of, to_string, trim_bounds, trim_end_seq, trim_seq};

verus! {

/// Font size of body text.
pub const BODY_SIZE: u8 = 10;

/// Font size of small print (page headers, column heads).
pub const SMALL_SIZE: u8 = 9;

/// Font size of main headings.
pub const H1_SIZE: u8 = 18;

/// Font size of second-level headings.
pub const H2_SIZE: u8 = 13;

/// Font size of third-level headings.
pub const H3_SIZE: u8 = 11;

/// Horizontal alignment of a paragraph.
#[derive(Clone, Copy, Debug, PartialEq, Eq, Structural)]
pub enum Align {
    Left,
    Center,
    Right,
}

/// The style of a paragraph's text.
#[derive(Clone, Copy, Debug, PartialEq, Eq, Structural)]
pub struct TextStyle {
    pub bold: bool,
    pub italic: bool,
    pub size: u8,
}

/// A paragraph of text.
#[derive(Clone, Debug)]
pub struct Para {
    pub text: String,
    pub style: TextStyle,
    pub align: Align,
}

/// A paragraph as a value: its text, style and alignment.
pub struct ParaView {
    pub text: Seq<char>,
    pub style: TextStyle,
    pub align: Align,
}

impl View for Para {
    type V = ParaView;

    open spec fn view(&self) -> ParaView {
        ParaView { text: self.text@, style: self.style, align: self.align }
    }
}

/// A table: the relative widths of its columns and its rows of cells.
#[derive(Clone, Debug)]
pub struct PdfTable {
    pub widths: Vec<usize>,
    pub rows: Vec<Vec<Para>>,
}

/// One block of the document.
#[derive(Clone, Debug)]
pub enum PdfBlock {
    /// Vertical space, in tenths of a line.
    Gap(u32),
    /// A page break.
    NewPage,
    /// A paragraph.
    Text(Para),
    /// A table.
    Table(PdfTable),
}

/// A block as a value.
pub enum BlockView {
    Gap(u32),
    NewPage,
    Text(ParaView),
    Table(Seq<usize>, Seq<Seq<ParaView>>),
}

/// The cells of a row as values.
pub open spec fn row_view(r: Seq<Para>) -> Seq<ParaView> {
    r.map_values(|p: Para| p@)
}

/// The rows of a table as values.
pub open spec fn rows_view(rs: Seq<Vec<Para>>) -> Seq<Seq<ParaView>> {
    rs.map_values(|r: Vec<Para>| row_view(r@))
}

impl View for PdfBlock {
    type V = BlockView;

    open spec fn view(&self) -> BlockView {
        match self {
            PdfBlock::Gap(n) => BlockView::Gap(*n),
            PdfBlock::NewPage => BlockView::NewPage,
            PdfBlock::Text(p) => BlockView::Text(p@),
            PdfBlock::Table(t) => BlockView::Table(t.widths@, rows_view(t.rows@)),
        }
    }
}

/// The blocks of a document as values.
pub open spec fn blocks_view(bs: Seq<PdfBlock>) -> Seq<BlockView> {
    bs.map_values(|b: PdfBlock| b@)
}

/// A paragraph value.
pub open spec fn pv(text: Seq<char>, style: TextStyle, align: Align) -> ParaView {
    ParaView { text, style, align }
}

/// A text block value.
pub open spec fn text_v(text: Seq<char>, style: TextStyle, align: Align) -> BlockView {
    BlockView::Text(pv(text, style, align))
}

/// Body text.
pub open spec fn plain() -> TextStyle {
    TextStyle { bold: false, italic: false, size: BODY_SIZE }
}

/// Bold body text.
pub open spec fn bold() -> TextStyle {
    TextStyle { bold: true, italic: false, size: BODY_SIZE }
}

/// A bold heading of the given size.
pub open spec fn heading(size: u8) -> TextStyle {
    TextStyle { bold: true, italic: false, size }
}

/// Small italic print.
pub open spec fn small_italic() -> TextStyle {
    TextStyle { bold: false, italic: true, size: SMALL_SIZE }
}

/// Small print.
pub open spec fn small() -> TextStyle {
    TextStyle { bold: false, italic: false, size: SMALL_SIZE }
}

/// The style of a table row: bold for sums.
pub open spec fn row_style(bold_row: bool) -> TextStyle {
    if bold_row {
        bold()
    } else {
        plain()
    }
}

/// Body text.
pub fn plain_style() -> (s: TextStyle)
    ensures
        s == plain(),
{
    TextStyle { bold: false, italic: false, size: BODY_SIZE }
}

/// A bold heading of the given size.
pub fn heading_style(size: u8) -> (s: TextStyle)
    ensures
        s == heading(size),
{
    TextStyle { bold: true, italic: false, size }
}

/// Small italic print.
pub fn small_italic_style() -> (s: TextStyle)
    ensures
        s == small_italic(),
{
    TextStyle { bold: false, italic: true, size: SMALL_SIZE }
}

/// The style of a table row: bold for sums.
pub fn row_style_of(bold_row: bool) -> (s: TextStyle)
    ensures
        s == row_style(bold_row),
{
    TextStyle { bold: bold_row, italic: false, size: BODY_SIZE }
}

/// An amount in öre as whole kronor, rounded half to even, with a space
/// between the thousands: e.g. "-12 345".
pub open spec fn kronor_text(ore: int) -> Seq<char> {
    let k = round_half_even_signed(ore, 100);
    let mag: nat = if k < 0 {
        (-k) as nat
    } else {
        k as nat
    };
    (if k < 0 {
        seq!['-']
    } else {
        Seq::empty()
    }) + group_thousands(nat_digits(mag))
}

/// Whole kronor with a space between the thousands (`format_sek`).
pub fn format_sek(ore: i128) -> (s: String)
    requires
        -0x1_0000_0000_0000_0000_0000_0000 < ore < 0x1_0000_0000_0000_0000_0000_0000,
    ensures
        s@ == kronor_text(ore as int),
{
    let mag: u128 = if ore < 0 {
        (-ore) as u128
    } else {
        ore as u128
    };
    let q = mag / 100;
    let r = mag % 100;
    let up = 2 * r > 100 || (2 * r == 100 && q % 2 == 1);
    let k: u128 = if up {
        q + 1
    } else {
        q
    };
    assert(k == round_half_even(mag as nat, 100));
    let negative = ore < 0 && k > 0;
    assert(negative == (round_half_even_signed(ore as int, 100) < 0));
    assert(k as int == (if round_half_even_signed(ore as int, 100) < 0 {
        -round_half_even_signed(ore as int, 100)
    } else {
        round_half_even_signed(ore as int, 100)
    }));
    let mut digits = String::new();
    push_nat(&mut digits, k);
    let ds = chars_of(digits.as_str());
    assert(ds@ =~= nat_digits(k as nat));
    let mut s = String::new();
    if negative {
        push_str(&mut s, "-");
    }
    let ghost mid = s@;
    push_grouped(&mut s, &ds);
    proof {
        let sign: Seq<char> = if negative {
            seq!['-']
        } else {
            Seq::empty()
        };
        reveal_strlit("-");
        assert(mid =~= sign);
        assert(s@ =~= kronor_text(ore as int));
    }
    s
}

/// A paragraph.
pub fn para(text: String, style: TextStyle, align: Align) -> (p: Para)
    ensures
        p@ == pv(text@, style, align),
{
    Para { text, style, align }
}

/// A paragraph of a literal text.
pub fn para_of(text: &str, style: TextStyle, align: Align) -> (p: Para)
    ensures
        p@ == pv(text@, style, align),
{
    Para { text: to_string(text), style, align }
}

/// Appends a block.
pub fn push_block(out: &mut Vec<PdfBlock>, b: PdfBlock)
    ensures
        blocks_view(final(out)@) == blocks_view(old(out)@).push(b@),
{
    out.push(b);
    assert(blocks_view(out@) =~= blocks_view(old(out)@).push(b@));
}

/// Appends a row to a table.
pub fn push_row(rows: &mut Vec<Vec<Para>>, r: Vec<Para>)
    ensures
        rows_view(final(rows)@) == rows_view(old(rows)@).push(row_view(r@)),
{
    rows.push(r);
    assert(rows_view(rows@) =~= rows_view(old(rows)@).push(row_view(r@)));
}

/// A row of a two-column money table: the label and the amount.
pub open spec fn money_row_v(label: Seq<char>, ore: int, bold_row: bool) -> Seq<ParaView> {
    seq![
        pv(label, row_style(bold_row), Align::Left),
        pv(kronor_text(ore), row_style(bold_row), Align::Right),
    ]
}

/// A row of a statement: the label, this year's amount and last year's
/// (left empty where there is no previous year).
pub open spec fn stmt_row_v(label: Seq<char>, current: int, previous: Option<int>, bold_row: bool) -> Seq<ParaView> {
    seq![
        pv(label, row_style(bold_row), Align::Left),
        pv(kronor_text(current), row_style(bold_row), Align::Right),
        pv(
            match previous {
                Some(p) => kronor_text(p),
                None => Seq::empty(),
            },
            row_style(bold_row),
            Align::Right,
        ),
    ]
}

/// The column heads of a statement: the two years' labels.
pub open spec fn header_row_v(current: Seq<char>, previous: Seq<char>) -> Seq<ParaView> {
    let hs = TextStyle { bold: true, italic: false, size: SMALL_SIZE };
    seq![pv(Seq::empty(), hs, Align::Left), pv(current, hs, Align::Right), pv(previous, hs, Align::Right)]
}

/// A subheading row of a statement.
pub open spec fn subhead_row_v(label: Seq<char>) -> Seq<ParaView> {
    seq![pv(label, bold(), Align::Left), pv(Seq::empty(), plain(), Align::Left), pv(Seq::empty(), plain(), Align::Left)]
}

/// Amounts that a statement shows: small enough to round.
pub open spec fn shown_amount(ore: int) -> bool {
    -0x1_0000_0000_0000_0000_0000_0000 < ore < 0x1_0000_0000_0000_0000_0000_0000
}

/// A row of a two-column money table.
pub fn money_row(label: &str, ore: i128, bold_row: bool) -> (r: Vec<Para>)
    requires
        shown_amount(ore as int),
    ensures
        row_view(r@) == money_row_v(label@, ore as int, bold_row),
{
    let st = row_style_of(bold_row);
    let mut r: Vec<Para> = Vec::new();
    r.push(para_of(label, st, Align::Left));
    r.push(para(format_sek(ore), st, Align::Right));
    assert(row_view(r@) =~= money_row_v(label@, ore as int, bold_row));
    r
}

/// The previous year's amount as a value.
pub open spec fn opt_amount(o: Option<i128>) -> Option<int> {
    match o {
        Some(v) => Some(v as int),
        None => None,
    }
}

/// A row of a statement.
pub fn stmt_row(label: &str, current: i128, previous: Option<i128>, bold_row: bool) -> (r: Vec<Para>)
    requires
        shown_amount(current as int),
        previous matches Some(p) ==> shown_amount(p as int),
    ensures
        row_view(r@) == stmt_row_v(label@, current as int, opt_amount(previous), bold_row),
{
    let st = row_style_of(bold_row);
    let prev_text = match previous {
        Some(p) => format_sek(p),
        None => String::new(),
    };
    let mut r: Vec<Para> = Vec::new();
    r.push(para_of(label, st, Align::Left));
    r.push(para(format_sek(current), st, Align::Right));
    r.push(para(prev_text, st, Align::Right));
    assert(row_view(r@) =~= stmt_row_v(label@, current as int, opt_amount(previous), bold_row));
    r
}

/// The column heads of a statement.
pub fn header_row(current: &str, previous: &str) -> (r: Vec<Para>)
    ensures
        row_view(r@) == header_row_v(current@, previous@),
{
    let hs = TextStyle { bold: true, italic: false, size: SMALL_SIZE };
    let mut r: Vec<Para> = Vec::new();
    r.push(para(String::new(), hs, Align::Left));
    r.push(para_of(current, hs, Align::Right));
    r.push(para_of(previous, hs, Align::Right));
    assert(row_view(r@) =~= header_row_v(current@, previous@));
    r
}

/// A subheading row of a statement.
pub fn subhead_row(label: &str) -> (r: Vec<Para>)
    ensures
        row_view(r@) == subhead_row_v(label@),
{
    let mut r: Vec<Para> = Vec::new();
    r.push(para_of(label, TextStyle { bold: true, italic: false, size: BODY_SIZE }, Align::Left));
    r.push(para(String::new(), plain_style(), Align::Left));
    r.push(para(String::new(), plain_style(), Align::Left));
    assert(row_view(r@) =~= subhead_row_v(label@));
    r
}

/// Where the first blank line ("\n\n") of `s` starts; `s.len()` where there is none.
pub open spec fn blank_index(s: Seq<char>) -> int
    decreases s.len(),
{
    if s.len() < 2 {
        s.len() as int
    } else if s[0] == '\n' && s[1] == '\n' {
        0
    } else {
        1 + blank_index(s.drop_first())
    }
}

pub proof fn lemma_blank_index(s: Seq<char>)
    ensures
        0 <= blank_index(s) <= s.len(),
        blank_index(s) < s.len() ==> blank_index(s) + 2 <= s.len() && s[blank_index(s)] == '\n'
            && s[blank_index(s) + 1] == '\n',
        forall|i: int| 0 <= i < blank_index(s) && i + 1 < s.len() ==> !(#[trigger] s[i] == '\n' && s[i + 1] == '\n'),
    decreases s.len(),
{
    if s.len() >= 2 && !(s[0] == '\n' && s[1] == '\n') {
        lemma_blank_index(s.drop_first());
        let t = s.drop_first();
        assert forall|i: int| 0 <= i < blank_index(s) && i + 1 < s.len() implies !(#[trigger] s[i] == '\n' && s[i + 1] == '\n') by {
            if i > 0 {
                assert(s[i] == t[i - 1] && s[i + 1] == t[i]);
            }
        }
    }
}

/// The pieces of `s` between blank lines (`str::split("\n\n")`).
pub open spec fn split_blank(s: Seq<char>) -> Seq<Seq<char>>
    decreases s.len(),
{
    let k = blank_index(s);
    proof {
        lemma_blank_index(s);
    }
    if k < s.len() {
        seq![s.take(k)] + split_blank(s.skip(k + 2))
    } else {
        seq![s]
    }
}

/// Lines joined by single spaces, each without its trailing white space.
pub open spec fn join_trimmed(ls: Seq<Seq<char>>) -> Seq<char>
    decreases ls.len(),
{
    if ls.len() == 0 {
        Seq::empty()
    } else if ls.len() == 1 {
        trim_end_seq(ls[0])
    } else {
        join_trimmed(ls.drop_last()) + seq![' '] + trim_end_seq(ls.last())
    }
}

/// The blocks of one piece of a section's text: its lines joined into one
/// paragraph with a small gap after it, or nothing where it is blank.
pub open spec fn piece_v(piece: Seq<char>) -> Seq<BlockView> {
    let joined = join_trimmed(text_lines(piece));
    if trim_seq(joined).len() > 0 {
        seq![text_v(joined, plain(), Align::Left), BlockView::Gap(3)]
    } else {
        Seq::empty()
    }
}

/// The blocks of a list of pieces.
pub open spec fn pieces_v(ps: Seq<Seq<char>>) -> Seq<BlockView>
    decreases ps.len(),
{
    if ps.len() == 0 {
        Seq::empty()
    } else {
        pieces_v(ps.drop_last()) + piece_v(ps.last())
    }
}

/// A section of the directors' report: its heading, then each piece of its
/// text as a paragraph ("—" where the text is blank), then a gap.
pub open spec fn section_v(title: Seq<char>, body: Seq<char>, heading_style: TextStyle) -> Seq<BlockView> {
    let text = if trim_seq(body).len() == 0 {
        "—"@
    } else {
        body
    };
    seq![text_v(title, heading_style, Align::Left), BlockView::Gap(3)] + pieces_v(split_blank(text))
        + seq![BlockView::Gap(6)]
}

/// Whether `v[from..to]` holds a character that is not white space.
fn has_content(v: &[char], from: usize, to: usize) -> (b: bool)
    requires
        from <= to <= v@.len(),
    ensures
        b == (trim_seq(v@.subrange(from as int, to as int)).len() > 0),
{
    let (a, b) = trim_bounds(v, from, to);
    a < b
}

/// Where `v[from..to]` ends once its trailing white space is removed.
fn trim_end_at(v: &[char], from: usize, to: usize) -> (e: usize)
    requires
        from <= to <= v@.len(),
    ensures
        from <= e <= to,
        v@.subrange(from as int, e as int) == trim_end_seq(v@.subrange(from as int, to as int)),
{
    let mut b = to;
    while b > from && is_whitespace(v[b - 1])
        invariant
            from <= b <= to <= v@.len(),
            trim_end_seq(v@.subrange(from as int, to as int)) == trim_end_seq(v@.subrange(from as int, b as int)),
        decreases b - from,
    {
        assert(v@.subrange(from as int, b as int).drop_last() =~= v@.subrange(from as int, b - 1));
        b -= 1;
    }
    b
}

/// The lines of a piece joined by spaces, each without trailing white space.
fn join_lines(piece: &[char]) -> (s: String)
    ensures
        s@ == join_trimmed(text_lines(piece@)),
{
    let rs = line_ranges(piece);
    let mut out = String::new();
    let mut i: usize = 0;
    while i < rs.len()
        invariant
            i <= rs@.len(),
            ranges_within(rs@, 0, piece@.len() as int),
            ranges_text(piece@, rs@) == text_lines(piece@),
            out@ == join_trimmed(ranges_text(piece@, rs@).take(i as int)),
        decreases rs.len() - i,
    {
        let (a, b) = rs[i];
        assert(ranges_text(piece@, rs@)[i as int] == piece@.subrange(a as int, b as int));
        let e = trim_end_at(piece, a, b);
        let ghost before = out@;
        if i > 0 {
            push_char(&mut out, ' ');
        }
        push_chars(&mut out, piece, a, e);
        proof {
            let ls = ranges_text(piece@, rs@).take(i + 1);
            assert(ls.drop_last() =~= ranges_text(piece@, rs@).take(i as int));
            assert(ls.last() == piece@.subrange(a as int, b as int));
            if i == 0 {
                assert(out@ =~= join_trimmed(ls));
            } else {
                assert(out@ =~= join_trimmed(ls));
            }
        }
        i += 1;
    }
    assert(ranges_text(piece@, rs@).take(rs@.len() as int) =~= ranges_text(piece@, rs@));
    out
}

pub proof fn lemma_pieces_concat(a: Seq<Seq<char>>, b: Seq<Seq<char>>)
    ensures
        pieces_v(a + b) == pieces_v(a) + pieces_v(b),
    decreases b.len(),
{
    if b.len() == 0 {
        assert(a + b =~= a);
        assert(pieces_v(a) + pieces_v(b) =~= pieces_v(a));
    } else {
        lemma_pieces_concat(a, b.drop_last());
        assert((a + b).drop_last() =~= a + b.drop_last());
        assert(pieces_v(a) + pieces_v(b) =~= pieces_v(a) + pieces_v(b.drop_last()) + piece_v(b.last()));
    }
}

pub proof fn lemma_pieces_single(p: Seq<char>)
    ensures
        pieces_v(seq![p]) == piece_v(p),
{
    let ps = seq![p];
    assert(ps.drop_last() =~= Seq::<Seq<char>>::empty());
    assert(ps.last() == p);
    assert(pieces_v(ps.drop_last()) == Seq::<BlockView>::empty());
    assert(pieces_v(ps) == pieces_v(ps.drop_last()) + piece_v(p));
    assert(Seq::<BlockView>::empty() + piece_v(p) =~= piece_v(p));
}

/// Where the first blank line of `v[from..to]` starts (`to` where there is none).
fn find_blank(v: &[char], from: usize, to: usize) -> (k: usize)
    requires
        from <= to <= v@.len(),
    ensures
        k == from + blank_index(v@.subrange(from as int, to as int)),
{
    let ghost s = v@.subrange(from as int, to as int);
    let mut j = from;
    while to - j > 1 && !(v[j] == '\n' && v[j + 1] == '\n')
        invariant
            from <= j <= to <= v@.len(),
            s == v@.subrange(from as int, to as int),
            forall|i: int| from <= i < j ==> !(#[trigger] v@[i] == '\n' && v@[i + 1] == '\n'),
        decreases to - j,
    {
        j += 1;
    }
    proof {
        lemma_blank_index(s);
        let bi = blank_index(s);
        if j + 1 < to {
            if bi < j - from {
                assert(s[bi] == v@[from + bi] && s[bi + 1] == v@[from + bi + 1]);
            }
            if bi > j - from {
                assert(s[j - from] == v@[j as int] && s[j - from + 1] == v@[j + 1]);
            }
        } else {
            if bi < s.len() {
                assert(s[bi] == v@[from + bi] && s[bi + 1] == v@[from + bi + 1]);
            }
        }
    }
    if to - j > 1 {
        j
    } else {
        to
    }
}

/// Appends the blocks of one piece of a section's text.
fn push_piece(out: &mut Vec<PdfBlock>, v: &[char], from: usize, to: usize)
    requires
        from <= to <= v@.len(),
    ensures
        blocks_view(final(out)@) == blocks_view(old(out)@) + piece_v(v@.subrange(from as int, to as int)),
{
    let piece = chars_of(string_of(v, from, to).as_str());
    let joined = join_lines(piece.as_slice());
    let jc = chars_of(joined.as_str());
    assert(jc@.subrange(0, jc@.len() as int) =~= jc@);
    if has_content(jc.as_slice(), 0, jc.len()) {
        push_block(out, PdfBlock::Text(para(joined, plain_style(), Align::Left)));
        push_block(out, PdfBlock::Gap(3));
        assert(blocks_view(out@) =~= blocks_view(old(out)@) + piece_v(v@.subrange(from as int, to as int)));
    } else {
        assert(blocks_view(out@) =~= blocks_view(old(out)@) + piece_v(v@.subrange(from as int, to as int)));
    }
}

/// Appends a section of the directors' report.
pub fn push_section(out: &mut Vec<PdfBlock>, title: &str, body: &str, heading_style: TextStyle)
    ensures
        blocks_view(final(out)@) == blocks_view(old(out)@) + section_v(title@, body@, heading_style),
{
    let ghost base = blocks_view(old(out)@);
    push_block(out, PdfBlock::Text(para_of(title, heading_style, Align::Left)));
    push_block(out, PdfBlock::Gap(3));
    let bc = chars_of(body);
    assert(bc@.subrange(0, bc@.len() as int) =~= bc@);
    let v = if has_content(bc.as_slice(), 0, bc.len()) {
        bc
    } else {
        chars_of("—")
    };
    let ghost text = v@;
    let ghost head = blocks_view(out@);
    let n = v.len();
    let mut i: usize = 0;
    assert(v@.subrange(0, n as int) =~= v@);
    loop
        invariant_except_break
            i <= n == v@.len(),
            blocks_view(out@) + pieces_v(split_blank(v@.subrange(i as int, n as int))) == head
                + pieces_v(split_blank(text)),
        ensures
            blocks_view(out@) == head + pieces_v(split_blank(text)),
        decreases n - i,
    {
        let ghost s = v@.subrange(i as int, n as int);
        let k = find_blank(v.as_slice(), i, n);
        proof {
            lemma_blank_index(s);
            assert(s.take(k - i) =~= v@.subrange(i as int, k as int));
        }
        let ghost before = blocks_view(out@);
        push_piece(out, v.as_slice(), i, k);
        if k < n {
            proof {
                let rest = split_blank(s.skip(k - i + 2));
                assert(s.skip(k - i + 2) =~= v@.subrange(k + 2, n as int));
                assert(split_blank(s) == seq![s.take(k - i)] + rest);
                lemma_pieces_concat(seq![s.take(k - i)], rest);
                lemma_pieces_single(s.take(k - i));
                assert(blocks_view(out@) + pieces_v(rest) =~= before + pieces_v(split_blank(s)));
            }
            i = k + 2;
        } else {
            proof {
                assert(split_blank(s) == seq![s]);
                lemma_pieces_single(s);
                assert(s.take(k - i) =~= s);
                assert(blocks_view(out@) =~= before + pieces_v(split_blank(s)));
            }
            break;
        }
    }
    push_block(out, PdfBlock::Gap(6));
    proof {
        reveal_strlit("—");
        assert(trim_seq(body@) == trim_seq(bc@));
        assert(blocks_view(out@) =~= base + section_v(title@, body@, heading_style));
    }
}

/// The title page: the company, its organisation number and the fiscal year.
pub open spec fn title_page_v(r: AnnualReport) -> Seq<BlockView> {
    seq![
        BlockView::Gap(60),
        text_v("ÅRSREDOVISNING"@, heading(H1_SIZE), Align::Center),
        BlockView::Gap(8),
        text_v("för"@, plain(), Align::Center),
        BlockView::Gap(4),
        text_v(r.company.name@, heading(H2_SIZE), Align::Center),
        BlockView::Gap(3),
        text_v("Org.nr "@ + org_shown(r.company.org_number@), plain(), Align::Center),
        BlockView::Gap(10),
        text_v(
            "Räkenskapsår "@ + r.fiscal_year.start_date@ + " – "@ + r.fiscal_year.end_date@,
            plain(),
            Align::Center,
        ),
        BlockView::Gap(30),
        text_v("Styrelsen avger följande årsredovisning."@, small_italic(), Align::Center),
    ]
}

/// Appends the title page.
fn push_title_page(out: &mut Vec<PdfBlock>, r: &AnnualReport)
    requires
        org_cut(r.company.org_number@) is Some,
    ensures
        blocks_view(final(out)@) == blocks_view(old(out)@) + title_page_v(*r),
{
    let ghost base = blocks_view(old(out)@);
    push_block(out, PdfBlock::Gap(60));
    push_block(out, PdfBlock::Text(para_of("ÅRSREDOVISNING", heading_style(H1_SIZE), Align::Center)));
    push_block(out, PdfBlock::Gap(8));
    push_block(out, PdfBlock::Text(para_of("för", plain_style(), Align::Center)));
    push_block(out, PdfBlock::Gap(4));
    push_block(out, PdfBlock::Text(para_of(r.company.name.as_str(), heading_style(H2_SIZE), Align::Center)));
    push_block(out, PdfBlock::Gap(3));
    let mut org = to_string("Org.nr ");
    let shown = format_org_number(r.company.org_number.as_str());
    push_str(&mut org, shown.as_str());
    push_block(out, PdfBlock::Text(para(org, plain_style(), Align::Center)));
    push_block(out, PdfBlock::Gap(10));
    let mut years = to_string("Räkenskapsår ");
    push_str(&mut years, r.fiscal_year.start_date.as_str());
    push_str(&mut years, " – ");
    push_str(&mut years, r.fiscal_year.end_date.as_str());
    push_block(out, PdfBlock::Text(para(years, plain_style(), Align::Center)));
    push_block(out, PdfBlock::Gap(30));
    push_block(
        out,
        PdfBlock::Text(para_of("Styrelsen avger följande årsredovisning.", small_italic_style(), Align::Center)),
    );
    assert(blocks_view(out@) =~= base + title_page_v(*r));
}

/// The proposal for the year's result: what is available, and how it is
/// to be allocated (a dividend only where one is proposed).
pub open spec fn allocation_v(pa: ProfitAllocation) -> Seq<BlockView> {
    seq![
        text_v("Förslag till resultatdisposition"@, heading(H3_SIZE), Align::Left),
        BlockView::Gap(3),
        text_v("Styrelsen föreslår att till förfogande stående medel:"@, plain(), Align::Left),
        BlockView::Gap(2),
        BlockView::Table(
            seq![7usize, 3usize],
            seq![
                money_row_v("Årets resultat"@, pa.result_for_year@, false),
                money_row_v("Balanserat resultat"@, pa.retained_earnings@, false),
                money_row_v("Summa"@, pa.total_available@, true),
            ],
        ),
        BlockView::Gap(5),
        text_v("disponeras enligt följande:"@, plain(), Align::Left),
        BlockView::Gap(2),
        BlockView::Table(
            seq![7usize, 3usize],
            (if pa.dividend@ != 0 {
                seq![money_row_v("Utdelning till aktieägarna"@, pa.dividend@, false)]
            } else {
                Seq::empty()
            }) + seq![
                money_row_v("I ny räkning överföres"@, pa.carry_forward@, false),
                money_row_v("Summa"@, pa.total_available@, true),
            ],
        ),
    ]
}

/// An amount as a table shows it.
fn amount(m: Money) -> (v: i128)
    ensures
        v == m@,
        shown_amount(v as int),
        shown_amount(-v),
{
    proof {
        m.lemma_range();
    }
    m.to_ore() as i128
}

/// The widths of a table's columns.
fn widths(a: usize, b: usize) -> (w: Vec<usize>)
    ensures
        w@ == seq![a, b],
{
    let mut w: Vec<usize> = Vec::new();
    w.push(a);
    w.push(b);
    assert(w@ =~= seq![a, b]);
    w
}

/// The widths of a statement's three columns.
fn statement_widths() -> (w: Vec<usize>)
    ensures
        w@ == seq![8usize, 3usize, 3usize],
{
    let mut w: Vec<usize> = Vec::new();
    w.push(8);
    w.push(3);
    w.push(3);
    assert(w@ =~= seq![8usize, 3usize, 3usize]);
    w
}

/// Appends the proposal for the year's result.
fn push_allocation(out: &mut Vec<PdfBlock>, pa: &ProfitAllocation)
    ensures
        blocks_view(final(out)@) == blocks_view(old(out)@) + allocation_v(*pa),
{
    let ghost base = blocks_view(old(out)@);
    push_block(out, PdfBlock::Text(para_of("Förslag till resultatdisposition", heading_style(H3_SIZE), Align::Left)));
    push_block(out, PdfBlock::Gap(3));
    push_block(
        out,
        PdfBlock::Text(para_of("Styrelsen föreslår att till förfogande stående medel:", plain_style(), Align::Left)),
    );
    push_block(out, PdfBlock::Gap(2));
    let mut rows: Vec<Vec<Para>> = Vec::new();
    push_row(&mut rows, money_row("Årets resultat", amount(pa.result_for_year), false));
    push_row(&mut rows, money_row("Balanserat resultat", amount(pa.retained_earnings), false));
    push_row(&mut rows, money_row("Summa", amount(pa.total_available), true));
    assert(rows_view(rows@) =~= seq![
        money_row_v("Årets resultat"@, pa.result_for_year@, false),
        money_row_v("Balanserat resultat"@, pa.retained_earnings@, false),
        money_row_v("Summa"@, pa.total_available@, true),
    ]);
    push_block(out, PdfBlock::Table(PdfTable { widths: widths(7, 3), rows }));
    push_block(out, PdfBlock::Gap(5));
    push_block(out, PdfBlock::Text(para_of("disponeras enligt följande:", plain_style(), Align::Left)));
    push_block(out, PdfBlock::Gap(2));
    let mut rows2: Vec<Vec<Para>> = Vec::new();
    if !pa.dividend.is_zero() {
        push_row(&mut rows2, money_row("Utdelning till aktieägarna", amount(pa.dividend), false));
    }
    let ghost first = rows_view(rows2@);
    assert(first =~= (if pa.dividend@ != 0 {
        seq![money_row_v("Utdelning till aktieägarna"@, pa.dividend@, false)]
    } else {
        Seq::<Seq<ParaView>>::empty()
    }));
    push_row(&mut rows2, money_row("I ny räkning överföres", amount(pa.carry_forward), false));
    push_row(&mut rows2, money_row("Summa", amount(pa.total_available), true));
    assert(rows_view(rows2@) =~= first + seq![
        money_row_v("I ny räkning överföres"@, pa.carry_forward@, false),
        money_row_v("Summa"@, pa.total_available@, true),
    ]);
    push_block(out, PdfBlock::Table(PdfTable { widths: widths(7, 3), rows: rows2 }));
    assert(blocks_view(out@) =~= base + allocation_v(*pa));
}

/// The directors' report: its three sections and, where there is one, the
/// proposal for the year's result.
pub open spec fn directors_v(r: AnnualReport) -> Seq<BlockView> {
    let d = r.directors_report;
    seq![BlockView::NewPage, text_v("Förvaltningsberättelse"@, heading(H1_SIZE), Align::Left), BlockView::Gap(8)]
        + section_v("Allmänt om verksamheten"@, d.business_description@, heading(H3_SIZE))
        + section_v("Väsentliga händelser under räkenskapsåret"@, d.important_events@, heading(H3_SIZE))
        + section_v("Framtida utveckling"@, d.future_outlook@, heading(H3_SIZE))
        + match d.profit_allocation {
            Some(pa) => allocation_v(pa),
            None => Seq::empty(),
        }
}

/// Appends the directors' report.
fn push_directors(out: &mut Vec<PdfBlock>, r: &AnnualReport)
    ensures
        blocks_view(final(out)@) == blocks_view(old(out)@) + directors_v(*r),
{
    let ghost base = blocks_view(old(out)@);
    let d = &r.directors_report;
    push_block(out, PdfBlock::NewPage);
    push_block(out, PdfBlock::Text(para_of("Förvaltningsberättelse", heading_style(H1_SIZE), Align::Left)));
    push_block(out, PdfBlock::Gap(8));
    let ghost b1 = blocks_view(out@);
    push_section(out, "Allmänt om verksamheten", d.business_description.as_str(), heading_style(H3_SIZE));
    let ghost b2 = blocks_view(out@);
    push_section(
        out,
        "Väsentliga händelser under räkenskapsåret",
        d.important_events.as_str(),
        heading_style(H3_SIZE),
    );
    let ghost b3 = blocks_view(out@);
    push_section(out, "Framtida utveckling", d.future_outlook.as_str(), heading_style(H3_SIZE));
    let ghost b4 = blocks_view(out@);
    match &d.profit_allocation {
        Some(pa) => push_allocation(out, pa),
        None => {},
    }
    proof {
        let sections = section_v("Allmänt om verksamheten"@, d.business_description@, heading(H3_SIZE))
            + section_v("Väsentliga händelser under räkenskapsåret"@, d.important_events@, heading(H3_SIZE))
            + section_v("Framtida utveckling"@, d.future_outlook@, heading(H3_SIZE));
        assert(b4 =~= b1 + sections);
        assert(blocks_view(out@) =~= base + directors_v(*r));
    }
}

/// The previous year's figure, where there is a previous year.
pub open spec fn pick_prev<F>(p: Option<F>, f: spec_fn(F) -> int) -> Option<int> {
    match p {
        Some(x) => Some(f(x)),
        None => None,
    }
}

/// A row where it shows (`shown`), or none.
pub open spec fn row_if(shown: bool, row: Seq<ParaView>) -> Seq<Seq<ParaView>> {
    if shown {
        seq![row]
    } else {
        Seq::empty()
    }
}

/// The label of the previous year's column: its fiscal year, or "—".
pub open spec fn prev_label<T>(p: Option<(Seq<char>, T)>) -> Seq<char> {
    match p {
        Some(x) => x.0,
        None => "—"@,
    }
}

/// The rows of the income statement: the year's figures with last year's
/// beside them; costs shown negative; other operating income, depreciation,
/// the financial items and tax only where this year has them.
pub open spec fn income_rows_v(c: IncomeFigures, p: Option<IncomeFigures>) -> Seq<Seq<ParaView>> {
    income_head_v(c, p) + income_middle_v(c, p) + income_tail_v(c, p)
}

/// The income rows down to the personnel costs.
pub open spec fn income_head_v(c: IncomeFigures, p: Option<IncomeFigures>) -> Seq<Seq<ParaView>> {
    seq![stmt_row_v("Nettoomsättning"@, c.net_revenue, pick_prev(p, |f: IncomeFigures| f.net_revenue), false)]
        + row_if(
        c.other_operating_income != 0,
        stmt_row_v(
            "Övriga rörelseintäkter"@,
            c.other_operating_income,
            pick_prev(p, |f: IncomeFigures| f.other_operating_income),
            false,
        ),
    ) + seq![
        stmt_row_v(
            "Råvaror och förnödenheter"@,
            -c.raw_materials,
            pick_prev(p, |f: IncomeFigures| -f.raw_materials),
            false,
        ),
        stmt_row_v(
            "Övriga externa kostnader"@,
            -c.other_external_costs,
            pick_prev(p, |f: IncomeFigures| -f.other_external_costs),
            false,
        ),
        stmt_row_v("Personalkostnader"@, -c.personnel_costs, pick_prev(p, |f: IncomeFigures| -f.personnel_costs), false),
    ]
}

/// The income rows from depreciation to the financial items.
pub open spec fn income_middle_v(c: IncomeFigures, p: Option<IncomeFigures>) -> Seq<Seq<ParaView>> {
    row_if(
        c.depreciation != 0,
        stmt_row_v("Av- och nedskrivningar"@, -c.depreciation, pick_prev(p, |f: IncomeFigures| -f.depreciation), false),
    ) + seq![
        stmt_row_v("Rörelseresultat"@, c.operating_result, pick_prev(p, |f: IncomeFigures| f.operating_result), true),
    ] + (if c.financial_income != 0 || c.financial_costs != 0 {
        seq![
            stmt_row_v(
                "Finansiella intäkter"@,
                c.financial_income,
                pick_prev(p, |f: IncomeFigures| f.financial_income),
                false,
            ),
            stmt_row_v(
                "Finansiella kostnader"@,
                -c.financial_costs,
                pick_prev(p, |f: IncomeFigures| -f.financial_costs),
                false,
            ),
        ]
    } else {
        Seq::empty()
    })
}

/// The income rows from the result after financial items to the year's result.
pub open spec fn income_tail_v(c: IncomeFigures, p: Option<IncomeFigures>) -> Seq<Seq<ParaView>> {
    seq![
        stmt_row_v(
            "Resultat efter finansiella poster"@,
            c.result_after_financial,
            pick_prev(p, |f: IncomeFigures| f.result_after_financial),
            true,
        ),
    ] + row_if(
        c.tax != 0,
        stmt_row_v("Skatt på årets resultat"@, -c.tax, pick_prev(p, |f: IncomeFigures| -f.tax), false),
    ) + seq![stmt_row_v("Årets resultat"@, c.net_result, pick_prev(p, |f: IncomeFigures| f.net_result), true)]
}

/// The figures of an optional year.
pub open spec fn income_prev(p: Option<IncomeStatementData>) -> Option<(Seq<char>, IncomeFigures)> {
    match p {
        Some(x) => Some(x@),
        None => None,
    }
}

/// The figures of an optional year, without its label.
pub open spec fn figures_of<T>(p: Option<(Seq<char>, T)>) -> Option<T> {
    match p {
        Some(x) => Some(x.1),
        None => None,
    }
}

/// The income statement page.
pub open spec fn income_v(r: AnnualReport) -> Seq<BlockView> {
    let cur = r.income_statement.current@;
    let prev = income_prev(r.income_statement.previous);
    seq![
        BlockView::NewPage,
        text_v("Resultaträkning"@, heading(H1_SIZE), Align::Left),
        BlockView::Gap(2),
        text_v("Belopp i kronor"@, small_italic(), Align::Left),
        BlockView::Gap(5),
        BlockView::Table(
            seq![8usize, 3usize, 3usize],
            seq![header_row_v(cur.0, prev_label(prev))] + income_rows_v(cur.1, figures_of(prev)),
        ),
    ]
}

/// Last year's amount where there is a last year (`has`), negated where asked.
fn prev_amount(has: bool, m: Money, negate: bool) -> (r: Option<i128>)
    ensures
        opt_amount(r) == (if has {
            Some(
                if negate {
                    -m@
                } else {
                    m@
                },
            )
        } else {
            None
        }),
        r matches Some(v) ==> shown_amount(v as int),
{
    if has {
        let v = amount(m);
        Some(
            if negate {
                -v
            } else {
                v
            },
        )
    } else {
        None
    }
}

/// The previous year's figures where there is one (`has`).
pub open spec fn prev_figures(has: bool, q: IncomeStatementData) -> Option<IncomeFigures> {
    if has {
        Some(q@.1)
    } else {
        None
    }
}

/// Appends a statement row of an amount of this year and, where there is
/// one, of last year; both negated where asked.
fn push_stmt(rows: &mut Vec<Vec<Para>>, label: &str, c: Money, has: bool, q: Money, negate: bool, bold_row: bool)
    ensures
        rows_view(final(rows)@) == rows_view(old(rows)@).push(
            stmt_row_v(
                label@,
                if negate {
                    -c@
                } else {
                    c@
                },
                if has {
                    Some(
                        if negate {
                            -q@
                        } else {
                            q@
                        },
                    )
                } else {
                    None
                },
                bold_row,
            ),
        ),
{
    let v = amount(c);
    let cv = if negate {
        -v
    } else {
        v
    };
    push_row(rows, stmt_row(label, cv, prev_amount(has, q, negate), bold_row));
}

/// Appends the income rows down to the personnel costs.
fn push_income_head(rows: &mut Vec<Vec<Para>>, c: &IncomeStatementData, has: bool, q: &IncomeStatementData)
    ensures
        rows_view(final(rows)@) == rows_view(old(rows)@) + income_head_v(c@.1, prev_figures(has, *q)),
{
    let ghost base = rows_view(old(rows)@);
    let ghost p = prev_figures(has, *q);
    push_stmt(rows, "Nettoomsättning", c.net_revenue, has, q.net_revenue, false, false);
    let ghost s1 = rows_view(rows@);
    if !c.other_operating_income.is_zero() {
        push_stmt(rows, "Övriga rörelseintäkter", c.other_operating_income, has, q.other_operating_income, false, false);
    }
    let ghost s2 = rows_view(rows@);
    push_stmt(rows, "Råvaror och förnödenheter", c.raw_materials, has, q.raw_materials, true, false);
    push_stmt(rows, "Övriga externa kostnader", c.other_external_costs, has, q.other_external_costs, true, false);
    push_stmt(rows, "Personalkostnader", c.personnel_costs, has, q.personnel_costs, true, false);
    proof {
        let cf = c@.1;
        assert(s2 =~= s1 + row_if(
            cf.other_operating_income != 0,
            stmt_row_v(
                "Övriga rörelseintäkter"@,
                cf.other_operating_income,
                pick_prev(p, |f: IncomeFigures| f.other_operating_income),
                false,
            ),
        ));
        assert(rows_view(rows@) =~= base + income_head_v(cf, p));
    }
}

/// Appends the income rows from depreciation to the financial items.
fn push_income_middle(rows: &mut Vec<Vec<Para>>, c: &IncomeStatementData, has: bool, q: &IncomeStatementData)
    ensures
        rows_view(final(rows)@) == rows_view(old(rows)@) + income_middle_v(c@.1, prev_figures(has, *q)),
{
    let ghost base = rows_view(old(rows)@);
    let ghost p = prev_figures(has, *q);
    if !c.depreciation.is_zero() {
        push_stmt(rows, "Av- och nedskrivningar", c.depreciation, has, q.depreciation, true, false);
    }
    let ghost s1 = rows_view(rows@);
    push_stmt(rows, "Rörelseresultat", c.operating_result, has, q.operating_result, false, true);
    let ghost s2 = rows_view(rows@);
    if !c.financial_income.is_zero() || !c.financial_costs.is_zero() {
        push_stmt(rows, "Finansiella intäkter", c.financial_income, has, q.financial_income, false, false);
        push_stmt(rows, "Finansiella kostnader", c.financial_costs, has, q.financial_costs, true, false);
    }
    proof {
        let cf = c@.1;
        assert(s1 =~= base + row_if(
            cf.depreciation != 0,
            stmt_row_v("Av- och nedskrivningar"@, -cf.depreciation, pick_prev(p, |f: IncomeFigures| -f.depreciation), false),
        ));
        assert(rows_view(rows@) =~= base + income_middle_v(cf, p));
    }
}

/// Appends the income rows from the result after financial items on.
fn push_income_tail(rows: &mut Vec<Vec<Para>>, c: &IncomeStatementData, has: bool, q: &IncomeStatementData)
    ensures
        rows_view(final(rows)@) == rows_view(old(rows)@) + income_tail_v(c@.1, prev_figures(has, *q)),
{
    let ghost base = rows_view(old(rows)@);
    let ghost p = prev_figures(has, *q);
    push_stmt(
        rows,
        "Resultat efter finansiella poster",
        c.result_after_financial,
        has,
        q.result_after_financial,
        false,
        true,
    );
    let ghost s1 = rows_view(rows@);
    if !c.tax.is_zero() {
        push_stmt(rows, "Skatt på årets resultat", c.tax, has, q.tax, true, false);
    }
    let ghost s2 = rows_view(rows@);
    push_stmt(rows, "Årets resultat", c.net_result, has, q.net_result, false, true);
    proof {
        let cf = c@.1;
        assert(s2 =~= s1 + row_if(
            cf.tax != 0,
            stmt_row_v("Skatt på årets resultat"@, -cf.tax, pick_prev(p, |f: IncomeFigures| -f.tax), false),
        ));
        assert(rows_view(rows@) =~= base + income_tail_v(cf, p));
    }
}

/// Appends the income statement page.
fn push_income(out: &mut Vec<PdfBlock>, r: &AnnualReport)
    ensures
        blocks_view(final(out)@) == blocks_view(old(out)@) + income_v(*r),
{
    let ghost base = blocks_view(old(out)@);
    push_block(out, PdfBlock::NewPage);
    push_block(out, PdfBlock::Text(para_of("Resultaträkning", heading_style(H1_SIZE), Align::Left)));
    push_block(out, PdfBlock::Gap(2));
    push_block(out, PdfBlock::Text(para_of("Belopp i kronor", small_italic_style(), Align::Left)));
    push_block(out, PdfBlock::Gap(5));
    let c = &r.income_statement.current;
    let has = r.income_statement.previous.is_some();
    let (q, label) = match &r.income_statement.previous {
        Some(q) => (q, q.fiscal_year.as_str()),
        None => (c, "—"),
    };
    let mut rows: Vec<Vec<Para>> = Vec::new();
    push_row(&mut rows, header_row(c.fiscal_year.as_str(), label));
    let ghost b0 = rows_view(rows@);
    push_income_head(&mut rows, c, has, q);
    push_income_middle(&mut rows, c, has, q);
    push_income_tail(&mut rows, c, has, q);
    proof {
        let prev = income_prev(r.income_statement.previous);
        assert(label@ == prev_label(prev));
        assert(figures_of(prev) == prev_figures(has, *q));
        let pf = prev_figures(has, *q);
        assert(b0 =~= seq![header_row_v(c@.0, prev_label(prev))]);
        assert(rows_view(rows@) =~= seq![header_row_v(c@.0, prev_label(prev))] + income_rows_v(c@.1, figures_of(prev)));
    }
    push_block(out, PdfBlock::Table(PdfTable { widths: statement_widths(), rows }));
    assert(blocks_view(out@) =~= base + income_v(*r));
}

/// The asset rows of the balance sheet: fixed assets (each kind only where
/// this year has it) and their sum, current assets (inventory only where
/// this year has some) and their sum, and the total.
pub open spec fn asset_rows_v(c: BalanceFigures, p: Option<BalanceFigures>) -> Seq<Seq<ParaView>> {
    fixed_rows_v(c, p) + current_rows_v(c, p)
}

/// The fixed-asset rows of the balance sheet.
pub open spec fn fixed_rows_v(c: BalanceFigures, p: Option<BalanceFigures>) -> Seq<Seq<ParaView>> {
    seq![subhead_row_v("Anläggningstillgångar"@)] + row_if(
        c.intangible_assets != 0,
        stmt_row_v(
            "  Immateriella anläggningstillgångar"@,
            c.intangible_assets,
            pick_prev(p, |f: BalanceFigures| f.intangible_assets),
            false,
        ),
    ) + row_if(
        c.tangible_assets != 0,
        stmt_row_v(
            "  Materiella anläggningstillgångar"@,
            c.tangible_assets,
            pick_prev(p, |f: BalanceFigures| f.tangible_assets),
            false,
        ),
    ) + row_if(
        c.financial_fixed_assets != 0,
        stmt_row_v(
            "  Finansiella anläggningstillgångar"@,
            c.financial_fixed_assets,
            pick_prev(p, |f: BalanceFigures| f.financial_fixed_assets),
            false,
        ),
    ) + seq![
        stmt_row_v(
            "Summa anläggningstillgångar"@,
            c.total_fixed_assets,
            pick_prev(p, |f: BalanceFigures| f.total_fixed_assets),
            true,
        ),
    ]
}

/// The current-asset rows of the balance sheet, and the total.
pub open spec fn current_rows_v(c: BalanceFigures, p: Option<BalanceFigures>) -> Seq<Seq<ParaView>> {
    seq![subhead_row_v("Omsättningstillgångar"@)] + row_if(
        c.inventory != 0,
        stmt_row_v("  Varulager"@, c.inventory, pick_prev(p, |f: BalanceFigures| f.inventory), false),
    ) + seq![
        stmt_row_v(
            "  Kortfristiga fordringar"@,
            c.current_receivables,
            pick_prev(p, |f: BalanceFigures| f.current_receivables),
            false,
        ),
        stmt_row_v("  Kassa och bank"@, c.cash_and_bank, pick_prev(p, |f: BalanceFigures| f.cash_and_bank), false),
        stmt_row_v(
            "Summa omsättningstillgångar"@,
            c.total_current_assets,
            pick_prev(p, |f: BalanceFigures| f.total_current_assets),
            true,
        ),
        stmt_row_v("Summa tillgångar"@, c.total_assets, pick_prev(p, |f: BalanceFigures| f.total_assets), true),
    ]
}

/// The equity and liability rows of the balance sheet: equity and its sum,
/// untaxed reserves and long-term liabilities only where this year has
/// them, current liabilities, and the total.
pub open spec fn equity_rows_v(c: BalanceFigures, p: Option<BalanceFigures>) -> Seq<Seq<ParaView>> {
    seq![
        subhead_row_v("Eget kapital"@),
        stmt_row_v(
            "  Bundet eget kapital"@,
            c.restricted_equity,
            pick_prev(p, |f: BalanceFigures| f.restricted_equity),
            false,
        ),
        stmt_row_v(
            "  Fritt eget kapital"@,
            c.unrestricted_equity,
            pick_prev(p, |f: BalanceFigures| f.unrestricted_equity),
            false,
        ),
        stmt_row_v("Summa eget kapital"@, c.total_equity, pick_prev(p, |f: BalanceFigures| f.total_equity), true),
    ] + row_if(
        c.untaxed_reserves != 0,
        stmt_row_v(
            "Obeskattade reserver"@,
            c.untaxed_reserves,
            pick_prev(p, |f: BalanceFigures| f.untaxed_reserves),
            false,
        ),
    ) + row_if(
        c.long_term_liabilities != 0,
        stmt_row_v(
            "Långfristiga skulder"@,
            c.long_term_liabilities,
            pick_prev(p, |f: BalanceFigures| f.long_term_liabilities),
            false,
        ),
    ) + seq![
        stmt_row_v(
            "Kortfristiga skulder"@,
            c.current_liabilities,
            pick_prev(p, |f: BalanceFigures| f.current_liabilities),
            false,
        ),
        stmt_row_v(
            "Summa eget kapital och skulder"@,
            c.total_equity_and_liabilities,
            pick_prev(p, |f: BalanceFigures| f.total_equity_and_liabilities),
            true,
        ),
    ]
}

/// The figures of an optional balance sheet.
pub open spec fn balance_prev(p: Option<BalanceSheetData>) -> Option<(Seq<char>, BalanceFigures)> {
    match p {
        Some(x) => Some(x@),
        None => None,
    }
}

/// The balance sheet page: assets, then equity and liabilities.
pub open spec fn balance_v(r: AnnualReport) -> Seq<BlockView> {
    let cur = r.balance_sheet.current@;
    let prev = balance_prev(r.balance_sheet.previous);
    let head = header_row_v(cur.0, prev_label(prev));
    seq![
        BlockView::NewPage,
        text_v("Balansräkning"@, heading(H1_SIZE), Align::Left),
        BlockView::Gap(2),
        text_v("Belopp i kronor"@, small_italic(), Align::Left),
        BlockView::Gap(5),
        text_v("Tillgångar"@, heading(H2_SIZE), Align::Left),
        BlockView::Gap(3),
        BlockView::Table(seq![8usize, 3usize, 3usize], seq![head] + asset_rows_v(cur.1, figures_of(prev))),
        BlockView::Gap(10),
        text_v("Eget kapital och skulder"@, heading(H2_SIZE), Align::Left),
        BlockView::Gap(3),
        BlockView::Table(seq![8usize, 3usize, 3usize], seq![head] + equity_rows_v(cur.1, figures_of(prev))),
    ]
}

/// The previous year's balance figures where there is one (`has`).
pub open spec fn prev_balance(has: bool, q: BalanceSheetData) -> Option<BalanceFigures> {
    if has {
        Some(q@.1)
    } else {
        None
    }
}

/// A row that shows only where `shown`.
fn push_stmt_if(
    rows: &mut Vec<Vec<Para>>,
    shown: bool,
    label: &str,
    c: Money,
    has: bool,
    q: Money,
)
    ensures
        rows_view(final(rows)@) == rows_view(old(rows)@) + row_if(
            shown,
            stmt_row_v(
                label@,
                c@,
                if has {
                    Some(q@)
                } else {
                    None
                },
                false,
            ),
        ),
{
    if shown {
        push_stmt(rows, label, c, has, q, false, false);
        assert(rows_view(rows@) =~= rows_view(old(rows)@) + row_if(
            shown,
            stmt_row_v(label@, c@, if has { Some(q@) } else { None }, false),
        ));
    } else {
        assert(rows_view(rows@) =~= rows_view(old(rows)@) + row_if(
            shown,
            stmt_row_v(label@, c@, if has { Some(q@) } else { None }, false),
        ));
    }
}

/// Appends the fixed-asset rows.
fn push_fixed_rows(rows: &mut Vec<Vec<Para>>, c: &BalanceSheetData, has: bool, q: &BalanceSheetData)
    ensures
        rows_view(final(rows)@) == rows_view(old(rows)@) + fixed_rows_v(c@.1, prev_balance(has, *q)),
{
    let ghost base = rows_view(old(rows)@);
    let a = &c.assets;
    let qa = &q.assets;
    push_row(rows, subhead_row("Anläggningstillgångar"));
    let ghost s1 = rows_view(rows@);
    push_stmt_if(
        rows,
        !a.intangible_assets.is_zero(),
        "  Immateriella anläggningstillgångar",
        a.intangible_assets,
        has,
        qa.intangible_assets,
    );
    let ghost s2 = rows_view(rows@);
    push_stmt_if(
        rows,
        !a.tangible_assets.is_zero(),
        "  Materiella anläggningstillgångar",
        a.tangible_assets,
        has,
        qa.tangible_assets,
    );
    let ghost s3 = rows_view(rows@);
    push_stmt_if(
        rows,
        !a.financial_fixed_assets.is_zero(),
        "  Finansiella anläggningstillgångar",
        a.financial_fixed_assets,
        has,
        qa.financial_fixed_assets,
    );
    let ghost s4 = rows_view(rows@);
    push_stmt(rows, "Summa anläggningstillgångar", a.total_fixed_assets, has, qa.total_fixed_assets, false, true);
    proof {
        let p = prev_balance(has, *q);
        let cf = c@.1;
        assert(s2 =~= s1 + row_if(
            cf.intangible_assets != 0,
            stmt_row_v(
                "  Immateriella anläggningstillgångar"@,
                cf.intangible_assets,
                pick_prev(p, |f: BalanceFigures| f.intangible_assets),
                false,
            ),
        ));
        assert(s3 =~= s2 + row_if(
            cf.tangible_assets != 0,
            stmt_row_v(
                "  Materiella anläggningstillgångar"@,
                cf.tangible_assets,
                pick_prev(p, |f: BalanceFigures| f.tangible_assets),
                false,
            ),
        ));
        assert(s4 =~= s3 + row_if(
            cf.financial_fixed_assets != 0,
            stmt_row_v(
                "  Finansiella anläggningstillgångar"@,
                cf.financial_fixed_assets,
                pick_prev(p, |f: BalanceFigures| f.financial_fixed_assets),
                false,
            ),
        ));
        assert(rows_view(rows@) =~= base + fixed_rows_v(cf, p));
    }
}

/// Appends the current-asset rows and the total.
fn push_current_rows(rows: &mut Vec<Vec<Para>>, c: &BalanceSheetData, has: bool, q: &BalanceSheetData)
    ensures
        rows_view(final(rows)@) == rows_view(old(rows)@) + current_rows_v(c@.1, prev_balance(has, *q)),
{
    let ghost base = rows_view(old(rows)@);
    let a = &c.assets;
    let qa = &q.assets;
    push_row(rows, subhead_row("Omsättningstillgångar"));
    let ghost s5 = rows_view(rows@);
    push_stmt_if(rows, !a.inventory.is_zero(), "  Varulager", a.inventory, has, qa.inventory);
    let ghost s6 = rows_view(rows@);
    push_stmt(rows, "  Kortfristiga fordringar", a.current_receivables, has, qa.current_receivables, false, false);
    push_stmt(rows, "  Kassa och bank", a.cash_and_bank, has, qa.cash_and_bank, false, false);
    push_stmt(rows, "Summa omsättningstillgångar", a.total_current_assets, has, qa.total_current_assets, false, true);
    push_stmt(rows, "Summa tillgångar", c.total_assets, has, q.total_assets, false, true);
    proof {
        let p = prev_balance(has, *q);
        let cf = c@.1;
        assert(s6 =~= s5 + row_if(
            cf.inventory != 0,
            stmt_row_v("  Varulager"@, cf.inventory, pick_prev(p, |f: BalanceFigures| f.inventory), false),
        ));
        assert(rows_view(rows@) =~= base + current_rows_v(cf, p));
    }
}

/// The asset table of the balance sheet.
fn asset_table(c: &BalanceSheetData, has: bool, q: &BalanceSheetData, label: &str) -> (b: PdfBlock)
    ensures
        b@ == BlockView::Table(
            seq![8usize, 3usize, 3usize],
            seq![header_row_v(c@.0, label@)] + asset_rows_v(c@.1, prev_balance(has, *q)),
        ),
{
    let mut rows: Vec<Vec<Para>> = Vec::new();
    push_row(&mut rows, header_row(c.fiscal_year.as_str(), label));
    let ghost h = rows_view(rows@);
    push_fixed_rows(&mut rows, c, has, q);
    push_current_rows(&mut rows, c, has, q);
    assert(h =~= seq![header_row_v(c@.0, label@)]);
    assert(rows_view(rows@) =~= seq![header_row_v(c@.0, label@)] + asset_rows_v(c@.1, prev_balance(has, *q)));
    PdfBlock::Table(PdfTable { widths: statement_widths(), rows })
}

/// The equity and liability table of the balance sheet.
fn equity_table(c: &BalanceSheetData, has: bool, q: &BalanceSheetData, label: &str) -> (b: PdfBlock)
    ensures
        b@ == BlockView::Table(
            seq![8usize, 3usize, 3usize],
            seq![header_row_v(c@.0, label@)] + equity_rows_v(c@.1, prev_balance(has, *q)),
        ),
{
    let mut rows: Vec<Vec<Para>> = Vec::new();
    push_row(&mut rows, header_row(c.fiscal_year.as_str(), label));
    let ghost h = rows_view(rows@);
    push_equity_rows(&mut rows, c, has, q);
    assert(h =~= seq![header_row_v(c@.0, label@)]);
    PdfBlock::Table(PdfTable { widths: statement_widths(), rows })
}

/// Appends the equity and liability rows.
fn push_equity_rows(rows: &mut Vec<Vec<Para>>, c: &BalanceSheetData, has: bool, q: &BalanceSheetData)
    ensures
        rows_view(final(rows)@) == rows_view(old(rows)@) + equity_rows_v(c@.1, prev_balance(has, *q)),
{
    let ghost base = rows_view(old(rows)@);
    let e = &c.equity_and_liabilities;
    let qe = &q.equity_and_liabilities;
    push_row(rows, subhead_row("Eget kapital"));
    push_stmt(rows, "  Bundet eget kapital", e.restricted_equity, has, qe.restricted_equity, false, false);
    push_stmt(rows, "  Fritt eget kapital", e.unrestricted_equity, has, qe.unrestricted_equity, false, false);
    push_stmt(rows, "Summa eget kapital", e.total_equity, has, qe.total_equity, false, true);
    let ghost s1 = rows_view(rows@);
    push_stmt_if(rows, !e.untaxed_reserves.is_zero(), "Obeskattade reserver", e.untaxed_reserves, has, qe.untaxed_reserves);
    let ghost s2 = rows_view(rows@);
    push_stmt_if(
        rows,
        !e.long_term_liabilities.is_zero(),
        "Långfristiga skulder",
        e.long_term_liabilities,
        has,
        qe.long_term_liabilities,
    );
    let ghost s3 = rows_view(rows@);
    push_stmt(rows, "Kortfristiga skulder", e.current_liabilities, has, qe.current_liabilities, false, false);
    push_stmt(
        rows,
        "Summa eget kapital och skulder",
        c.total_equity_and_liabilities,
        has,
        q.total_equity_and_liabilities,
        false,
        true,
    );
    proof {
        let p = prev_balance(has, *q);
        let cf = c@.1;
        assert(s2 =~= s1 + row_if(
            cf.untaxed_reserves != 0,
            stmt_row_v(
                "Obeskattade reserver"@,
                cf.untaxed_reserves,
                pick_prev(p, |f: BalanceFigures| f.untaxed_reserves),
                false,
            ),
        ));
        assert(s3 =~= s2 + row_if(
            cf.long_term_liabilities != 0,
            stmt_row_v(
                "Långfristiga skulder"@,
                cf.long_term_liabilities,
                pick_prev(p, |f: BalanceFigures| f.long_term_liabilities),
                false,
            ),
        ));
        assert(rows_view(rows@) =~= base + equity_rows_v(cf, p));
    }
}

/// Appends the balance sheet page.
fn push_balance(out: &mut Vec<PdfBlock>, r: &AnnualReport)
    ensures
        blocks_view(final(out)@) == blocks_view(old(out)@) + balance_v(*r),
{
    let ghost base = blocks_view(old(out)@);
    push_block(out, PdfBlock::NewPage);
    push_block(out, PdfBlock::Text(para_of("Balansräkning", heading_style(H1_SIZE), Align::Left)));
    push_block(out, PdfBlock::Gap(2));
    push_block(out, PdfBlock::Text(para_of("Belopp i kronor", small_italic_style(), Align::Left)));
    push_block(out, PdfBlock::Gap(5));
    let c = &r.balance_sheet.current;
    let has = r.balance_sheet.previous.is_some();
    let (q, label) = match &r.balance_sheet.previous {
        Some(q) => (q, q.fiscal_year.as_str()),
        None => (c, "—"),
    };
    let ghost prev = balance_prev(r.balance_sheet.previous);
    proof {
        assert(label@ == prev_label(prev));
        assert(figures_of(prev) == prev_balance(has, *q));
    }
    push_block(out, PdfBlock::Text(para_of("Tillgångar", heading_style(H2_SIZE), Align::Left)));
    push_block(out, PdfBlock::Gap(3));
    push_block(out, asset_table(c, has, q, label));
    push_block(out, PdfBlock::Gap(10));
    push_block(out, PdfBlock::Text(para_of("Eget kapital och skulder", heading_style(H2_SIZE), Align::Left)));
    push_block(out, PdfBlock::Gap(3));
    push_block(out, equity_table(c, has, q, label));
    assert(blocks_view(out@) =~= base + balance_v(*r));
}

/// The lines of a note's text: an empty line as a small gap, any other line
/// as a paragraph.
pub open spec fn note_lines_v(ls: Seq<Seq<char>>) -> Seq<BlockView>
    decreases ls.len(),
{
    if ls.len() == 0 {
        Seq::empty()
    } else {
        note_lines_v(ls.drop_last()) + if ls.last().len() == 0 {
            seq![BlockView::Gap(3)]
        } else {
            seq![text_v(ls.last(), plain(), Align::Left)]
        }
    }
}

/// One note: "Not <number>  <title>", its lines, and a gap.
pub open spec fn note_v(n: (i32, Seq<char>, Seq<char>)) -> Seq<BlockView> {
    seq![text_v("Not "@ + int_text(n.0 as int) + "  "@ + n.1, heading(H3_SIZE), Align::Left), BlockView::Gap(3)]
        + note_lines_v(text_lines(n.2)) + seq![BlockView::Gap(8)]
}

/// The notes, in order.
pub open spec fn notes_v(ns: Seq<(i32, Seq<char>, Seq<char>)>) -> Seq<BlockView>
    decreases ns.len(),
{
    if ns.len() == 0 {
        Seq::empty()
    } else {
        notes_v(ns.drop_last()) + note_v(ns.last())
    }
}

/// The notes page.
pub open spec fn notes_page_v(r: AnnualReport) -> Seq<BlockView> {
    seq![BlockView::NewPage, text_v("Noter"@, heading(H1_SIZE), Align::Left), BlockView::Gap(8)] + notes_v(
        r.notes.items@.map_values(|x: Note| x@),
    )
}

/// Appends one note.
fn push_note(out: &mut Vec<PdfBlock>, n: &Note)
    ensures
        blocks_view(final(out)@) == blocks_view(old(out)@) + note_v(n@),
{
    let ghost base = blocks_view(old(out)@);
    let mut head = to_string("Not ");
    push_int(&mut head, n.number as i64);
    push_str(&mut head, "  ");
    push_str(&mut head, n.title.as_str());
    push_block(out, PdfBlock::Text(para(head, heading_style(H3_SIZE), Align::Left)));
    push_block(out, PdfBlock::Gap(3));
    let ghost mid = blocks_view(out@);
    let v = chars_of(n.content.as_str());
    let rs = line_ranges(v.as_slice());
    let mut i: usize = 0;
    while i < rs.len()
        invariant
            i <= rs@.len(),
            ranges_within(rs@, 0, v@.len() as int),
            ranges_text(v@, rs@) == text_lines(v@),
            blocks_view(out@) == mid + note_lines_v(ranges_text(v@, rs@).take(i as int)),
        decreases rs.len() - i,
    {
        let (a, b) = rs[i];
        assert(ranges_text(v@, rs@)[i as int] == v@.subrange(a as int, b as int));
        let ghost ls = ranges_text(v@, rs@).take(i + 1);
        assert(ls.drop_last() =~= ranges_text(v@, rs@).take(i as int));
        if a == b {
            push_block(out, PdfBlock::Gap(3));
        } else {
            push_block(out, PdfBlock::Text(para(string_of(v.as_slice(), a, b), plain_style(), Align::Left)));
        }
        assert(blocks_view(out@) =~= mid + note_lines_v(ls));
        i += 1;
    }
    assert(ranges_text(v@, rs@).take(rs@.len() as int) =~= ranges_text(v@, rs@));
    push_block(out, PdfBlock::Gap(8));
    assert(blocks_view(out@) =~= base + note_v(n@));
}

/// Appends the notes page.
fn push_notes(out: &mut Vec<PdfBlock>, r: &AnnualReport)
    ensures
        blocks_view(final(out)@) == blocks_view(old(out)@) + notes_page_v(*r),
{
    let ghost base = blocks_view(old(out)@);
    push_block(out, PdfBlock::NewPage);
    push_block(out, PdfBlock::Text(para_of("Noter", heading_style(H1_SIZE), Align::Left)));
    push_block(out, PdfBlock::Gap(8));
    let ghost mid = blocks_view(out@);
    let items = &r.notes.items;
    let ghost ns = items@.map_values(|x: Note| x@);
    let mut i: usize = 0;
    while i < items.len()
        invariant
            i <= items@.len(),
            ns == items@.map_values(|x: Note| x@),
            blocks_view(out@) == mid + notes_v(ns.take(i as int)),
        decreases items.len() - i,
    {
        push_note(out, &items[i]);
        assert(ns.take(i + 1).drop_last() =~= ns.take(i as int));
        assert(blocks_view(out@) =~= mid + notes_v(ns.take(i + 1)));
        i += 1;
    }
    assert(ns.take(items@.len() as int) =~= ns);
    assert(blocks_view(out@) =~= base + notes_page_v(*r));
}

/// The signature page.
pub open spec fn signatures_v(name: Seq<char>) -> Seq<BlockView> {
    let line = "_________________________________"@;
    seq![
        BlockView::NewPage,
        text_v("Underskrifter"@, heading(H1_SIZE), Align::Left),
        BlockView::Gap(15),
        text_v(name + ", den _______________"@, plain(), Align::Left),
        BlockView::Gap(25),
        text_v(line, bold(), Align::Left),
        text_v("Styrelseledamot"@, plain(), Align::Left),
        BlockView::Gap(20),
        text_v(line, bold(), Align::Left),
        text_v("Styrelseledamot"@, plain(), Align::Left),
        BlockView::Gap(25),
        text_v("Vår revisionsberättelse har lämnats denna dag."@, small_italic(), Align::Left),
    ]
}

/// Appends the signature page.
fn push_signatures(out: &mut Vec<PdfBlock>, name: &str)
    ensures
        blocks_view(final(out)@) == blocks_view(old(out)@) + signatures_v(name@),
{
    let ghost base = blocks_view(old(out)@);
    let bold_style = TextStyle { bold: true, italic: false, size: BODY_SIZE };
    push_block(out, PdfBlock::NewPage);
    push_block(out, PdfBlock::Text(para_of("Underskrifter", heading_style(H1_SIZE), Align::Left)));
    push_block(out, PdfBlock::Gap(15));
    let mut place = to_string(name);
    push_str(&mut place, ", den _______________");
    push_block(out, PdfBlock::Text(para(place, plain_style(), Align::Left)));
    push_block(out, PdfBlock::Gap(25));
    push_block(out, PdfBlock::Text(para_of("_________________________________", bold_style, Align::Left)));
    push_block(out, PdfBlock::Text(para_of("Styrelseledamot", plain_style(), Align::Left)));
    push_block(out, PdfBlock::Gap(20));
    push_block(out, PdfBlock::Text(para_of("_________________________________", bold_style, Align::Left)));
    push_block(out, PdfBlock::Text(para_of("Styrelseledamot", plain_style(), Align::Left)));
    push_block(out, PdfBlock::Gap(25));
    push_block(
        out,
        PdfBlock::Text(para_of("Vår revisionsberättelse har lämnats denna dag.", small_italic_style(), Align::Left)),
    );
    assert(blocks_view(out@) =~= base + signatures_v(name@));
}

/// The whole document: title page, directors' report, income statement,
/// balance sheet, notes and signatures, each from a new page.
pub open spec fn document_v(r: AnnualReport) -> Seq<BlockView> {
    title_page_v(r) + directors_v(r) + income_v(r) + balance_v(r) + notes_page_v(r) + signatures_v(r.company.name@)
}

/// A document to render: its title, the text of its page headers, and its blocks.
pub struct PdfPlan {
    pub title: String,
    pub header: String,
    pub blocks: Vec<PdfBlock>,
}

/// The title of the document: "Årsredovisning <company> <end date>".
pub open spec fn document_title(r: AnnualReport) -> Seq<char> {
    "Årsredovisning "@ + r.company.name@ + " "@ + r.fiscal_year.end_date@
}

/// The header of every page but the first: company and organisation number.
pub open spec fn header_text(r: AnnualReport) -> Seq<char> {
    r.company.name@ + "  ·  "@ + org_shown(r.company.org_number@)
}

/// The layout of the annual report as a PDF document.
pub fn pdf_plan(report: &AnnualReport) -> (p: PdfPlan)
    requires
        org_cut(report.company.org_number@) is Some,
    ensures
        p.title@ == document_title(*report),
        p.header@ == header_text(*report),
        blocks_view(p.blocks@) == document_v(*report),
{
    let mut title = to_string("Årsredovisning ");
    push_str(&mut title, report.company.name.as_str());
    push_str(&mut title, " ");
    push_str(&mut title, report.fiscal_year.end_date.as_str());
    let mut header = to_string(report.company.name.as_str());
    push_str(&mut header, "  ·  ");
    let org = format_org_number(report.company.org_number.as_str());
    push_str(&mut header, org.as_str());
    let mut blocks: Vec<PdfBlock> = Vec::new();
    let ghost b0 = blocks_view(blocks@);
    push_title_page(&mut blocks, report);
    push_directors(&mut blocks, report);
    push_income(&mut blocks, report);
    push_balance(&mut blocks, report);
    push_notes(&mut blocks, report);
    push_signatures(&mut blocks, report.company.name.as_str());
    assert(b0 =~= Seq::<BlockView>::empty());
    assert(blocks_view(blocks@) =~= document_v(*report));
    PdfPlan { title, header, blocks }
}

/// The header of a page: nothing on the first page; on the others the
/// header text on the left, "Sida <page>" on the right, and a gap.
pub open spec fn page_header_v(header: Seq<char>, page: nat) -> Seq<BlockView> {
    if page > 1 {
        seq![
            text_v(header, small(), Align::Left),
            text_v("Sida "@ + int_text(page as int), small(), Align::Right),
            BlockView::Gap(10),
        ]
    } else {
        Seq::empty()
    }
}

/// The header of a page.
pub fn page_header(header: &str, page: u32) -> (bs: Vec<PdfBlock>)
    ensures
        blocks_view(bs@) == page_header_v(header@, page as nat),
{
    let mut bs: Vec<PdfBlock> = Vec::new();
    if page > 1 {
        let st = TextStyle { bold: false, italic: false, size: SMALL_SIZE };
        push_block(&mut bs, PdfBlock::Text(para_of(header, st, Align::Left)));
        let mut sida = to_string("Sida ");
        push_int(&mut sida, page as i64);
        push_block(&mut bs, PdfBlock::Text(para(sida, st, Align::Right)));
        push_block(&mut bs, PdfBlock::Gap(10));
        assert(blocks_view(bs@) =~= page_header_v(header@, page as nat));
    } else {
        assert(blocks_view(bs@) =~= page_header_v(header@, page as nat));
    }
    bs
}

} // verus!
