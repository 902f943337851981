//! The lexical layer of SIE files: lines, white-space separated tokens, quoted
//! fields and dates.
use vstd::prelude::*;
use crate::text::{is_whitespace, is_ws, push_char, push_chars, string_of, trim_bounds, trim_seq};

verus! {

/// Index of the first white-space character of `s` (its length when there is none).
pub open spec fn ws_index(s: Seq<char>) -> int
    decreases s.len(),
{
    if s.len() == 0 {
        0
    } else if is_ws(s[0]) {
        0
    } else {
        1 + ws_index(s.drop_first())
    }
}

/// Index of the first occurrence of `c` in `s` (its length when there is none).
pub open spec fn char_index(s: Seq<char>, c: char) -> int
    decreases s.len(),
{
    if s.len() == 0 {
        0
    } else if s[0] == c {
        0
    } else {
        1 + char_index(s.drop_first(), c)
    }
}

/// Index of the first character of `s` that is white space or `{` (its length when there is none).
pub open spec fn delim_index(s: Seq<char>) -> int
    decreases s.len(),
{
    if s.len() == 0 {
        0
    } else if is_ws(s[0]) || s[0] == '{' {
        0
    } else {
        1 + delim_index(s.drop_first())
    }
}

pub proof fn lemma_ws_index(s: Seq<char>)
    ensures
        0 <= ws_index(s) <= s.len(),
        s.len() > 0 && !is_ws(s[0]) ==> ws_index(s) >= 1,
        ws_index(s) < s.len() ==> is_ws(s[ws_index(s)]),
    decreases s.len(),
{
    if s.len() > 0 && !is_ws(s[0]) {
        lemma_ws_index(s.drop_first());
    }
}

pub proof fn lemma_char_index(s: Seq<char>, c: char)
    ensures
        0 <= char_index(s, c) <= s.len(),
        char_index(s, c) < s.len() ==> s[char_index(s, c)] == c,
    decreases s.len(),
{
    if s.len() > 0 && s[0] != c {
        lemma_char_index(s.drop_first(), c);
    }
}

pub proof fn lemma_delim_index(s: Seq<char>)
    ensures
        0 <= delim_index(s) <= s.len(),
    decreases s.len(),
{
    if s.len() > 0 && !(is_ws(s[0]) || s[0] == '{') {
        lemma_delim_index(s.drop_first());
    }
}

/// The white-space separated tokens of `s` (`str::split_whitespace`).
pub open spec fn ws_tokens(s: Seq<char>) -> Seq<Seq<char>>
    decreases s.len(),
{
    if s.len() == 0 {
        Seq::empty()
    } else if is_ws(s[0]) {
        ws_tokens(s.drop_first())
    } else {
        let k = ws_index(s);
        proof {
            lemma_ws_index(s);
        }
        seq![s.take(k)] + ws_tokens(s.skip(k))
    }
}

/// The fields of a SIE record: a field in double quotes runs to the next
/// quote (or to the end), any other field runs to the next white space.
pub open spec fn quoted_fields(s: Seq<char>) -> Seq<Seq<char>>
    decreases s.len(),
{
    if s.len() == 0 {
        Seq::empty()
    } else if s[0] == '"' {
        let rest = s.drop_first();
        let k = char_index(rest, '"');
        proof {
            lemma_char_index(rest, '"');
        }
        if k < rest.len() {
            seq![rest.take(k)] + quoted_fields(rest.skip(k + 1))
        } else {
            seq![rest]
        }
    } else if is_ws(s[0]) {
        quoted_fields(s.drop_first())
    } else {
        let k = ws_index(s);
        proof {
            lemma_ws_index(s);
        }
        seq![s.take(k)] + quoted_fields(s.skip(k))
    }
}

/// A line without the `\r` of a `\r\n` ending.
pub open spec fn strip_cr(t: Seq<char>) -> Seq<char> {
    if t.len() > 0 && t.last() == '\r' {
        t.drop_last()
    } else {
        t
    }
}

/// The lines of a text (`str::lines`): split at `\n`, a `\r` before the `\n`
/// dropped, and no empty last line after a final line ending.
pub open spec fn text_lines(s: Seq<char>) -> Seq<Seq<char>>
    decreases s.len(),
{
    if s.len() == 0 {
        Seq::empty()
    } else {
        let k = char_index(s, '\n');
        proof {
            lemma_char_index(s, '\n');
        }
        if k < s.len() {
            seq![strip_cr(s.take(k))] + text_lines(s.skip(k + 1))
        } else {
            seq![s]
        }
    }
}

/// The texts that a list of ranges picks out of `v`.
pub open spec fn ranges_text(v: Seq<char>, rs: Seq<(usize, usize)>) -> Seq<Seq<char>> {
    rs.map_values(|r: (usize, usize)| v.subrange(r.0 as int, r.1 as int))
}

/// Every range lies within `v[from..to]`.
pub open spec fn ranges_within(rs: Seq<(usize, usize)>, from: int, to: int) -> bool {
    forall|i: int| 0 <= i < rs.len() ==> from <= (#[trigger] rs[i]).0 <= rs[i].1 <= to
}

/// First white space in `v[from..to]`.
pub fn find_ws(v: &[char], from: usize, to: usize) -> (k: usize)
    requires
        from <= to <= v@.len(),
    ensures
        from <= k <= to,
        k - from == ws_index(v@.subrange(from as int, to as int)),
{
    let mut i = from;
    while i < to && !is_whitespace(v[i])
        invariant
            from <= i <= to <= v@.len(),
            ws_index(v@.subrange(from as int, to as int)) == (i - from) + ws_index(
                v@.subrange(i as int, to as int),
            ),
        decreases to - i,
    {
        assert(v@.subrange(i as int, to as int).drop_first() =~= v@.subrange(i + 1, to as int));
        i += 1;
    }
    i
}

/// First occurrence of `c` in `v[from..to]`.
pub fn find_char(v: &[char], from: usize, to: usize, c: char) -> (k: usize)
    requires
        from <= to <= v@.len(),
    ensures
        from <= k <= to,
        k - from == char_index(v@.subrange(from as int, to as int), c),
{
    let mut i = from;
    while i < to && v[i] != c
        invariant
            from <= i <= to <= v@.len(),
            char_index(v@.subrange(from as int, to as int), c) == (i - from) + char_index(
                v@.subrange(i as int, to as int),
                c,
            ),
        decreases to - i,
    {
        assert(v@.subrange(i as int, to as int).drop_first() =~= v@.subrange(i + 1, to as int));
        i += 1;
    }
    i
}

/// First white space or `{` in `v[from..to]`.
pub fn find_delim(v: &[char], from: usize, to: usize) -> (k: usize)
    requires
        from <= to <= v@.len(),
    ensures
        from <= k <= to,
        k - from == delim_index(v@.subrange(from as int, to as int)),
{
    let mut i = from;
    while i < to && !(is_whitespace(v[i]) || v[i] == '{')
        invariant
            from <= i <= to <= v@.len(),
            delim_index(v@.subrange(from as int, to as int)) == (i - from) + delim_index(
                v@.subrange(i as int, to as int),
            ),
        decreases to - i,
    {
        assert(v@.subrange(i as int, to as int).drop_first() =~= v@.subrange(i + 1, to as int));
        i += 1;
    }
    i
}

proof fn lemma_ranges_push(v: Seq<char>, rs: Seq<(usize, usize)>, r: (usize, usize))
    ensures
        ranges_text(v, rs.push(r)) == ranges_text(v, rs).push(v.subrange(r.0 as int, r.1 as int)),
{
    assert(ranges_text(v, rs.push(r)) =~= ranges_text(v, rs).push(v.subrange(r.0 as int, r.1 as int)));
}

/// The white-space separated tokens of `v[from..to]`, as ranges.
pub fn tokens(v: &[char], from: usize, to: usize) -> (r: Vec<(usize, usize)>)
    requires
        from <= to <= v@.len(),
    ensures
        ranges_within(r@, from as int, to as int),
        ranges_text(v@, r@) == ws_tokens(v@.subrange(from as int, to as int)),
{
    let mut out: Vec<(usize, usize)> = Vec::new();
    let mut i = from;
    while i < to
        invariant
            from <= i <= to <= v@.len(),
            ranges_within(out@, from as int, to as int),
            ws_tokens(v@.subrange(from as int, to as int)) == ranges_text(v@, out@) + ws_tokens(
                v@.subrange(i as int, to as int),
            ),
        decreases to - i,
    {
        let ghost s = v@.subrange(i as int, to as int);
        if is_whitespace(v[i]) {
            assert(s.drop_first() =~= v@.subrange(i + 1, to as int));
            i += 1;
        } else {
            let k = find_ws(v, i, to);
            proof {
                lemma_ws_index(s);
                assert(s.take(k - i) =~= v@.subrange(i as int, k as int));
                assert(s.skip(k - i) =~= v@.subrange(k as int, to as int));
                lemma_ranges_push(v@, out@, (i, k));
                assert(ranges_text(v@, out@) + ws_tokens(s) =~= ranges_text(v@, out@).push(
                    v@.subrange(i as int, k as int),
                ) + ws_tokens(v@.subrange(k as int, to as int)));
            }
            out.push((i, k));
            i = k;
        }
    }
    assert(ranges_text(v@, out@) + ws_tokens(v@.subrange(to as int, to as int)) =~= ranges_text(
        v@,
        out@,
    ));
    out
}

/// The fields of `v[from..to]` (see `quoted_fields`), as ranges.
pub fn field_ranges(v: &[char], from: usize, to: usize) -> (r: Vec<(usize, usize)>)
    requires
        from <= to <= v@.len(),
    ensures
        ranges_within(r@, from as int, to as int),
        ranges_text(v@, r@) == quoted_fields(v@.subrange(from as int, to as int)),
{
    let mut out: Vec<(usize, usize)> = Vec::new();
    let mut i = from;
    while i < to
        invariant
            from <= i <= to <= v@.len(),
            ranges_within(out@, from as int, to as int),
            quoted_fields(v@.subrange(from as int, to as int)) == ranges_text(v@, out@)
                + quoted_fields(v@.subrange(i as int, to as int)),
        decreases to - i,
    {
        let ghost s = v@.subrange(i as int, to as int);
        if v[i] == '"' {
            let k = find_char(v, i + 1, to, '"');
            let ghost rest = s.drop_first();
            proof {
                assert(rest =~= v@.subrange(i + 1, to as int));
                lemma_char_index(rest, '"');
                assert(rest.take(k - i - 1) =~= v@.subrange(i + 1, k as int));
                lemma_ranges_push(v@, out@, ((i + 1) as usize, k));
            }
            out.push((i + 1, k));
            if k < to {
                proof {
                    assert(rest.skip(k - i - 1 + 1) =~= v@.subrange(k + 1, to as int));
                    assert(ranges_text(v@, out@.drop_last()) + quoted_fields(s) =~= ranges_text(
                        v@,
                        out@,
                    ) + quoted_fields(v@.subrange(k + 1, to as int)));
                }
                i = k + 1;
            } else {
                proof {
                    assert(rest =~= v@.subrange(i + 1, k as int));
                    assert(ranges_text(v@, out@.drop_last()) + quoted_fields(s) =~= ranges_text(
                        v@,
                        out@,
                    ) + quoted_fields(v@.subrange(to as int, to as int)));
                }
                i = to;
            }
        } else if is_whitespace(v[i]) {
            assert(s.drop_first() =~= v@.subrange(i + 1, to as int));
            i += 1;
        } else {
            let k = find_ws(v, i, to);
            proof {
                lemma_ws_index(s);
                assert(s.take(k - i) =~= v@.subrange(i as int, k as int));
                assert(s.skip(k - i) =~= v@.subrange(k as int, to as int));
                lemma_ranges_push(v@, out@, (i, k));
                assert(ranges_text(v@, out@) + quoted_fields(s) =~= ranges_text(v@, out@).push(
                    v@.subrange(i as int, k as int),
                ) + quoted_fields(v@.subrange(k as int, to as int)));
            }
            out.push((i, k));
            i = k;
        }
    }
    assert(ranges_text(v@, out@) + quoted_fields(v@.subrange(to as int, to as int)) =~= ranges_text(
        v@,
        out@,
    ));
    out
}

/// The lines of `v` (see `text_lines`), as ranges.
pub fn line_ranges(v: &[char]) -> (r: Vec<(usize, usize)>)
    ensures
        ranges_within(r@, 0, v@.len() as int),
        ranges_text(v@, r@) == text_lines(v@),
{
    let mut out: Vec<(usize, usize)> = Vec::new();
    let mut i: usize = 0;
    let n = v.len();
    assert(v@.subrange(0, n as int) =~= v@);
    while i < n
        invariant
            i <= n == v@.len(),
            ranges_within(out@, 0, n as int),
            text_lines(v@) == ranges_text(v@, out@) + text_lines(v@.subrange(i as int, n as int)),
        decreases n - i,
    {
        let ghost s = v@.subrange(i as int, n as int);
        let k = find_char(v, i, n, '\n');
        proof {
            lemma_char_index(s, '\n');
        }
        if k < n {
            let e = if k > i && v[k - 1] == '\r' {
                k - 1
            } else {
                k
            };
            proof {
                let t = s.take(k - i);
                assert(t =~= v@.subrange(i as int, k as int));
                if k > i && v@[k - 1] == '\r' {
                    assert(t.drop_last() =~= v@.subrange(i as int, e as int));
                }
                assert(strip_cr(t) == v@.subrange(i as int, e as int));
                assert(s.skip(k - i + 1) =~= v@.subrange(k + 1, n as int));
                lemma_ranges_push(v@, out@, (i, e));
                assert(ranges_text(v@, out@) + text_lines(s) =~= ranges_text(v@, out@).push(
                    v@.subrange(i as int, e as int),
                ) + text_lines(v@.subrange(k + 1, n as int)));
            }
            out.push((i, e));
            i = k + 1;
        } else {
            proof {
                lemma_ranges_push(v@, out@, (i, n));
                assert(ranges_text(v@, out@) + text_lines(s) =~= ranges_text(v@, out@).push(s)
                    + text_lines(v@.subrange(n as int, n as int)));
            }
            out.push((i, n));
            i = n;
        }
    }
    assert(ranges_text(v@, out@) + text_lines(v@.subrange(n as int, n as int)) =~= ranges_text(
        v@,
        out@,
    ));
    out
}

/// Number of bytes in the UTF-8 encoding of `c`.
pub open spec fn utf8_char_len(c: char) -> nat {
    if (c as u32) < 0x80 {
        1
    } else if (c as u32) < 0x800 {
        2
    } else if (c as u32) < 0x10000 {
        3
    } else {
        4
    }
}

/// Number of bytes in the UTF-8 encoding of `s`.
pub open spec fn utf8_len(s: Seq<char>) -> nat
    decreases s.len(),
{
    if s.len() == 0 {
        0
    } else {
        utf8_len(s.drop_last()) + utf8_char_len(s.last())
    }
}

/// The number of characters of `s` whose encoding takes exactly `b` bytes,
/// when byte offset `b` falls between two characters.
pub open spec fn byte_cut(s: Seq<char>, b: nat) -> Option<int>
    decreases s.len(),
{
    if utf8_len(s) == b {
        Some(s.len() as int)
    } else if s.len() == 0 {
        None
    } else {
        byte_cut(s.drop_last(), b)
    }
}

/// Format a SIE date (YYYYMMDD) to ISO (YYYY-MM-DD): a trimmed text of eight
/// bytes is cut after its fourth and sixth byte; any other text is kept as it
/// is. `None` where a cut would fall inside a character (the slicing panics).
pub open spec fn sie_date_text(date: Seq<char>) -> Option<Seq<char>> {
    let d = trim_seq(date);
    if utf8_len(d) == 8 {
        match (byte_cut(d, 4), byte_cut(d, 6)) {
            (Some(a), Some(b)) => Some(d.take(a) + seq!['-'] + d.subrange(a, b) + seq!['-'] + d.skip(b)),
            _ => None,
        }
    } else {
        Some(d)
    }
}

pub proof fn lemma_utf8_len_prefix(s: Seq<char>, k: int)
    requires
        0 <= k <= s.len(),
    ensures
        utf8_len(s.take(k)) <= utf8_len(s),
    decreases s.len() - k,
{
    if k < s.len() {
        lemma_utf8_len_prefix(s, k + 1);
        assert(s.take(k + 1).drop_last() =~= s.take(k));
    } else {
        assert(s.take(k) =~= s);
    }
}

pub proof fn lemma_byte_cut_bounds(s: Seq<char>, b: nat)
    ensures
        byte_cut(s, b) matches Some(k) ==> 0 <= k <= s.len() && utf8_len(s.take(k)) == b,
    decreases s.len(),
{
    if utf8_len(s) != b && s.len() > 0 {
        lemma_byte_cut_bounds(s.drop_last(), b);
        if let Some(k) = byte_cut(s.drop_last(), b) {
            assert(s.drop_last().take(k) =~= s.take(k));
        }
    } else if utf8_len(s) == b {
        assert(s.take(s.len() as int) =~= s);
    }
}

/// Byte length of `c` in UTF-8.
fn char_utf8_len(c: char) -> (n: u32)
    ensures
        n == utf8_char_len(c),
{
    let u = c as u32;
    if u < 0x80 {
        1
    } else if u < 0x800 {
        2
    } else if u < 0x10000 {
        3
    } else {
        4
    }
}

/// Format a SIE date of `v[from..to]`; `None` where the original slicing would panic.
pub fn sie_date(v: &[char], from: usize, to: usize) -> (r: Option<String>)
    requires
        from <= to <= v@.len(),
    ensures
        match r {
            Some(s) => sie_date_text(v@.subrange(from as int, to as int)) == Some(s@),
            None => sie_date_text(v@.subrange(from as int, to as int)) is None,
        },
{
    let (a, b) = trim_bounds(v, from, to);
    let ghost d = v@.subrange(a as int, b as int);
    let mut count: u32 = 0;
    let mut cut4: Option<usize> = None;
    let mut cut6: Option<usize> = None;
    let mut j = a;
    assert(d.take(0) =~= Seq::<char>::empty());
    while j < b && count <= 8
        invariant
            a <= j <= b <= v@.len(),
            d == v@.subrange(a as int, b as int),
            count as nat == utf8_len(d.take(j - a)),
            count <= 12,
            cut4 == (match byte_cut(d.take(j - a), 4) { Some(k) => Some((k + a) as usize), None => None::<usize> }),
            cut6 == (match byte_cut(d.take(j - a), 6) { Some(k) => Some((k + a) as usize), None => None::<usize> }),
        decreases b - j,
    {
        let n = char_utf8_len(v[j]);
        proof {
            assert(d.take(j + 1 - a).drop_last() =~= d.take(j - a));
            assert(d.take(j + 1 - a).last() == v@[j as int]);
        }
        count = count + n;
        j += 1;
        if count == 4 {
            cut4 = Some(j);
        }
        if count == 6 {
            cut6 = Some(j);
        }
    }
    if count == 8 && j == b {
        assert(d.take(b - a) =~= d);
        match (cut4, cut6) {
            (Some(c4), Some(c6)) => {
                proof {
                    lemma_byte_cut_bounds(d, 4);
                    lemma_byte_cut_bounds(d, 6);
                    lemma_cuts_ordered(d);
                }
                let mut out = String::new();
                push_chars(&mut out, v, a, c4);
                push_char(&mut out, '-');
                push_chars(&mut out, v, c4, c6);
                push_char(&mut out, '-');
                push_chars(&mut out, v, c6, b);
                proof {
                    let k4 = c4 - a;
                    let k6 = c6 - a;
                    assert(d.take(k4) =~= v@.subrange(a as int, c4 as int));
                    assert(d.subrange(k4, k6) =~= v@.subrange(c4 as int, c6 as int));
                    assert(d.skip(k6) =~= v@.subrange(c6 as int, b as int));
                    assert(out@ =~= d.take(k4) + seq!['-'] + d.subrange(k4, k6) + seq!['-'] + d.skip(k6));
                }
                Some(out)
            },
            _ => None,
        }
    } else {
        proof {
            if j < b {
                lemma_utf8_len_prefix(d, j - a);
            } else {
                assert(d.take(b - a) =~= d);
            }
        }
        Some(string_of(v, a, b))
    }
}

/// When both cuts exist, the cut at byte 4 comes no later than the cut at byte 6.
pub proof fn lemma_cuts_ordered(s: Seq<char>)
    ensures
        (byte_cut(s, 4), byte_cut(s, 6)) matches (Some(x), Some(y)) ==> x <= y,
    decreases s.len(),
{
    if s.len() > 0 {
        lemma_cuts_ordered(s.drop_last());
        lemma_byte_cut_bounds(s.drop_last(), 4);
        lemma_byte_cut_bounds(s.drop_last(), 6);
        lemma_byte_cut_bounds(s, 4);
        lemma_byte_cut_bounds(s, 6);
        if utf8_len(s) == 4 {
            if let Some(y) = byte_cut(s, 6) {
                lemma_utf8_len_prefix(s, y);
            }
        }
    }
}

/// The text with every `-` removed.
pub open spec fn without_dashes(s: Seq<char>) -> Seq<char> {
    s.filter(|c: char| c != '-')
}

/// Parse SIE date back from ISO or YYYYMMDD format, returning YYYYMMDD
/// (every `-` removed).
pub open spec fn sie_compact_date(s: Seq<char>) -> Seq<char> {
    without_dashes(s)
}

/// Appends `s` with every `-` removed.
pub fn push_without_dashes(out: &mut String, s: &str)
    ensures
        final(out)@ == old(out)@ + without_dashes(s@),
{
    let cs = crate::text::chars_of(s);
    let ghost base = old(out)@;
    let mut i: usize = 0;
    while i < cs.len()
        invariant
            i <= cs@.len(),
            cs@ == s@,
            out@ == base + cs@.take(i as int).filter(|c: char| c != '-'),
        decreases cs.len() - i,
    {
        let c = cs[i];
        proof {
            assert(cs@.take(i + 1) =~= cs@.take(i as int).push(c));
            cs@.take(i as int).lemma_filter_push(c, |c: char| c != '-');
        }
        if c != '-' {
            push_char(out, c);
            assert(base + cs@.take(i + 1).filter(|c: char| c != '-') =~= (base + cs@.take(i as int).filter(
                |c: char| c != '-',
            )).push(c));
        }
        i += 1;
    }
    assert(cs@.take(cs@.len() as int) =~= cs@);
}

} // verus!
