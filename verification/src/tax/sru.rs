//! SRU files for Skatteverket: a simple text format of `#KEY value` lines.
use vstd::prelude::*;
use crate::sie::syntax::{push_without_dashes, sie_compact_date};
use crate::sie::writer::PROGRAM_VERSION;
use crate::tax::ink2::{field_views, Ink2Data};
use crate::text::{has_prefix, int_text, push_char, push_int, push_str, starts_with};

verus! {

/// Rust's integer division (rounding toward zero).
pub open spec fn div_toward_zero(a: int, b: int) -> int {
    if a >= 0 {
        a / b
    } else {
        -((-a) / b)
    }
}

/// Whether an SRU code is a revenue field of the income statement (741x).
pub open spec fn is_revenue_code(c: Seq<char>) -> bool {
    has_prefix(c, "741"@) || c == "7412"@
}

/// Whether an SRU code is a cost field (742x-745x) or a financial expense (751x).
pub open spec fn is_expense_code(c: Seq<char>) -> bool {
    has_prefix(c, "742"@) || has_prefix(c, "743"@) || has_prefix(c, "744"@) || has_prefix(c, "745"@)
        || has_prefix(c, "751"@)
}

/// The sum of the amounts (öre) of the fields whose code is a revenue code.
pub open spec fn revenue_total(fs: Seq<(Seq<char>, Seq<char>, int, Seq<i32>)>) -> int
    decreases fs.len(),
{
    if fs.len() == 0 {
        0
    } else {
        revenue_total(fs.drop_last()) + if is_revenue_code(fs.last().0) {
            fs.last().2
        } else {
            0
        }
    }
}

/// The sum of the amounts (öre) of the fields whose code is an expense code.
pub open spec fn expense_total(fs: Seq<(Seq<char>, Seq<char>, int, Seq<i32>)>) -> int
    decreases fs.len(),
{
    if fs.len() == 0 {
        0
    } else {
        expense_total(fs.drop_last()) + if is_expense_code(fs.last().0) {
            fs.last().2
        } else {
            0
        }
    }
}

/// The `#UPPGIFT` lines of the fields that are not zero, in whole kronor.
pub open spec fn field_lines(fs: Seq<(Seq<char>, Seq<char>, int, Seq<i32>)>) -> Seq<char>
    decreases fs.len(),
{
    if fs.len() == 0 {
        Seq::empty()
    } else {
        let f = fs.last();
        field_lines(fs.drop_last()) + if f.2 != 0 {
            "#UPPGIFT "@ + f.0 + " "@ + int_text(div_toward_zero(f.2, 100)) + "\n"@
        } else {
            Seq::empty()
        }
    }
}

/// The SRU file of an INK2 form: the data description (product, session,
/// flag, program), the consent (organisation number and session), the INK2R
/// form with the company's fields and the INK2S form with the booked result
/// (revenue less expenses, in whole kronor). The session is named by the end
/// date of the fiscal year without dashes.
pub open spec fn sru_text(
    company_name: Seq<char>,
    org: Seq<char>,
    start: Seq<char>,
    end: Seq<char>,
    fs: Seq<(Seq<char>, Seq<char>, int, Seq<i32>)>,
) -> Seq<char> {
    let date = sie_compact_date(end);
    "#DATABESKRIVNING_START\n#PRODUKT SRU\n#SESSION "@ + date + "\n#FLAGGA 0\n#PROGRAM Balans "@
        + PROGRAM_VERSION@ + "\n#MEDESSION "@ + date + "\n#DATABESKRIVNING_SLUT\n#MEDGIVANDE_START\n#ORGNR "@
        + org + "\n#MEDESSION "@ + date + "\n#MEDGIVANDE_SLUT\n#BLANKETTSTART\n#IDENTITET "@ + org + " "@ + date
        + "\n#BLANESSION INK2R\n#UPPGIFT 7011 "@ + sie_compact_date(start) + "\n#UPPGIFT 7012 "@ + date
        + "\n#UPPGIFT 7014 "@ + company_name + "\n"@ + field_lines(fs)
        + "#BLANKETTSLUT\n#BLANKETTSTART\n#IDENTITET "@ + org + " "@ + date
        + "\n#BLANESSION INK2S\n#UPPGIFT 7650 "@ + int_text(
        div_toward_zero(revenue_total(fs) - expense_total(fs), 100),
    ) + "\n#BLANKETTSLUT\n"@
}

/// The running sums of revenue and expenses stay in the range of `i64`, as
/// the sums that the file reports must.
pub open spec fn sru_sums_fit(fs: Seq<(Seq<char>, Seq<char>, int, Seq<i32>)>) -> bool {
    &&& forall|i: int|
        0 <= i <= fs.len() ==> i64::MIN <= #[trigger] revenue_total(fs.take(i)) <= i64::MAX
    &&& forall|i: int|
        0 <= i <= fs.len() ==> i64::MIN <= #[trigger] expense_total(fs.take(i)) <= i64::MAX
    &&& i64::MIN <= revenue_total(fs) - expense_total(fs) <= i64::MAX
}

fn is_revenue(code: &str) -> (b: bool)
    ensures
        b == is_revenue_code(code@),
{
    starts_with(code, "741") || crate::text::same_text(code, "7412")
}

fn is_expense(code: &str) -> (b: bool)
    ensures
        b == is_expense_code(code@),
{
    starts_with(code, "742") || starts_with(code, "743") || starts_with(code, "744") || starts_with(
        code,
        "745",
    ) || starts_with(code, "751")
}

/// Generate an SRU file for Skatteverket.
pub fn generate_sru(data: &Ink2Data) -> (out: String)
    requires
        sru_sums_fit(field_views(data.fields@)),
    ensures
        out@ == sru_text(
            data.company_name@,
            data.org_number@,
            data.fiscal_year_start@,
            data.fiscal_year_end@,
            field_views(data.fields@),
        ),
{
    let ghost fs = field_views(data.fields@);
    let org = data.org_number.as_str();
    let end = data.fiscal_year_end.as_str();
    let mut out = String::new();
    push_str(&mut out, "#DATABESKRIVNING_START\n#PRODUKT SRU\n#SESSION ");
    push_without_dashes(&mut out, end);
    push_str(&mut out, "\n#FLAGGA 0\n#PROGRAM Balans ");
    push_str(&mut out, PROGRAM_VERSION);
    push_str(&mut out, "\n#MEDESSION ");
    push_without_dashes(&mut out, end);
    push_str(&mut out, "\n#DATABESKRIVNING_SLUT\n#MEDGIVANDE_START\n#ORGNR ");
    push_str(&mut out, org);
    push_str(&mut out, "\n#MEDESSION ");
    push_without_dashes(&mut out, end);
    push_str(&mut out, "\n#MEDGIVANDE_SLUT\n#BLANKETTSTART\n#IDENTITET ");
    push_str(&mut out, org);
    push_str(&mut out, " ");
    push_without_dashes(&mut out, end);
    push_str(&mut out, "\n#BLANESSION INK2R\n#UPPGIFT 7011 ");
    push_without_dashes(&mut out, data.fiscal_year_start.as_str());
    push_str(&mut out, "\n#UPPGIFT 7012 ");
    push_without_dashes(&mut out, end);
    push_str(&mut out, "\n#UPPGIFT 7014 ");
    push_str(&mut out, data.company_name.as_str());
    push_str(&mut out, "\n");
    let ghost date = sie_compact_date(end@);
    let ghost head = "#DATABESKRIVNING_START\n#PRODUKT SRU\n#SESSION "@ + date + "\n#FLAGGA 0\n#PROGRAM Balans "@
        + PROGRAM_VERSION@ + "\n#MEDESSION "@ + date + "\n#DATABESKRIVNING_SLUT\n#MEDGIVANDE_START\n#ORGNR "@
        + org@ + "\n#MEDESSION "@ + date + "\n#MEDGIVANDE_SLUT\n#BLANKETTSTART\n#IDENTITET "@ + org@ + " "@ + date
        + "\n#BLANESSION INK2R\n#UPPGIFT 7011 "@ + sie_compact_date(data.fiscal_year_start@)
        + "\n#UPPGIFT 7012 "@ + date + "\n#UPPGIFT 7014 "@ + data.company_name@ + "\n"@;
    assert(out@ =~= head);
    let mut revenue: i64 = 0;
    let mut expenses: i64 = 0;
    let mut i: usize = 0;
    while i < data.fields.len()
        invariant
            i <= fs.len(),
            fs == field_views(data.fields@),
            sru_sums_fit(fs),
            out@ == head + field_lines(fs.take(i as int)),
            revenue == revenue_total(fs.take(i as int)),
            expenses == expense_total(fs.take(i as int)),
        decreases data.fields.len() - i,
    {
        let f = &data.fields[i];
        assert(fs[i as int] == f@);
        assert(fs.take(i + 1).drop_last() =~= fs.take(i as int));
        assert(fs.take(i + 1).last() == f@);
        let ore = f.amount.to_ore();
        if ore != 0 {
            push_str(&mut out, "#UPPGIFT ");
            push_str(&mut out, f.sru_code.as_str());
            push_str(&mut out, " ");
            push_int(&mut out, ore / 100);
            push_str(&mut out, "\n");
        }
        assert(out@ =~= head + field_lines(fs.take(i + 1)));
        assert(i64::MIN <= revenue_total(fs.take(i + 1)) <= i64::MAX);
        assert(i64::MIN <= expense_total(fs.take(i + 1)) <= i64::MAX);
        if is_revenue(f.sru_code.as_str()) {
            revenue = revenue + ore;
        }
        if is_expense(f.sru_code.as_str()) {
            expenses = expenses + ore;
        }
        i += 1;
    }
    assert(fs.take(fs.len() as int) =~= fs);
    let ghost mid = out@;
    push_str(&mut out, "#BLANKETTSLUT\n#BLANKETTSTART\n#IDENTITET ");
    push_str(&mut out, org);
    push_str(&mut out, " ");
    push_without_dashes(&mut out, end);
    push_str(&mut out, "\n#BLANESSION INK2S\n#UPPGIFT 7650 ");
    let result = (revenue - expenses) / 100;
    push_int(&mut out, result);
    push_str(&mut out, "\n#BLANKETTSLUT\n");
    assert(out@ =~= mid + "#BLANKETTSLUT\n#BLANKETTSTART\n#IDENTITET "@ + org@ + " "@ + date
        + "\n#BLANESSION INK2S\n#UPPGIFT 7650 "@ + int_text(result as int) + "\n#BLANKETTSLUT\n"@);
    out
}

/// How one more INK2 field changes the booked result that the SRU file
/// reports (7650, revenue less costs): a 741x field (revenue) raises it by its
/// amount, a 742x, 743x, 744x, 745x or 751x field (costs and financial
/// expenses) lowers it by its amount, and any other field leaves it alone.
pub proof fn lemma_booked_result_fields(
    fs: Seq<(Seq<char>, Seq<char>, int, Seq<i32>)>,
    f: (Seq<char>, Seq<char>, int, Seq<i32>),
)
    ensures
        has_prefix(f.0, "741"@) ==> revenue_total(fs.push(f)) - expense_total(fs.push(f)) == revenue_total(fs)
            - expense_total(fs) + f.2,
        has_prefix(f.0, "742"@) ==> revenue_total(fs.push(f)) - expense_total(fs.push(f)) == revenue_total(fs)
            - expense_total(fs) - f.2,
        has_prefix(f.0, "743"@) ==> revenue_total(fs.push(f)) - expense_total(fs.push(f)) == revenue_total(fs)
            - expense_total(fs) - f.2,
        has_prefix(f.0, "744"@) ==> revenue_total(fs.push(f)) - expense_total(fs.push(f)) == revenue_total(fs)
            - expense_total(fs) - f.2,
        has_prefix(f.0, "745"@) ==> revenue_total(fs.push(f)) - expense_total(fs.push(f)) == revenue_total(fs)
            - expense_total(fs) - f.2,
        has_prefix(f.0, "751"@) ==> revenue_total(fs.push(f)) - expense_total(fs.push(f)) == revenue_total(fs)
            - expense_total(fs) - f.2,
        !has_prefix(f.0, "741"@) && f.0 != "7412"@ && !has_prefix(f.0, "742"@) && !has_prefix(f.0, "743"@)
            && !has_prefix(f.0, "744"@) && !has_prefix(f.0, "745"@) && !has_prefix(f.0, "751"@) ==> revenue_total(
            fs.push(f),
        ) - expense_total(fs.push(f)) == revenue_total(fs) - expense_total(fs),
{
    reveal_strlit("741");
    reveal_strlit("742");
    reveal_strlit("743");
    reveal_strlit("744");
    reveal_strlit("745");
    reveal_strlit("751");
    reveal_strlit("7412");
    assert(fs.push(f).drop_last() =~= fs);
    assert(fs.push(f).last() == f);
    // a code cannot begin with two of these prefixes at once
    if has_prefix(f.0, "741"@) {
        lemma_prefix_char(f.0, "741"@, 1);
        lemma_prefix_char(f.0, "741"@, 2);
    }
    if has_prefix(f.0, "742"@) {
        lemma_prefix_char(f.0, "742"@, 1);
        lemma_prefix_char(f.0, "742"@, 2);
    }
    if has_prefix(f.0, "743"@) {
        lemma_prefix_char(f.0, "743"@, 1);
        lemma_prefix_char(f.0, "743"@, 2);
    }
    if has_prefix(f.0, "744"@) {
        lemma_prefix_char(f.0, "744"@, 1);
        lemma_prefix_char(f.0, "744"@, 2);
    }
    if has_prefix(f.0, "745"@) {
        lemma_prefix_char(f.0, "745"@, 1);
        lemma_prefix_char(f.0, "745"@, 2);
    }
    if has_prefix(f.0, "751"@) {
        lemma_prefix_char(f.0, "751"@, 1);
        lemma_prefix_char(f.0, "751"@, 2);
    }
}

proof fn lemma_prefix_char(s: Seq<char>, p: Seq<char>, i: int)
    requires
        has_prefix(s, p),
        0 <= i < p.len(),
    ensures
        s[i] == p[i],
{
    assert(s.subrange(0, p.len() as int)[i] == s[i]);
}

} // verus!
