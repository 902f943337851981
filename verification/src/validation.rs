//! Checks on organisation numbers and BAS account numbers.
use vstd::prelude::*;
use crate::text::{chars_of, digit_val, is_digit};

verus! {

/// The ASCII digits of `s`, in order.
pub open spec fn ascii_digits(s: Seq<char>) -> Seq<char> {
    s.filter(|c: char| is_digit(c))
}

/// The Luhn contribution of digit value `d` at position `i` (counted from 0 at the left):
/// digits at even positions are doubled, and 9 is taken off a double above 9.
pub open spec fn luhn_term(i: int, d: int) -> int {
    if i % 2 == 0 {
        if 2 * d > 9 {
            2 * d - 9
        } else {
            2 * d
        }
    } else {
        d
    }
}

/// Sum of the Luhn contributions of a run of digits.
pub open spec fn luhn_sum(ds: Seq<char>) -> int
    decreases ds.len(),
{
    if ds.len() == 0 {
        0
    } else {
        luhn_sum(ds.drop_last()) + luhn_term(ds.len() - 1, digit_val(ds.last()))
    }
}

/// The two written forms of an organisationsnummer: ten ASCII digits, or six
/// digits, a hyphen and four digits.
pub open spec fn org_format(s: Seq<char>) -> bool {
    ||| (s.len() == 10 && forall|i: int| 0 <= i < 10 ==> is_digit(#[trigger] s[i]))
    ||| (s.len() == 11 && s[6] == '-' && forall|i: int| 0 <= i < 11 && i != 6 ==> is_digit(#[trigger] s[i]))
}

/// A Swedish organisationsnummer: one of the two written forms, a third digit
/// of at least 2, and a Luhn sum of its ten digits divisible by ten.
pub open spec fn valid_org_number(s: Seq<char>) -> bool {
    let ds = ascii_digits(s);
    &&& org_format(s)
    &&& ds.len() == 10
    &&& digit_val(ds[2]) >= 2
    &&& luhn_sum(ds) % 10 == 0
}

fn format_ok(cs: &Vec<char>) -> (b: bool)
    ensures
        b == org_format(cs@),
{
    let n = cs.len();
    if n != 10 && n != 11 {
        return false;
    }
    if n == 11 && cs[6] != '-' {
        return false;
    }
    let mut i: usize = 0;
    while i < n
        invariant
            n == cs@.len(),
            n == 10 || (n == 11 && cs@[6] == '-'),
            i <= n,
            forall|j: int| 0 <= j < i && (n == 10 || j != 6) ==> is_digit(#[trigger] cs@[j]),
        decreases n - i,
    {
        if !(n == 11 && i == 6) && !('0' <= cs[i] && cs[i] <= '9') {
            return false;
        }
        i += 1;
    }
    true
}

/// Validate a Swedish organisationsnummer using the Luhn algorithm.
/// Accepts formats: "NNNNNNNNNN" or "NNNNNN-NNNN" (10 digits).
pub fn validate_organisationsnummer(org_nr: &str) -> (b: bool)
    ensures
        b == valid_org_number(org_nr@),
{
    let cs = chars_of(org_nr);
    if !format_ok(&cs) {
        return false;
    }
    let mut ds: Vec<char> = Vec::new();
    let mut i: usize = 0;
    while i < cs.len()
        invariant
            i <= cs@.len(),
            cs@ == org_nr@,
            ds@ == cs@.take(i as int).filter(|c: char| is_digit(c)),
            ds@.len() <= i,
        decreases cs.len() - i,
    {
        let c = cs[i];
        proof {
            assert(cs@.take(i + 1) =~= cs@.take(i as int).push(c));
            cs@.take(i as int).lemma_filter_push(c, |c: char| is_digit(c));
        }
        if '0' <= c && c <= '9' {
            ds.push(c);
        }
        i += 1;
    }
    assert(cs@.take(cs@.len() as int) =~= cs@);
    if ds.len() != 10 {
        return false;
    }
    assert(is_digit(ds@[2])) by {
        cs@.lemma_filter_pred(|c: char| is_digit(c), 2);
    }
    let third = ds[2] as u32 - '0' as u32;
    if third < 2 {
        return false;
    }
    let mut sum: u32 = 0;
    let mut k: usize = 0;
    while k < 10
        invariant
            k <= 10,
            ds@.len() == 10,
            ds@ == ascii_digits(org_nr@),
            sum == luhn_sum(ds@.take(k as int)),
            sum <= 9 * k,
        decreases 10 - k,
    {
        assert(is_digit(ds@[k as int])) by {
            org_nr@.lemma_filter_pred(|c: char| is_digit(c), k as int);
        }
        let mut d = ds[k] as u32 - '0' as u32;
        if k % 2 == 0 {
            d = d * 2;
            if d > 9 {
                d = d - 9;
            }
        }
        proof {
            let p = ds@.take(k + 1);
            assert(p.drop_last() =~= ds@.take(k as int));
            assert(p.last() == ds@[k as int]);
        }
        sum = sum + d;
        k += 1;
    }
    assert(ds@.take(10) =~= ds@);
    sum % 10 == 0
}

/// Validate that a BAS account number is in the valid range (1000-9999).
pub fn validate_bas_account_number(number: i32) -> (b: bool)
    ensures
        b == (1000 <= number <= 9999),
{
    1000 <= number && number <= 9999
}

/// Get the account class (1-8) from a BAS account number: none outside
/// 1000-8999.
pub fn account_class(number: i32) -> (r: Option<i32>)
    ensures
        r == (if 1000 <= number <= 8999 {
            Some((number / 1000) as i32)
        } else {
            None
        }),
{
    if validate_bas_account_number(number) && number <= 8999 {
        Some(number / 1000)
    } else {
        None
    }
}

/// The account type that the BAS plan gives a number: class 1 assets, 20xx
/// equity, the rest of class 2 liabilities, class 3 revenue, classes 4-7
/// expenses, in class 8 revenue for 83xx and 89xx and expense otherwise, and
/// expense for anything outside 1000-8999.
pub open spec fn account_type_of(number: int) -> Seq<char> {
    if 1000 <= number < 2000 {
        "asset"@
    } else if 2000 <= number < 3000 {
        if number < 2100 {
            "equity"@
        } else {
            "liability"@
        }
    } else if 3000 <= number < 4000 {
        "revenue"@
    } else if 4000 <= number < 8000 {
        "expense"@
    } else if 8000 <= number < 9000 {
        if (8300 <= number < 8400) || (8900 <= number < 9000) {
            "revenue"@
        } else {
            "expense"@
        }
    } else {
        "expense"@
    }
}

/// Determine account type from BAS account number.
pub fn account_type_from_number(number: i32) -> (r: &'static str)
    ensures
        r@ == account_type_of(number as int),
{
    if number < 0 {
        return "expense";
    }
    match number / 1000 {
        1 => "asset",
        2 => {
            // 20xx = equity, 21xx-22xx = untaxed reserves, 23xx-29xx = liability
            if number < 2100 {
                "equity"
            } else {
                "liability"
            }
        },
        3 => "revenue",
        4..=7 => "expense",
        8 => {
            // 8xxx: financial items, appropriations, tax
            if (8300 <= number && number < 8400) || (8900 <= number && number < 9000) {
                "revenue"
            } else {
                "expense"
            }
        },
        _ => "expense",
    }
}

} // verus!
