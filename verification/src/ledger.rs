//! Account balances as the books sum them: the total debit and the total
//! credit of each account over a fiscal year, and sums over ranges of accounts.
use vstd::prelude::*;
use crate::money::{fits_i64, Money};

verus! {

/// The summed debit and credit of one account.
#[derive(Clone, Copy, Debug)]
pub struct AccountBalance {
    pub account_number: i32,
    pub total_debit: Money,
    pub total_credit: Money,
}

/// The balance of an account on the debit side: debit minus credit.
pub open spec fn net_of(b: AccountBalance) -> int {
    b.total_debit@ - b.total_credit@
}

/// Whether `n` lies in `lo..hi`.
pub open spec fn in_range(n: i32, lo: int, hi: int) -> bool {
    lo <= n && n < hi
}

/// The sum of the debits of the accounts numbered in `lo..hi`.
pub open spec fn range_debits(bs: Seq<AccountBalance>, lo: int, hi: int) -> int
    decreases bs.len(),
{
    if bs.len() == 0 {
        0
    } else {
        range_debits(bs.drop_last(), lo, hi) + if in_range(bs.last().account_number, lo, hi) {
            bs.last().total_debit@
        } else {
            0
        }
    }
}

/// The sum of the credits of the accounts numbered in `lo..hi`.
pub open spec fn range_credits(bs: Seq<AccountBalance>, lo: int, hi: int) -> int
    decreases bs.len(),
{
    if bs.len() == 0 {
        0
    } else {
        range_credits(bs.drop_last(), lo, hi) + if in_range(bs.last().account_number, lo, hi) {
            bs.last().total_credit@
        } else {
            0
        }
    }
}

/// The summed debit-side balance of the accounts numbered in `lo..hi`.
pub open spec fn range_net(bs: Seq<AccountBalance>, lo: int, hi: int) -> int {
    range_debits(bs, lo, hi) - range_credits(bs, lo, hi)
}

/// Within the range of `i64` with room for a change of sign.
pub open spec fn within(x: int) -> bool {
    -0x7fff_ffff_ffff_ffff <= x <= 0x7fff_ffff_ffff_ffff
}

/// The total debit and the total credit of the accounts numbered in `lo..hi`.
pub fn range_totals(bs: &[AccountBalance], lo: i32, hi: i32) -> (r: (i128, i128))
    ensures
        r.0 == range_debits(bs@, lo as int, hi as int),
        r.1 == range_credits(bs@, lo as int, hi as int),
{
    let mut d: i128 = 0;
    let mut c: i128 = 0;
    let mut i: usize = 0;
    while i < bs.len()
        invariant
            i <= bs@.len(),
            d == range_debits(bs@.take(i as int), lo as int, hi as int),
            c == range_credits(bs@.take(i as int), lo as int, hi as int),
            -(i as int) * 0x8000_0000_0000_0000 <= d <= (i as int) * 0x7fff_ffff_ffff_ffff,
            -(i as int) * 0x8000_0000_0000_0000 <= c <= (i as int) * 0x7fff_ffff_ffff_ffff,
        decreases bs.len() - i,
    {
        let b = bs[i];
        assert(bs@.take(i + 1).drop_last() =~= bs@.take(i as int));
        assert(bs@.take(i + 1).last() == b);
        proof {
            b.total_debit.lemma_range();
            b.total_credit.lemma_range();
            assert((i as int) < 0x1_0000_0000_0000_0000);
            assert((i + 1) * 0x8000_0000_0000_0000 <= 0x1_0000_0000_0000_0000 * 0x8000_0000_0000_0000)
                by (nonlinear_arith)
                requires
                    (i as int) < 0x1_0000_0000_0000_0000,
            ;
            assert((i + 1) * 0x7fff_ffff_ffff_ffff <= 0x1_0000_0000_0000_0000 * 0x7fff_ffff_ffff_ffff)
                by (nonlinear_arith)
                requires
                    (i as int) < 0x1_0000_0000_0000_0000,
            ;
        }
        if lo <= b.account_number && b.account_number < hi {
            d = d + b.total_debit.to_ore() as i128;
            c = c + b.total_credit.to_ore() as i128;
        }
        i += 1;
    }
    assert(bs@.take(bs@.len() as int) =~= bs@);
    (d, c)
}

/// The summed debit-side balance of the accounts numbered in `lo..hi`, as
/// an amount.
pub fn range_balance(bs: &[AccountBalance], lo: i32, hi: i32) -> (m: Money)
    requires
        fits_i64(range_net(bs@, lo as int, hi as int)),
    ensures
        m@ == range_net(bs@, lo as int, hi as int),
{
    let (d, c) = range_totals(bs, lo, hi);
    Money::from_ore((d - c) as i64)
}

/// The debit balance of the accounts numbered `from..=to` (assets count positive).
pub open spec fn debit_side(bs: Seq<AccountBalance>, from: int, to: int) -> int {
    range_net(bs, from, to + 1)
}

/// The credit balance of the accounts numbered `from..=to` (equity and
/// liabilities count positive).
pub open spec fn credit_side(bs: Seq<AccountBalance>, from: int, to: int) -> int {
    -range_net(bs, from, to + 1)
}

/// The debit balance of the accounts numbered `from..=to`, as an amount.
pub fn debit_total(bs: &[AccountBalance], from: i32, to: i32) -> (m: Money)
    requires
        to < i32::MAX,
        within(debit_side(bs@, from as int, to as int)),
    ensures
        m@ == debit_side(bs@, from as int, to as int),
{
    range_balance(bs, from, to + 1)
}

/// The credit balance of the accounts numbered `from..=to`, as an amount.
pub fn credit_total(bs: &[AccountBalance], from: i32, to: i32) -> (m: Money)
    requires
        to < i32::MAX,
        within(credit_side(bs@, from as int, to as int)),
    ensures
        m@ == credit_side(bs@, from as int, to as int),
{
    range_balance(bs, from, to + 1).neg()
}

/// The balance of a range of accounts is the sum of the balances of two
/// ranges that split it.
pub proof fn lemma_range_split(bs: Seq<AccountBalance>, a: int, b: int, c: int)
    requires
        a <= b <= c,
    ensures
        range_net(bs, a, c) == range_net(bs, a, b) + range_net(bs, b, c),
    decreases bs.len(),
{
    if bs.len() > 0 {
        lemma_range_split(bs.drop_last(), a, b, c);
    }
}

/// One more account balance adds its balance to every range that holds its
/// number, and nothing to the others.
pub proof fn lemma_range_push(bs: Seq<AccountBalance>, b: AccountBalance, lo: int, hi: int)
    ensures
        range_net(bs.push(b), lo, hi) == range_net(bs, lo, hi) + if lo <= b.account_number < hi {
            net_of(b)
        } else {
            0
        },
{
    assert(bs.push(b).drop_last() =~= bs);
}

} // verus!
