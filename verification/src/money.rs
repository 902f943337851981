//! Money in öre, and decimal numbers as `rust_decimal` holds them.
use vstd::prelude::*;
use crate::text::{digit_char, nat_digits, push_char};

verus! {

/// 10 to the power `k`.
pub open spec fn pow10(k: nat) -> nat
    decreases k,
{
    if k == 0 {
        1
    } else {
        10 * pow10((k - 1) as nat)
    }
}

pub proof fn lemma_pow10_pos(k: nat)
    ensures
        pow10(k) >= 1,
    decreases k,
{
    if k > 0 {
        lemma_pow10_pos((k - 1) as nat);
    }
}

pub proof fn lemma_pow10_bound(k: nat)
    requires
        k <= 28,
    ensures
        pow10(k) <= pow10(28),
        pow10(28) == 10000000000000000000000000000nat,
    decreases 28 - k,
{
    reveal_with_fuel(pow10, 29);
    if k < 28 {
        lemma_pow10_bound(k + 1);
        lemma_pow10_pos(k);
    }
}

/// `m / p` rounded to an integer, ties to the even neighbour (what
/// `rust_decimal` calls `MidpointNearestEven`).
pub open spec fn round_half_even(m: nat, p: nat) -> nat
    recommends
        p >= 1,
{
    let q = m / p;
    let r = m % p;
    if 2 * r > p || (2 * r == p && q % 2 == 1) {
        q + 1
    } else {
        q
    }
}

/// `n / p` rounded half to even, for a signed `n`: the magnitude is rounded and the sign kept.
pub open spec fn round_half_even_signed(n: int, p: nat) -> int {
    if n < 0 {
        -(round_half_even((-n) as nat, p) as int)
    } else {
        round_half_even(n as nat, p) as int
    }
}

/// A decimal number as `rust_decimal::Decimal` stores it: a sign, a magnitude
/// (the mantissa) below 2^96 and a scale of at most 28. Its value is
/// `±mantissa / 10^scale`.
#[derive(Clone, Copy, Debug, PartialEq, Eq, Structural)]
pub struct DecimalNumber {
    pub negative: bool,
    pub mantissa: u128,
    pub scale: u32,
}

/// Bound on the mantissa of a `rust_decimal::Decimal`.
pub open spec fn mantissa_limit() -> nat {
    0x1_0000_0000_0000_0000_0000_0000nat
}

impl DecimalNumber {
    /// The representation bounds of `rust_decimal::Decimal`.
    pub open spec fn wf(self) -> bool {
        self.mantissa < mantissa_limit() && self.scale <= 28
    }

    /// The signed mantissa.
    pub open spec fn signed_mantissa(self) -> int {
        if self.negative {
            -(self.mantissa as int)
        } else {
            self.mantissa as int
        }
    }

    /// The value in öre, rounded half to even (`round_dp(2)` then times 100).
    pub open spec fn ore_value(self) -> int {
        if self.scale <= 2 {
            self.signed_mantissa() * pow10((2 - self.scale) as nat)
        } else {
            round_half_even_signed(self.signed_mantissa(), pow10((self.scale - 2) as nat))
        }
    }

    /// Whether the value is zero.
    pub fn is_zero(&self) -> (b: bool)
        ensures
            b == (self.mantissa == 0),
    {
        self.mantissa == 0
    }

    /// Whether the value is at least zero (a negative zero counts as zero).
    pub fn is_nonnegative(&self) -> (b: bool)
        ensures
            b == (self.signed_mantissa() >= 0),
    {
        !self.negative || self.mantissa == 0
    }

    /// The absolute value (the sign flag cleared).
    pub fn abs(&self) -> (r: DecimalNumber)
        ensures
            r == (DecimalNumber { negative: false, ..*self }),
    {
        DecimalNumber { negative: false, ..*self }
    }
}

/// Zero-padded decimal digits of `n` in exactly `width` places (`n < 10^width`).
pub open spec fn padded_digits(n: nat, width: nat) -> Seq<char>
    decreases width,
{
    if width == 0 {
        Seq::empty()
    } else {
        padded_digits(n / 10, (width - 1) as nat).push(digit_char((n % 10) as int))
    }
}

/// What `Display` writes for a `rust_decimal::Decimal` (no precision given):
/// the sign, the whole part, and when the scale is positive a point and
/// exactly `scale` fraction digits.
pub open spec fn decimal_text(d: DecimalNumber) -> Seq<char> {
    let p = pow10(d.scale as nat);
    let whole = nat_digits((d.mantissa as nat / p) as nat);
    let sign = if d.negative {
        seq!['-']
    } else {
        Seq::empty()
    };
    if d.scale == 0 {
        sign + whole
    } else {
        sign + whole + seq!['.'] + padded_digits((d.mantissa as nat % p) as nat, d.scale as nat)
    }
}

/// What `rust_decimal::Decimal::from_str` reads from the text `s`: the sign,
/// mantissa and scale of the decimal, or `None` where it reports an error.
pub uninterp spec fn decimal_from_text(s: Seq<char>) -> Option<(bool, nat, nat)>;

/// Parses a decimal number with `rust_decimal::Decimal::from_str`.
///
/// Trusted: the result is the named parse of the text, and a decimal that
/// comes back respects the representation bounds of `Decimal` (mantissa below
/// 2^96, scale at most 28). The grammar that `from_str` accepts is not
/// restated here.
#[verifier::external_body]
fn decimal_from_str(s: &str) -> (r: Option<DecimalNumber>)
    ensures
        r matches Some(d) ==> d.wf(),
        r == (match decimal_from_text(s@) {
            Some((neg, m, sc)) => Some(
                DecimalNumber { negative: neg, mantissa: m as u128, scale: sc as u32 },
            ),
            None => None,
        }),
{
    match s.parse::<rust_decimal::Decimal>() {
        Ok(d) => Some(
            DecimalNumber {
                negative: d.is_sign_negative(),
                mantissa: d.mantissa().unsigned_abs(),
                scale: d.scale(),
            },
        ),
        Err(_) => None,
    }
}

/// Parses a decimal number as `rust_decimal::Decimal::from_str` does.
pub fn parse_decimal_text(s: &str) -> (r: Option<DecimalNumber>)
    ensures
        r matches Some(d) ==> d.wf(),
        r == (match decimal_from_text(s@) {
            Some((neg, m, sc)) => Some(
                DecimalNumber { negative: neg, mantissa: m as u128, scale: sc as u32 },
            ),
            None => None,
        }),
{
    decimal_from_str(s)
}

/// 10^k as a `u128`, for `k <= 28`.
pub fn pow10_u128(k: u32) -> (r: u128)
    requires
        k <= 28,
    ensures
        r as nat == pow10(k as nat),
        r >= 1,
{
    let mut r: u128 = 1;
    let mut i: u32 = 0;
    while i < k
        invariant
            i <= k <= 28,
            r as nat == pow10(i as nat),
        decreases k - i,
    {
        proof {
            lemma_pow10_bound((i + 1) as nat);
        }
        r = r * 10;
        i += 1;
    }
    proof {
        lemma_pow10_pos(k as nat);
    }
    r
}

/// Appends the digits of `n` zero-padded to `width` places.
pub fn push_padded(out: &mut String, n: u128, width: u32)
    requires
        width <= 38,
    ensures
        final(out)@ == old(out)@ + padded_digits(n as nat, width as nat),
    decreases width,
{
    if width == 0 {
        assert(old(out)@ + Seq::<char>::empty() =~= old(out)@);
        return;
    }
    push_padded(out, n / 10, width - 1);
    let c = ((n % 10) as u8 + 48u8) as char;
    assert(c == digit_char((n as nat % 10) as int));
    push_char(out, c);
    assert(padded_digits(n as nat, width as nat) == padded_digits((n as nat / 10) as nat, (width - 1) as nat).push(c));
}

/// Appends the decimal rendering of a natural number.
pub fn push_nat(out: &mut String, n: u128)
    ensures
        final(out)@ == old(out)@ + nat_digits(n as nat),
    decreases n,
{
    if n >= 10 {
        push_nat(out, n / 10);
    }
    let c = ((n % 10) as u8 + 48u8) as char;
    assert(c == digit_char((n as nat % 10) as int));
    push_char(out, c);
    proof {
        if n >= 10 {
            assert(nat_digits(n as nat) == nat_digits((n / 10) as nat).push(c));
        } else {
            assert(nat_digits(n as nat) =~= seq![c]);
            assert(old(out)@ + seq![c] =~= old(out)@.push(c));
        }
    }
}

/// Appends what `Display` writes for the decimal `d`.
pub fn push_decimal(out: &mut String, d: &DecimalNumber)
    requires
        d.wf(),
    ensures
        final(out)@ == old(out)@ + decimal_text(*d),
{
    let p = pow10_u128(d.scale);
    let ghost base = old(out)@;
    if d.negative {
        push_char(out, '-');
    }
    let ghost sign: Seq<char> = if d.negative { seq!['-'] } else { Seq::empty() };
    assert(out@ =~= base + sign);
    push_nat(out, d.mantissa / p);
    if d.scale > 0 {
        push_char(out, '.');
        push_padded(out, d.mantissa % p, d.scale);
    }
    proof {
        let whole = nat_digits((d.mantissa as nat / pow10(d.scale as nat)) as nat);
        if d.scale == 0 {
            assert(out@ =~= base + (sign + whole));
        } else {
            let frac = padded_digits((d.mantissa as nat % pow10(d.scale as nat)) as nat, d.scale as nat);
            assert(out@ =~= base + (sign + whole + seq!['.'] + frac));
        }
    }
}

/// A monetary amount held in öre (hundredths of a krona). Every amount that
/// the books hold has two decimals, so the öre count is exact.
#[derive(Clone, Copy, Debug, PartialEq, Eq, Structural)]
pub struct Money {
    ore: i64,
}

impl View for Money {
    type V = int;

    closed spec fn view(&self) -> int {
        self.ore as int
    }
}

pub open spec fn fits_i64(n: int) -> bool {
    i64::MIN <= n <= i64::MAX
}

/// What `Display` (`{:.2}`) writes for an amount of `ore` öre: the sign, the
/// kronor and two öre digits.
pub open spec fn money_text(ore: int) -> Seq<char> {
    let mag: nat = if ore < 0 { (-ore) as nat } else { ore as nat };
    let sign = if ore < 0 {
        seq!['-']
    } else {
        Seq::empty()
    };
    sign + nat_digits(mag / 100) + seq!['.'] + padded_digits(mag % 100, 2)
}

impl Money {
    /// An amount always lies in the range of `i64`.
    pub proof fn lemma_range(self)
        ensures
            fits_i64(self@),
    {
    }

    /// Zero kronor.
    pub fn zero() -> (m: Money)
        ensures
            m@ == 0,
    {
        Money { ore: 0 }
    }

    /// Create a Money value from a decimal. Rounds to 2 decimal places (half to even).
    pub fn new(amount: DecimalNumber) -> (m: Money)
        requires
            amount.wf(),
            fits_i64(amount.ore_value()),
        ensures
            m@ == amount.ore_value(),
    {
        if amount.scale <= 2 {
            let f = pow10_u128(2 - amount.scale);
            proof {
                lemma_pow10_bound((2 - amount.scale) as nat);
                reveal_with_fuel(pow10, 3);
                assert(f <= 100);
                assert(amount.mantissa < mantissa_limit());
            }
            let sm: i128 = if amount.negative { -(amount.mantissa as i128) } else { amount.mantissa as i128 };
            assert(sm == amount.signed_mantissa());
            proof {
                let m = amount.mantissa as int;
                assert(-m <= sm <= m);
                assert(-0x1_0000_0000_0000_0000_0000_0000_00 <= sm * (f as int) <= 0x1_0000_0000_0000_0000_0000_0000_00) by (nonlinear_arith)
                    requires
                        -m <= sm <= m,
                        0 <= m < 0x1_0000_0000_0000_0000_0000_0000,
                        1 <= f <= 100,
                ;
            }
            let v: i128 = sm * (f as i128);
            assert(v == amount.ore_value());
            Money { ore: v as i64 }
        } else {
            let p = pow10_u128(amount.scale - 2);
            proof {
                lemma_pow10_bound((amount.scale - 2) as nat);
            }
            let q = amount.mantissa / p;
            let r = amount.mantissa % p;
            let up = 2 * r > p || (2 * r == p && q % 2 == 1);
            let mag: u128 = if up { q + 1 } else { q };
            assert(mag == round_half_even(amount.mantissa as nat, p as nat));
            let v: i128 = if amount.negative { -(mag as i128) } else { mag as i128 };
            proof {
                let pp = pow10((amount.scale - 2) as nat);
                assert(p as nat == pp);
                if amount.negative && amount.mantissa > 0 {
                    assert(amount.signed_mantissa() < 0);
                    assert(((-amount.signed_mantissa()) as nat) == amount.mantissa as nat);
                    assert(amount.ore_value() == -(round_half_even(amount.mantissa as nat, pp) as int));
                } else if amount.negative {
                    assert(amount.signed_mantissa() == 0);
                    lemma_pow10_pos((amount.scale - 2) as nat);
                    assert(0nat / pp == 0 && 0nat % pp == 0) by (nonlinear_arith)
                        requires
                            pp >= 1,
                    ;
                    assert(mag == 0);
                } else {
                    assert(amount.ore_value() == round_half_even(amount.mantissa as nat, pp) as int);
                }
            }
            assert(v == amount.ore_value());
            Money { ore: v as i64 }
        }
    }

    /// Create from ören (cents). 15000 ören = 150.00 SEK.
    pub fn from_ore(ore: i64) -> (m: Money)
        ensures
            m@ == ore,
    {
        Money { ore }
    }

    /// Convert to ören (cents) for database storage.
    pub fn to_ore(self) -> (r: i64)
        ensures
            r == self@,
    {
        self.ore
    }

    pub fn is_zero(self) -> (b: bool)
        ensures
            b == (self@ == 0),
    {
        self.ore == 0
    }

    /// Whether the amount is above zero.
    pub fn is_positive(self) -> (b: bool)
        ensures
            b == (self@ > 0),
    {
        self.ore > 0
    }

    /// Whether the amount is below zero.
    pub fn is_negative(self) -> (b: bool)
        ensures
            b == (self@ < 0),
    {
        self.ore < 0
    }

    pub fn abs(self) -> (m: Money)
        requires
            self@ > i64::MIN,
        ensures
            m@ == (if self@ < 0 { -self@ } else { self@ }),
    {
        if self.ore < 0 {
            Money { ore: -self.ore }
        } else {
            self
        }
    }

    /// The amount as a decimal with two places.
    pub fn inner(self) -> (d: DecimalNumber)
        requires
            self@ > i64::MIN,
        ensures
            d.wf(),
            d.scale == 2,
            d.signed_mantissa() == self@,
            d.negative == (self@ < 0),
    {
        let mag: u128 = if self.ore < 0 {
            (-(self.ore as i128)) as u128
        } else {
            self.ore as u128
        };
        DecimalNumber { negative: self.ore < 0, mantissa: mag, scale: 2 }
    }

    /// Sum of two amounts.
    pub fn add(self, rhs: Money) -> (m: Money)
        requires
            fits_i64(self@ + rhs@),
        ensures
            m@ == self@ + rhs@,
    {
        Money { ore: self.ore + rhs.ore }
    }

    /// Difference of two amounts.
    pub fn sub(self, rhs: Money) -> (m: Money)
        requires
            fits_i64(self@ - rhs@),
        ensures
            m@ == self@ - rhs@,
    {
        Money { ore: self.ore - rhs.ore }
    }

    /// The amount with its sign flipped.
    pub fn neg(self) -> (m: Money)
        requires
            self@ > i64::MIN,
        ensures
            m@ == -self@,
    {
        Money { ore: -self.ore }
    }

    /// The text that `Display` writes (`{:.2}`), e.g. "150.50".
    pub fn to_text(self) -> (s: String)
        ensures
            s@ == money_text(self@),
    {
        let mut s = String::new();
        self.push_text(&mut s);
        assert(Seq::<char>::empty() + money_text(self@) =~= money_text(self@));
        s
    }

    /// Appends the text that `Display` writes (`{:.2}`).
    pub fn push_text(self, out: &mut String)
        ensures
            final(out)@ == old(out)@ + money_text(self@),
    {
        let ghost base = old(out)@;
        let mag: u128 = if self.ore < 0 {
            (-(self.ore as i128)) as u128
        } else {
            self.ore as u128
        };
        if self.ore < 0 {
            push_char(out, '-');
        }
        push_nat(out, mag / 100);
        push_char(out, '.');
        push_padded(out, mag % 100, 2);
        proof {
            let sign: Seq<char> = if self.ore < 0 { seq!['-'] } else { Seq::empty() };
            assert(out@ =~= base + (sign + nat_digits((mag / 100) as nat) + seq!['.'] + padded_digits(
                (mag % 100) as nat,
                2,
            )));
        }
    }
}

/// Sum of the amounts of a sequence, in öre.
pub open spec fn sum_ore(s: Seq<Money>) -> int
    decreases s.len(),
{
    if s.len() == 0 {
        0
    } else {
        sum_ore(s.drop_last()) + s.last()@
    }
}

/// Sum of a list of amounts (the `Sum` of the original, folding `+` from zero).
pub fn sum(vals: &[Money]) -> (m: Money)
    requires
        fits_i64(sum_ore(vals@)),
        vals@.len() < 0x1_0000_0000,
    ensures
        m@ == sum_ore(vals@),
{
    let mut acc: i128 = 0;
    let mut i: usize = 0;
    while i < vals.len()
        invariant
            i <= vals@.len() < 0x1_0000_0000,
            acc == sum_ore(vals@.take(i as int)),
            -(i as int) * 0x8000_0000_0000_0000 <= acc <= (i as int) * 0x8000_0000_0000_0000,
        decreases vals.len() - i,
    {
        assert(vals@.take(i + 1).drop_last() =~= vals@.take(i as int));
        acc = acc + vals[i].ore as i128;
        i += 1;
    }
    assert(vals@.take(vals@.len() as int) =~= vals@);
    Money { ore: acc as i64 }
}

/// What `Decimal::round_dp(dp)` gives: a decimal with at most `dp` fraction
/// digits, rounded half to even; one that has no more digits than that
/// comes back as it is, and a rounded zero is never negative.
pub open spec fn decimal_round_dp(d: DecimalNumber, dp: u32) -> DecimalNumber {
    if d.scale <= dp {
        d
    } else if d.mantissa == 0 {
        DecimalNumber { negative: d.negative, mantissa: 0, scale: dp }
    } else {
        let v = round_half_even(d.mantissa as nat, pow10((d.scale - dp) as nat));
        DecimalNumber { negative: d.negative && v != 0, mantissa: v as u128, scale: dp }
    }
}

/// Rounds a decimal to `dp` fraction digits, half to even (`Decimal::round_dp`).
pub fn round_dp(d: &DecimalNumber, dp: u32) -> (r: DecimalNumber)
    requires
        d.wf(),
    ensures
        r == decimal_round_dp(*d, dp),
        r.wf() || dp > 28,
{
    if d.scale <= dp {
        return *d;
    }
    if d.mantissa == 0 {
        return DecimalNumber { negative: d.negative, mantissa: 0, scale: dp };
    }
    let p = pow10_u128(d.scale - dp);
    proof {
        lemma_pow10_bound((d.scale - dp) as nat);
    }
    let q = d.mantissa / p;
    let r = d.mantissa % p;
    let up = 2 * r > p || (2 * r == p && q % 2 == 1);
    let v: u128 = if up {
        q + 1
    } else {
        q
    };
    assert(v == round_half_even(d.mantissa as nat, p as nat));
    proof {
        assert(q * p + r == d.mantissa) by (nonlinear_arith)
            requires
                q == d.mantissa / p,
                r == d.mantissa % p,
                p >= 1,
        ;
        if up {
            assert(q + 1 <= d.mantissa) by (nonlinear_arith)
                requires
                    q * p + r == d.mantissa,
                    p >= 1,
                    r > 0 || q % 2 == 1,
                    r < p,
                    (2 * r > p || (2 * r == p && q % 2 == 1)),
            ;
        } else {
            assert(q <= d.mantissa) by (nonlinear_arith)
                requires
                    q * p + r == d.mantissa,
                    p >= 1,
                    r >= 0,
            ;
        }
    }
    DecimalNumber { negative: d.negative && v != 0, mantissa: v, scale: dp }
}

/// 2^95, a bound below which a decimal's value always has room.
pub open spec fn room() -> nat {
    0x8000_0000_0000_0000_0000_0000nat
}

/// The quotient `a / b` as `rust_decimal` computes it.
pub uninterp spec fn decimal_quotient(a: DecimalNumber, b: DecimalNumber) -> DecimalNumber;

/// The product `a * b` as `rust_decimal` computes it.
pub uninterp spec fn decimal_product(a: DecimalNumber, b: DecimalNumber) -> DecimalNumber;

/// The magnitude of `q` is at most that of `a / b` plus one.
pub open spec fn quotient_near(a: DecimalNumber, b: DecimalNumber, q: DecimalNumber) -> bool {
    q.mantissa * b.mantissa * pow10(a.scale as nat) <= (a.mantissa * pow10(b.scale as nat) + b.mantissa
        * pow10(a.scale as nat)) * pow10(q.scale as nat)
}

/// Divides with `rust_decimal` (`Decimal::div`).
///
/// Trusted: the result is the named quotient of the arguments, respects the
/// representation bounds, and differs from the exact quotient by less than
/// one in magnitude (the division is exact up to its last digit). The
/// division panics on a zero divisor and where the quotient's integral part
/// does not fit; `requires` leaves those out, with room to spare.
#[verifier::external_body]
pub(crate) fn decimal_div(a: DecimalNumber, b: DecimalNumber) -> (r: DecimalNumber)
    requires
        a.wf(),
        b.wf(),
        b.mantissa != 0,
        a.mantissa * pow10(b.scale as nat) < room() * b.mantissa * pow10(a.scale as nat),
    ensures
        r == decimal_quotient(a, b),
        r.wf(),
        quotient_near(a, b, r),
{
    let mut x = rust_decimal::Decimal::from_i128_with_scale(a.mantissa as i128, a.scale);
    x.set_sign_negative(a.negative);
    let mut y = rust_decimal::Decimal::from_i128_with_scale(b.mantissa as i128, b.scale);
    y.set_sign_negative(b.negative);
    let q = x / y;
    DecimalNumber { negative: q.is_sign_negative(), mantissa: q.mantissa().unsigned_abs(), scale: q.scale() }
}

/// Multiplies with `rust_decimal` (`Decimal::mul`).
///
/// Trusted: the result is the named product of the arguments and respects
/// the representation bounds. The multiplication panics where the product
/// does not fit; `requires` leaves that out, with room to spare.
#[verifier::external_body]
pub(crate) fn decimal_mul(a: DecimalNumber, b: DecimalNumber) -> (r: DecimalNumber)
    requires
        a.wf(),
        b.wf(),
        a.mantissa * b.mantissa < room() * pow10((a.scale + b.scale) as nat),
    ensures
        r == decimal_product(a, b),
        r.wf(),
{
    let mut x = rust_decimal::Decimal::from_i128_with_scale(a.mantissa as i128, a.scale);
    x.set_sign_negative(a.negative);
    let mut y = rust_decimal::Decimal::from_i128_with_scale(b.mantissa as i128, b.scale);
    y.set_sign_negative(b.negative);
    let p = x * y;
    DecimalNumber { negative: p.is_sign_negative(), mantissa: p.mantissa().unsigned_abs(), scale: p.scale() }
}

} // verus!
