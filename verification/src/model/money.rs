//! Amounts of money, counted in cents.

use vstd::prelude::*;

use crate::models::money::MoneyParseError;
use crate::text::{decimal, digit, digit_char, magnitude, push_char, push_decimal};

verus! {

/// An amount of money in cents; negative amounts are debts.
#[derive(Clone, Copy, Debug, PartialEq, Eq, Structural, PartialOrd, Ord, Hash, Default)]
pub struct Money {
    pub value: i64,
}

/// The two-digit notation of `c` (for `c < 100`).
pub open spec fn two_digits(c: nat) -> Seq<char> {
    seq![digit_char(c / 10), digit_char(c % 10)]
}

/// `value` cents written as euros with exactly two decimals, such as "-12.05".
pub open spec fn money_text(value: int) -> Seq<char> {
    let m: nat = if value < 0 { (-value) as nat } else { value as nat };
    let sign: Seq<char> = if value < 0 { seq!['-'] } else { Seq::empty() };
    sign + decimal(m / 100) + seq!['.'] + two_digits(m % 100)
}

/// The euro sign.
pub open spec fn euro_sign() -> char {
    '\u{20ac}'
}

/// `money_text` followed by the euro sign.
pub open spec fn eur_text(value: int) -> Seq<char> {
    money_text(value).push(euro_sign())
}

/// `eur_text` with a '+' in front of positive amounts.
pub open spec fn eur_diff_text(value: int) -> Seq<char> {
    if value > 0 {
        seq!['+'] + eur_text(value)
    } else {
        eur_text(value)
    }
}

impl Money {
    /// Writes `value` cents as euros with two decimals, such as "-12.05".
    pub fn format_value(value: i64) -> (r: String)
        ensures
            r@ == money_text(value as int),
    {
        let m = magnitude(value);
        let mut s = String::new();
        if value < 0 {
            push_char(&mut s, '-');
        }
        push_decimal(&mut s, m / 100);
        push_char(&mut s, '.');
        let c = m % 100;
        push_char(&mut s, digit(c / 10));
        push_char(&mut s, digit(c % 10));
        let ghost sign: Seq<char> = if value < 0 { seq!['-'] } else { Seq::empty() };
        assert(s@ =~= sign + decimal((m / 100) as nat) + seq!['.'] + two_digits((m % 100) as nat));
        s
    }

    /// This amount written as euros with two decimals.
    pub fn format(&self) -> (r: String)
        ensures
            r@ == money_text(self.value as int),
    {
        Money::format_value(self.value)
    }

    /// Writes `value` cents as euros with two decimals and the euro sign.
    pub fn format_eur_value(value: i64) -> (r: String)
        ensures
            r@ == eur_text(value as int),
    {
        let mut s = Money::format_value(value);
        push_char(&mut s, '\u{20ac}');
        s
    }

    /// Like `format_eur_value`, with a '+' in front of positive amounts.
    pub fn format_eur_diff_value(value: i64) -> (r: String)
        ensures
            r@ == eur_diff_text(value as int),
    {
        if value > 0 {
            let mut s = String::new();
            push_char(&mut s, '+');
            let t = Money::format_eur_value(value);
            s.append(t.as_str());
            s
        } else {
            Money::format_eur_value(value)
        }
    }

    /// This amount written as euros with the euro sign.
    pub fn format_eur(&self) -> (r: String)
        ensures
            r@ == eur_text(self.value as int),
    {
        Money::format_eur_value(self.value)
    }

    /// This amount written as euros, with a '+' in front of positive amounts.
    pub fn format_eur_diff(&self) -> (r: String)
        ensures
            r@ == eur_diff_text(self.value as int),
    {
        Money::format_eur_diff_value(self.value)
    }
}

impl core::ops::Sub for Money {
    type Output = Self;

    fn sub(self, rhs: Self) -> (r: Self::Output) {
        Money { value: self.value - rhs.value }
    }
}

impl vstd::std_specs::ops::SubSpecImpl for Money {
    open spec fn obeys_sub_spec() -> bool {
        true
    }

    open spec fn sub_req(self, rhs: Money) -> bool {
        i64::MIN <= self.value - rhs.value <= i64::MAX
    }

    open spec fn sub_spec(self, rhs: Money) -> Money {
        Money { value: (self.value - rhs.value) as i64 }
    }
}

impl core::ops::Neg for Money {
    type Output = Self;

    fn neg(self) -> (r: Self::Output) {
        Money { value: -self.value }
    }
}

impl vstd::std_specs::ops::NegSpecImpl for Money {
    open spec fn obeys_neg_spec() -> bool {
        true
    }

    open spec fn neg_req(self) -> bool {
        self.value != i64::MIN
    }

    open spec fn neg_spec(self) -> Money {
        Money { value: (-self.value) as i64 }
    }
}

impl Money {
    /// Adds `rhs` to this amount (the `+=` of amounts).
    pub fn add_assign(&mut self, rhs: Money)
        requires
            i64::MIN <= old(self).value + rhs.value <= i64::MAX,
        ensures
            final(self).value == old(self).value + rhs.value,
    {
        self.value = self.value + rhs.value;
    }
}

/// Whether `c` is a decimal digit.
pub open spec fn is_digit(c: char) -> bool {
    '0' <= c && c <= '9'
}

/// Whether every character of `s` is a decimal digit.
pub open spec fn all_digits(s: Seq<char>) -> bool {
    forall|i: int| 0 <= i < s.len() ==> is_digit(#[trigger] s[i])
}

/// The number that the decimal digits `s` write.
pub open spec fn digits_value(s: Seq<char>) -> nat
    decreases s.len(),
{
    if s.len() == 0 {
        0
    } else {
        digits_value(s.drop_last()) * 10 + ((s.last() as int - 48) as nat)
    }
}

/// Whether `c` separates euros from cents.
pub open spec fn is_separator(c: char) -> bool {
    c == '.' || c == ','
}

/// The position of the first separator in `s` (its length when there is
/// none).
pub open spec fn separator_at(s: Seq<char>) -> nat
    decreases s.len(),
{
    if s.len() == 0 || is_separator(s[0]) {
        0
    } else {
        1 + separator_at(s.drop_first())
    }
}

/// The part of an amount before the separator.
pub open spec fn euros_part(s: Seq<char>) -> Seq<char> {
    s.take(separator_at(s) as int)
}

/// The part of an amount after the separator.
pub open spec fn cents_part(s: Seq<char>) -> Seq<char> {
    s.skip(separator_at(s) as int + 1)
}

/// Whether the euros are a '-' or nothing, followed by at least one digit.
pub open spec fn valid_euros(e: Seq<char>) -> bool {
    if e.len() > 0 && e[0] == '-' {
        e.len() > 1 && all_digits(e.skip(1))
    } else {
        e.len() > 0 && all_digits(e)
    }
}

/// Whether the cents are one or two digits.
pub open spec fn valid_cents(c: Seq<char>) -> bool {
    (c.len() == 1 || c.len() == 2) && all_digits(c)
}

/// The cents that valid cents stand for: one digit counts tens of cents.
pub open spec fn cents_value(c: Seq<char>) -> nat {
    if c.len() == 1 {
        digits_value(c) * 10
    } else {
        digits_value(c)
    }
}

/// The amount in cents that the text `s` writes, or the failure with the
/// wrong part of the text (`true` for the euros, `false` for the cents).
/// An amount is a '-' or nothing, the euros in decimal digits, and, after a
/// '.' or a ',', one or two digits of cents (one digit counts tens). An
/// amount that does not fit in `i64` has invalid euros.
pub open spec fn parse_money(s: Seq<char>) -> Result<int, (bool, Seq<char>)> {
    let e = euros_part(s);
    let negative = e.len() > 0 && e[0] == '-';
    let euro_digits = if negative { e.skip(1) } else { e };
    let has_cents = separator_at(s) < s.len();
    let c = cents_part(s);
    if !valid_euros(e) {
        Err((true, e))
    } else if has_cents && !valid_cents(c) {
        Err((false, c))
    } else {
        let m = digits_value(euro_digits) * 100 + if has_cents { cents_value(c) } else { 0 };
        let v = if negative { -m } else { m as int };
        if i64::MIN <= v <= i64::MAX {
            Ok(v)
        } else {
            Err((true, e))
        }
    }
}

proof fn lemma_short_digits(c: Seq<char>)
    requires
        c.len() <= 2,
        all_digits(c),
    ensures
        c.len() <= 1 ==> digits_value(c) <= 9,
        digits_value(c) <= 99,
{
    if c.len() > 0 {
        assert(is_digit(c[c.len() - 1]));
        assert((c.last() as int - 48) <= 9);
        let init = c.drop_last();
        assert(digits_value(c) == digits_value(init) * 10 + ((c.last() as int - 48) as nat));
        if init.len() > 0 {
            assert(init[0] == c[0]);
            assert(is_digit(c[0]));
            assert(init.drop_last().len() == 0);
            assert(digits_value(init.drop_last()) == 0);
            assert(digits_value(init) == digits_value(init.drop_last()) * 10 + ((init.last() as int - 48) as nat));
            assert(digits_value(init) <= 9);
        } else {
            assert(digits_value(init) == 0);
        }
    }
}

/// Reads the decimal digits of `s` from `from` to `to`: whether they are all
/// digits, their value, and whether the value exceeds `u64::MAX` (then the
/// value given is not it).
fn read_digits(s: &str, from: usize, to: usize) -> (r: (bool, u64, bool))
    requires
        from <= to <= s@.len(),
    ensures
        r.0 == all_digits(s@.subrange(from as int, to as int)),
        r.0 && !r.2 ==> r.1 == digits_value(s@.subrange(from as int, to as int)),
        r.0 && r.2 ==> digits_value(s@.subrange(from as int, to as int)) > u64::MAX,
{
    let ghost d = s@.subrange(from as int, to as int);
    let mut acc: u64 = 0;
    let mut big = false;
    let mut i: usize = from;
    while i < to
        invariant
            from <= i <= to <= s@.len(),
            d == s@.subrange(from as int, to as int),
            all_digits(d.take(i - from)),
            !big ==> acc == digits_value(d.take(i - from)),
            big ==> digits_value(d.take(i - from)) > u64::MAX,
        decreases to - i,
    {
        let c = s.get_char(i);
        let ghost k = i - from;
        assert(d[k] == c);
        assert(d.take(k + 1).drop_last() =~= d.take(k));
        if !('0' <= c && c <= '9') {
            assert(!is_digit(d[k]));
            return (false, 0, false);
        }
        let v = ((c as u32) - 48) as u64;
        if !big {
            if acc > (u64::MAX - v) / 10 {
                assert(acc * 10 + v > u64::MAX) by (nonlinear_arith)
                    requires acc > (u64::MAX - v) / 10, v <= 9;
                big = true;
            } else {
                acc = acc * 10 + v;
            }
        }
        proof {
            assert forall|t: int| 0 <= t < d.take(k + 1).len() implies is_digit(#[trigger] d.take(k + 1)[t]) by {
                if t < k {
                    assert(d.take(k + 1)[t] == d.take(k)[t]);
                }
            }
        }
        i = i + 1;
    }
    assert(d.take(to - from) =~= d);
    (true, acc, big)
}

proof fn lemma_separator_at(s: Seq<char>, k: int)
    requires
        0 <= k <= s.len(),
        forall|j: int| 0 <= j < k ==> !is_separator(s[j]),
        k == s.len() || is_separator(s[k]),
    ensures
        separator_at(s) == k,
    decreases k,
{
    if k > 0 {
        lemma_separator_at(s.drop_first(), k - 1);
    }
}

impl Money {
    /// Reads an amount of money from the text `value` (see `parse_money`):
    /// a '-' or nothing, the euros, and after a '.' or a ',' one or two
    /// digits of cents.
    pub fn parse(value: &str) -> (r: Result<Money, MoneyParseError>)
        ensures
            parse_money(value@) matches Ok(v) ==> r == Ok::<Money, MoneyParseError>(Money { value: v as i64 }),
            parse_money(value@) matches Err((true, part)) ==> (r matches Err(MoneyParseError::InvalidEuros(e)) && e@ == part),
            parse_money(value@) matches Err((false, part)) ==> (r matches Err(MoneyParseError::InvalidCents(c)) && c@ == part),
    {
        let s = value;
        let n = s.unicode_len();
        let mut k: usize = 0;
        while k < n && !(s.get_char(k) == '.' || s.get_char(k) == ',')
            invariant
                n == s@.len(),
                k <= n,
                forall|j: int| 0 <= j < k ==> !is_separator(s@[j]),
            decreases n - k,
        {
            k = k + 1;
        }
        proof {
            lemma_separator_at(s@, k as int);
        }
        let ghost e = euros_part(s@);
        assert(e =~= s@.subrange(0, k as int));
        let euros_text = s.substring_char(0, k);
        let negative = k > 0 && s.get_char(0) == '-';
        let start: usize = if negative { 1 } else { 0 };
        assert(s@.subrange(start as int, k as int) =~= if negative { e.skip(1) } else { e });
        let (euros_ok, euros, euros_big) = if start < k {
            read_digits(s, start, k)
        } else {
            (false, 0, false)
        };
        if !euros_ok {
            return Err(MoneyParseError::InvalidEuros(String::from_str(euros_text)));
        }
        let has_cents = k < n;
        let mut cents: u64 = 0;
        if has_cents {
            let ghost c = cents_part(s@);
            assert(c =~= s@.subrange(k + 1, n as int));
            let len = n - (k + 1);
            let (cents_ok, v, _) = if len == 1 || len == 2 {
                read_digits(s, k + 1, n)
            } else {
                (false, 0, false)
            };
            if !cents_ok {
                return Err(MoneyParseError::InvalidCents(String::from_str(s.substring_char(k + 1, n))));
            }
            proof {
                lemma_short_digits(c);
            }
            cents = if len == 1 { v * 10 } else { v };
        }
        if euros_big {
            return Err(MoneyParseError::InvalidEuros(String::from_str(euros_text)));
        }
        let m: u128 = (euros as u128) * 100 + (cents as u128);
        if negative {
            if m > 9223372036854775808u128 {
                return Err(MoneyParseError::InvalidEuros(String::from_str(euros_text)));
            }
            if m == 9223372036854775808u128 {
                return Ok(Money { value: i64::MIN });
            }
            Ok(Money { value: -(m as i64) })
        } else {
            if m > 9223372036854775807u128 {
                return Err(MoneyParseError::InvalidEuros(String::from_str(euros_text)));
            }
            Ok(Money { value: m as i64 })
        }
    }
}

proof fn lemma_decimal_digits(n: nat)
    ensures
        all_digits(decimal(n)),
        decimal(n).len() >= 1,
        digits_value(decimal(n)) == n,
    decreases n,
{
    let c = digit_char(n % 10);
    assert(c as int == n % 10 + 48);
    let d = decimal(n);
    if n < 10 {
        assert(d.drop_last() =~= Seq::<char>::empty());
        assert(digits_value(d.drop_last()) == 0);
    }
    assert(d.last() == c);
    assert(digits_value(d) == digits_value(d.drop_last()) * 10 + ((d.last() as int - 48) as nat));
    if n >= 10 {
        lemma_decimal_digits(n / 10);
        let d = decimal(n);
        assert(d.drop_last() =~= decimal(n / 10));
        assert forall|i: int| 0 <= i < d.len() implies is_digit(#[trigger] d[i]) by {
            if i < d.len() - 1 {
                assert(d[i] == decimal(n / 10)[i]);
            }
        }
    }
}

/// Reading back an amount that was written with `Money::format_value`
/// gives the amount that was written.
pub proof fn parsing_reads_back_what_formatting_wrote(value: i64)
    ensures
        parse_money(money_text(value as int)) == Ok::<int, (bool, Seq<char>)>(value as int),
{
    let v = value as int;
    let m: nat = if v < 0 { (-v) as nat } else { v as nat };
    let sign: Seq<char> = if v < 0 { seq!['-'] } else { Seq::empty() };
    let q = m / 100;
    let r = m % 100;
    lemma_decimal_digits(q);
    let euros = sign + decimal(q);
    let text = money_text(v);
    let cents = two_digits(r);
    assert(text =~= euros + seq!['.'] + cents);
    assert forall|j: int| 0 <= j < euros.len() implies !is_separator(text[j]) by {
        assert(text[j] == euros[j]);
        if v < 0 && j == 0 {
        } else {
            let k = if v < 0 { j - 1 } else { j };
            assert(euros[j] == decimal(q)[k]);
            assert(is_digit(decimal(q)[k]));
        }
    }
    assert(text[euros.len() as int] == '.');
    lemma_separator_at(text, euros.len() as int);
    assert(euros_part(text) =~= euros);
    assert(cents_part(text) =~= cents);
    if v < 0 {
        assert(euros.skip(1) =~= decimal(q));
    } else {
        assert(is_digit(decimal(q)[0]));
    }
    assert(all_digits(cents));
    assert(cents.drop_last() =~= seq![digit_char(r / 10)]);
    assert(cents.drop_last().drop_last() =~= Seq::<char>::empty());
    assert(digit_char(r / 10) as int == r / 10 + 48);
    assert(digit_char(r % 10) as int == r % 10 + 48);
    let first = cents.drop_last();
    assert(first.drop_last() =~= Seq::<char>::empty());
    assert(digits_value(first) == digits_value(first.drop_last()) * 10 + ((first.last() as int - 48) as nat));
    assert(digits_value(cents) == digits_value(first) * 10 + ((cents.last() as int - 48) as nat));
    assert(digits_value(first) == r / 10);
    assert(cents_value(cents) == r);
    assert(q * 100 + r == m);
}

} // verus!
