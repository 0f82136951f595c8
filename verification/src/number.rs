//! Numbers in decimal notation.
use vstd::prelude::*;

use crate::text::chars_of;

verus! {

/// The digit for `d`, which is below ten.
pub open spec fn digit(d: nat) -> char {
    ('0' as u32 + d) as char
}

/// Whether `c` is one of the ten decimal digits.
pub open spec fn is_digit(c: char) -> bool {
    '0' <= c <= '9'
}

/// The decimal digits of `n`, without leading zeros.
pub open spec fn decimal(n: nat) -> Seq<char>
    decreases n,
{
    if n < 10 {
        seq![digit(n)]
    } else {
        decimal(n / 10).push(digit(n % 10))
    }
}

/// The number that a sequence of digits stands for.
pub open spec fn digits_value(s: Seq<char>) -> nat
    decreases s.len(),
{
    if s.len() == 0 {
        0
    } else {
        digits_value(s.drop_last()) * 10 + (s.last() as u32 - '0' as u32) as nat
    }
}

/// Whether `s` holds digits only, and at least one of them.
pub open spec fn all_digits(s: Seq<char>) -> bool {
    s.len() > 0 && forall|i: int| 0 <= i < s.len() ==> is_digit(#[trigger] s[i])
}

/// `s` without one leading plus sign.
pub open spec fn without_plus(s: Seq<char>) -> Seq<char> {
    if s.len() > 0 && s[0] == '+' {
        s.drop_first()
    } else {
        s
    }
}

/// The unsigned number written in `s`: digits, with an optional plus sign before them, whose
/// value fits in 64 bits.
pub open spec fn unsigned_value(s: Seq<char>) -> Option<u64> {
    let digits = without_plus(s);
    if all_digits(digits) && digits_value(digits) <= u64::MAX {
        Some(digits_value(digits) as u64)
    } else {
        None
    }
}

/// `s` with zeros before it, up to `width` characters.
pub open spec fn zero_padded(s: Seq<char>, width: nat) -> Seq<char>
    decreases width - s.len(),
{
    if s.len() >= width {
        s
    } else {
        zero_padded(seq!['0'] + s, width)
    }
}

/// What is written in decimal reads back as the same number.
pub proof fn lemma_decimal_value(n: nat)
    ensures
        all_digits(decimal(n)),
        digits_value(decimal(n)) == n,
    decreases n,
{
    reveal_with_fuel(digits_value, 2);
    if n < 10 {
        assert(decimal(n).drop_last() =~= Seq::<char>::empty());
    } else {
        lemma_decimal_value(n / 10);
        assert(decimal(n).drop_last() =~= decimal(n / 10));
    }
}

/// Two numbers with the same decimal digits are the same number.
pub proof fn lemma_decimal_injective(a: nat, b: nat)
    requires
        decimal(a) == decimal(b),
    ensures
        a == b,
{
    lemma_decimal_value(a);
    lemma_decimal_value(b);
}

/// Zeros before a number leave its value as it is.
pub proof fn lemma_leading_zero(s: Seq<char>)
    ensures
        digits_value(seq!['0'] + s) == digits_value(s),
    decreases s.len(),
{
    reveal_with_fuel(digits_value, 2);
    let t = seq!['0'] + s;
    if s.len() == 0 {
        assert(t.drop_last() =~= Seq::<char>::empty());
    } else {
        lemma_leading_zero(s.drop_last());
        assert(t.drop_last() =~= seq!['0'] + s.drop_last());
    }
}

/// Padding with zeros leaves the value as it is, and digits stay digits.
pub proof fn lemma_zero_padded_value(s: Seq<char>, width: nat)
    requires
        all_digits(s),
    ensures
        digits_value(zero_padded(s, width)) == digits_value(s),
        all_digits(zero_padded(s, width)),
    decreases width - s.len(),
{
    if s.len() < width {
        lemma_leading_zero(s);
        lemma_zero_padded_value(seq!['0'] + s, width);
    }
}

/// Reading a number written in decimal gives the number back.
pub proof fn law_decimal_reads_back(n: u64)
    ensures
        unsigned_value(decimal(n as nat)) == Some(n),
{
    lemma_decimal_value(n as nat);
    assert(is_digit(decimal(n as nat)[0]));
    assert(without_plus(decimal(n as nat)) == decimal(n as nat));
}

/// `n` in decimal.
pub fn decimal_string(n: u128) -> (s: String)
    ensures
        s@ == decimal(n as nat),
    decreases n,
{
    let d: u8 = (n % 10) as u8;
    let c: char = (48 + d) as char;
    let mut s: String = if n < 10 {
        String::new()
    } else {
        decimal_string(n / 10)
    };
    s.push(c);
    assert(n < 10 ==> s@ =~= decimal(n as nat));
    s
}

/// `s` with zeros before it, up to `width` characters.
pub fn pad_with_zeros(s: &str, width: usize) -> (r: String)
    ensures
        r@ == zero_padded(s@, width as nat),
{
    let v: Vec<char> = chars_of(s);
    let mut r: String = String::new();
    let mut n: usize = v.len();
    assert(r@ + s@ =~= s@);
    while n < width
        invariant
            n == r@.len() + s@.len(),
            forall|j: int| 0 <= j < r@.len() ==> r@[j] == '0',
            zero_padded(r@ + s@, width as nat) == zero_padded(s@, width as nat),
        decreases width - n,
    {
        let ghost before = r@;
        r.push('0');
        assert(seq!['0'] + (before + s@) =~= r@ + s@);
        n = n + 1;
    }
    r.push_str(s);
    r
}

/// The unsigned number written in `s`, if there is one that fits in 64 bits.
pub fn parse_unsigned(s: &str) -> (r: Option<u64>)
    ensures
        r == unsigned_value(s@),
{
    let v: Vec<char> = chars_of(s);
    let mut i: usize = 0;
    if v.len() > 0 && v[0] == '+' {
        i = 1;
    }
    let from: usize = i;
    let ghost digits = without_plus(s@);
    assert(digits =~= v@.skip(from as int));
    if i == v.len() {
        return None;
    }
    let mut value: u64 = 0;
    while i < v.len()
        invariant
            from <= i <= v@.len(),
            from < v@.len(),
            digits == v@.skip(from as int),
            digits == without_plus(s@),
            forall|j: int| 0 <= j < i - from ==> is_digit(#[trigger] digits[j]),
            value == digits_value(digits.take(i - from)),
        decreases v.len() - i,
    {
        let c: char = v[i];
        assert(c == digits[i - from]);
        if c < '0' || c > '9' {
            assert(!is_digit(digits[i - from]));
            return None;
        }
        let d: u64 = (c as u64) - ('0' as u64);
        assert(digits.take(i - from + 1).drop_last() =~= digits.take(i - from));
        if value > (u64::MAX - d) / 10 {
            proof {
                lemma_value_grows(digits, i - from + 1);
            }
            return None;
        }
        value = value * 10 + d;
        i = i + 1;
    }
    assert(digits.take(i - from) =~= digits);
    Some(value)
}

/// A number has at least the value of the digits that it begins with.
pub proof fn lemma_value_grows(s: Seq<char>, n: int)
    requires
        0 <= n <= s.len(),
    ensures
        digits_value(s.take(n)) <= digits_value(s) || !all_digits(s),
    decreases s.len(),
{
    if n < s.len() {
        lemma_value_grows(s.drop_last(), n);
        assert(s.drop_last().take(n) =~= s.take(n));
        if s.len() > 1 && all_digits(s) {
            assert forall|i: int| 0 <= i < s.drop_last().len() implies is_digit(
                #[trigger] s.drop_last()[i],
            ) by {
                assert(is_digit(s[i]));
            }
        } else if all_digits(s) {
            assert(s.take(n) =~= Seq::<char>::empty());
        }
    } else {
        assert(s.take(n) =~= s);
    }
}

/// `x`, or the largest 64-bit number if `x` is above it.
pub open spec fn capped(x: int) -> u64 {
    if x <= u64::MAX {
        x as u64
    } else {
        u64::MAX
    }
}

/// The product, or the largest 64-bit number where it does not fit.
pub fn capped_product(a: u64, b: u64) -> (r: u64)
    ensures
        r == capped(a * b),
{
    match a.checked_mul(b) {
        Some(product) => product,
        None => {
            assert(a * b > u64::MAX);
            u64::MAX
        },
    }
}

/// Ten times a number and one digit more is written with that digit behind it, and each digit is
/// written as itself.
pub proof fn law_digits_count_by_tens(n: nat, d: nat)
    requires
        d < 10,
    ensures
        decimal(d) == seq!["0123456789"@[d as int]],
        n > 0 ==> decimal(10 * n + d) == decimal(n).push("0123456789"@[d as int]),
{
    reveal_strlit("0123456789");
    assert("0123456789"@[d as int] == digit(d));
    if n > 0 {
        assert((10 * n + d) / 10 == n);
        assert((10 * n + d) % 10 == d);
    }
}

/// One digit more behind a number makes it ten times as much and that digit; what is no digit makes
/// it no number, and neither is there one without a digit.
pub proof fn law_numbers_are_read_by_tens(s: Seq<char>, c: char, d: int)
    requires
        0 <= d < 10,
    ensures
        unsigned_value(Seq::empty()) is None,
        (unsigned_value(s) is Some && c == "0123456789"@[d]) ==> unsigned_value(s.push(c)) == (
        if unsigned_value(s)->0 * 10 + d <= u64::MAX {
            Some((unsigned_value(s)->0 * 10 + d) as u64)
        } else {
            None
        }),
        !"0123456789"@.contains(c) && s.len() > 0 ==> unsigned_value(s.push(c)) is None,
{
    reveal_strlit("0123456789");
    assert("0123456789"@[d] == digit(d as nat));
    if s.len() > 0 {
        let digits = without_plus(s.push(c));
        assert(digits =~= without_plus(s).push(c));
        assert(digits.drop_last() =~= without_plus(s));
        assert(digits[digits.len() - 1] == c);
        if !"0123456789"@.contains(c) {
            if is_digit(c) {
                let k = c as u32 - '0' as u32;
                assert("0123456789"@[k as int] == c);
            }
            assert(!all_digits(digits));
        }
        if unsigned_value(s) is Some && c == "0123456789"@[d] {
            assert forall|i: int| 0 <= i < digits.len() implies is_digit(#[trigger] digits[i]) by {
                if i < digits.len() - 1 {
                    assert(digits[i] == without_plus(s)[i]);
                }
            }
        }
    }
}

/// A plus sign before a number changes nothing.
pub proof fn law_plus_sign_changes_nothing(s: Seq<char>)
    requires
        s.len() == 0 || s[0] != '+',
    ensures
        unsigned_value(seq!['+'] + s) == unsigned_value(s),
{
    assert((seq!['+'] + s).drop_first() =~= s);
}

/// A padded text ends in the text itself, has zeros before it, and is as wide as asked or as the
/// text.
pub proof fn law_padding_puts_zeros_in_front(s: Seq<char>, width: nat)
    ensures
        ({
            let padded = zero_padded(s, width);
            let zeros = padded.len() - s.len();
            &&& padded.len() == if s.len() >= width {
                s.len()
            } else {
                width
            }
            &&& padded.skip(zeros) == s
            &&& forall|i: int| 0 <= i < zeros ==> padded[i] == '0'
        }),
    decreases width - s.len(),
{
    if s.len() < width {
        let longer = seq!['0'] + s;
        law_padding_puts_zeros_in_front(longer, width);
        let padded = zero_padded(s, width);
        let zeros = padded.len() - s.len();
        assert(padded.skip(zeros) =~= padded.skip(zeros - 1).drop_first());
        assert(longer.drop_first() =~= s);
        assert(padded.skip(zeros - 1)[0] == padded[zeros - 1]);
    } else {
        assert(s.skip(0) =~= s);
    }
}

/// A number that fits stays what it is; one that does not becomes the largest that does.
pub proof fn law_capping_keeps_what_fits(x: int)
    requires
        x >= 0,
    ensures
        x <= u64::MAX ==> capped(x) == x,
        x > u64::MAX ==> capped(x) == u64::MAX,
{
}

} // verus!
