//! Reading the whole part of a decimal number from its characters: a sign,
//! digits with a fraction, and an exponent, with no arithmetic but on
//! whole numbers.

use vstd::prelude::*;
use vstd::arithmetic::div_mod::{lemma_basic_div, lemma_div_denominator};
use crate::config::{decimal_value, is_digit};

verus! {

/// The power of ten with the given exponent.
pub open spec fn pow10(n: nat) -> nat
    decreases n,
{
    if n == 0 {
        1
    } else {
        10 * pow10((n - 1) as nat)
    }
}

/// The place of the first character at or after `from` that is no digit.
pub open spec fn digits_end(s: Seq<char>, from: int) -> int
    decreases s.len() - from,
{
    if 0 <= from < s.len() && is_digit(s[from]) {
        digits_end(s, from + 1)
    } else {
        from
    }
}

/// `c` is one of the two signs.
pub open spec fn is_sign(c: char) -> bool {
    c == '+' || c == '-'
}

/// Where the digits begin: after a leading sign, if there is one.
pub open spec fn mantissa_start(s: Seq<char>) -> int {
    if s.len() > 0 && is_sign(s[0]) {
        1
    } else {
        0
    }
}

/// Where the digits before the point end.
pub open spec fn whole_end(s: Seq<char>) -> int {
    digits_end(s, mantissa_start(s))
}

/// A point follows the digits.
pub open spec fn has_point(s: Seq<char>) -> bool {
    whole_end(s) < s.len() && s[whole_end(s)] == '.'
}

/// Where the digits after the point end.
pub open spec fn fraction_end(s: Seq<char>) -> int {
    if has_point(s) {
        digits_end(s, whole_end(s) + 1)
    } else {
        whole_end(s)
    }
}

/// An `e` or `E` follows the digits and the fraction.
pub open spec fn has_exponent(s: Seq<char>) -> bool {
    fraction_end(s) < s.len() && (s[fraction_end(s)] == 'e' || s[fraction_end(s)] == 'E')
}

/// The exponent has a sign of its own.
pub open spec fn exponent_signed(s: Seq<char>) -> bool {
    fraction_end(s) + 1 < s.len() && is_sign(s[fraction_end(s) + 1])
}

/// Where the digits of the exponent begin.
pub open spec fn exponent_start(s: Seq<char>) -> int {
    if exponent_signed(s) {
        fraction_end(s) + 2
    } else {
        fraction_end(s) + 1
    }
}

/// Where the digits of the exponent end.
pub open spec fn exponent_end(s: Seq<char>) -> int {
    digits_end(s, exponent_start(s))
}

/// The digits before the point.
pub open spec fn whole_digits(s: Seq<char>) -> Seq<char> {
    s.subrange(mantissa_start(s), whole_end(s))
}

/// The digits after the point.
pub open spec fn fraction_digits(s: Seq<char>) -> Seq<char> {
    if has_point(s) {
        s.subrange(whole_end(s) + 1, fraction_end(s))
    } else {
        Seq::empty()
    }
}

/// All digits of the number but those of the exponent.
pub open spec fn mantissa_digits(s: Seq<char>) -> Seq<char> {
    whole_digits(s) + fraction_digits(s)
}

/// The digits of the exponent.
pub open spec fn exponent_digits(s: Seq<char>) -> Seq<char> {
    if has_exponent(s) {
        s.subrange(exponent_start(s), exponent_end(s))
    } else {
        Seq::empty()
    }
}

/// `s` is a decimal number: an optional sign; digits, with or without a
/// point among, before or after them, at least one digit in all; and
/// optionally `e` or `E`, an optional sign and at least one digit. Nothing
/// precedes or follows.
pub open spec fn is_number(s: Seq<char>) -> bool {
    &&& mantissa_digits(s).len() > 0
    &&& if has_exponent(s) {
        exponent_start(s) < exponent_end(s) && exponent_end(s) == s.len()
    } else {
        fraction_end(s) == s.len()
    }
}

/// The exponent of a number; 0 where it has none.
pub open spec fn exponent_of(s: Seq<char>) -> int {
    if has_exponent(s) && exponent_signed(s) && s[fraction_end(s) + 1] == '-' {
        -(decimal_value(exponent_digits(s)) as int)
    } else {
        decimal_value(exponent_digits(s)) as int
    }
}

/// The power of ten by which the digits, read as one whole number, are to
/// be multiplied: the exponent less the number of digits after the point.
pub open spec fn scale_of(s: Seq<char>) -> int {
    exponent_of(s) - fraction_digits(s).len()
}

/// The whole part of `m` times ten to the power `scale`.
pub open spec fn whole_part(m: nat, scale: int) -> nat {
    if scale >= 0 {
        m * pow10(scale as nat)
    } else {
        m / pow10((-scale) as nat)
    }
}

/// The number is below 0: it has a minus sign and a digit other than 0.
pub open spec fn is_negative(s: Seq<char>) -> bool {
    s.len() > 0 && s[0] == '-' && decimal_value(mantissa_digits(s)) > 0
}

/// The whole part of the magnitude of a number.
pub open spec fn number_whole(s: Seq<char>) -> nat {
    whole_part(decimal_value(mantissa_digits(s)), scale_of(s))
}

/// `v`, held at `u64::MAX` where it is larger.
pub open spec fn capped(v: nat) -> u64 {
    if v > u64::MAX {
        u64::MAX
    } else {
        v as u64
    }
}

/// Every character of `s` is a digit.
pub open spec fn all_digits(s: Seq<char>) -> bool {
    forall|i: int| 0 <= i < s.len() ==> is_digit(#[trigger] s[i])
}

/// Powers of ten are positive and grow with the exponent.
pub proof fn lemma_pow10_grows(a: nat, b: nat)
    requires
        a <= b,
    ensures
        0 < pow10(a) <= pow10(b),
    decreases b,
{
    if a < b {
        lemma_pow10_grows(a, (b - 1) as nat);
    } else if b > 0 {
        lemma_pow10_grows((a - 1) as nat, (b - 1) as nat);
    }
}

/// A run of digits denotes less than ten to the power of its length.
pub proof fn lemma_value_below_pow10(s: Seq<char>)
    requires
        all_digits(s),
    ensures
        decimal_value(s) < pow10(s.len()),
    decreases s.len(),
{
    if s.len() > 0 {
        lemma_value_below_pow10(s.drop_last());
        assert(is_digit(s.last()));
    }
}

/// Dividing by a power of ten drops as many digits from the end.
pub proof fn lemma_drop_digits(s: Seq<char>, j: nat)
    requires
        all_digits(s),
        j <= s.len(),
    ensures
        decimal_value(s) / pow10(j) == decimal_value(s.take(s.len() - j)),
    decreases j,
{
    let v = decimal_value(s) as int;
    if j == 0 {
        assert(s.take(s.len() as int) =~= s);
        assert(pow10(0) == 1);
        assert(v / 1 == v);
    } else {
        lemma_drop_digits(s, (j - 1) as nat);
        lemma_pow10_grows(0, (j - 1) as nat);
        let p = pow10((j - 1) as nat) as int;
        let head = s.take(s.len() - (j - 1));
        assert(head.drop_last() =~= s.take(s.len() - j));
        assert(is_digit(head.last()));
        let d = (head.last() as u8 - '0' as u8) as int;
        let rest = decimal_value(head.drop_last()) as int;
        assert(decimal_value(head) == rest * 10 + d);
        assert(v / p == rest * 10 + d);
        assert((rest * 10 + d) / 10 == rest) by (nonlinear_arith)
            requires
                0 <= d < 10,
                rest >= 0,
        ;
        lemma_div_denominator(v, p, 10);
        assert((v / p) / 10 == v / (p * 10));
        assert(pow10(j) as int == p * 10);
        assert(v / (pow10(j) as int) == rest);
    }
}

/// The characters of a text, one by one.
pub fn chars_of(text: &str) -> (chars: Vec<char>)
    ensures
        chars@ == text@,
{
    let n: usize = text.unicode_len();
    let mut chars: Vec<char> = Vec::new();
    let mut i: usize = 0;
    while i < n
        invariant
            n == text@.len(),
            i <= n,
            chars@ == text@.take(i as int),
        decreases n - i,
    {
        chars.push(text.get_char(i));
        i += 1;
        assert(chars@ =~= text@.take(i as int));
    }
    assert(text@.take(n as int) =~= text@);
    chars
}

/// Tests whether a character is a decimal digit.
pub fn is_digit_char(c: char) -> (b: bool)
    ensures
        b == is_digit(c),
{
    '0' <= c && c <= '9'
}

/// Finds the first character at or after `from` that is no digit.
pub fn scan_digits(chars: &Vec<char>, from: usize) -> (end: usize)
    requires
        from <= chars.len(),
    ensures
        end == digits_end(chars@, from as int),
        from <= end <= chars.len(),
        all_digits(chars@.subrange(from as int, end as int)),
{
    let mut end: usize = from;
    while end < chars.len() && is_digit_char(chars[end])
        invariant
            from <= end <= chars.len(),
            digits_end(chars@, from as int) == digits_end(chars@, end as int),
            forall|j: int| from <= j < end ==> is_digit(#[trigger] chars@[j]),
        decreases chars.len() - end,
    {
        end += 1;
    }
    end
}

/// Appends the characters of `chars` from `from` up to `to`.
fn append_range(out: &mut Vec<char>, chars: &Vec<char>, from: usize, to: usize)
    requires
        from <= to <= chars.len(),
    ensures
        final(out)@ == old(out)@ + chars@.subrange(from as int, to as int),
{
    let mut i: usize = from;
    assert(out@ =~= old(out)@ + chars@.subrange(from as int, i as int));
    while i < to
        invariant
            from <= i <= to <= chars.len(),
            out@ == old(out)@ + chars@.subrange(from as int, i as int),
        decreases to - i,
    {
        out.push(chars[i]);
        i += 1;
        assert(out@ =~= old(out)@ + chars@.subrange(from as int, i as int));
    }
}

/// The number that the first `count` digits denote, or that it does not fit.
fn saturating_prefix(digits: &Vec<char>, count: usize) -> (r: (u64, bool))
    requires
        count <= digits.len(),
        all_digits(digits@),
    ensures
        !r.1 ==> r.0 == decimal_value(digits@.take(count as int)),
        r.1 ==> decimal_value(digits@.take(count as int)) > u64::MAX,
{
    let mut value: u64 = 0;
    let mut saturated: bool = false;
    let mut i: usize = 0;
    assert(digits@.take(0) =~= Seq::<char>::empty());
    while i < count
        invariant
            i <= count <= digits.len(),
            all_digits(digits@),
            !saturated ==> value == decimal_value(digits@.take(i as int)),
            saturated ==> decimal_value(digits@.take(i as int)) > u64::MAX,
        decreases count - i,
    {
        let c: char = digits[i];
        assert(is_digit(digits@[i as int]));
        let d: u64 = ((c as u8) - ('0' as u8)) as u64;
        assert(digits@.take(i + 1).drop_last() =~= digits@.take(i as int));
        if !saturated {
            if value > (u64::MAX - d) / 10 {
                saturated = true;
            } else {
                value = value * 10 + d;
            }
        }
        i += 1;
    }
    (value, saturated)
}

/// Ten to the power 20 does not fit in 64 bits.
proof fn lemma_pow10_20()
    ensures
        pow10(20) == 100_000_000_000_000_000_000,
        pow10(20) > u64::MAX,
{
    assert(pow10(0) == 1);
    assert(pow10(1) == 10);
    assert(pow10(2) == 100);
    assert(pow10(3) == 1_000);
    assert(pow10(4) == 10_000);
    assert(pow10(5) == 100_000);
    assert(pow10(6) == 1_000_000);
    assert(pow10(7) == 10_000_000);
    assert(pow10(8) == 100_000_000);
    assert(pow10(9) == 1_000_000_000);
    assert(pow10(10) == 10_000_000_000);
    assert(pow10(11) == 100_000_000_000);
    assert(pow10(12) == 1_000_000_000_000);
    assert(pow10(13) == 10_000_000_000_000);
    assert(pow10(14) == 100_000_000_000_000);
    assert(pow10(15) == 1_000_000_000_000_000);
    assert(pow10(16) == 10_000_000_000_000_000);
    assert(pow10(17) == 100_000_000_000_000_000);
    assert(pow10(18) == 1_000_000_000_000_000_000);
    assert(pow10(19) == 10_000_000_000_000_000_000);
    assert(pow10(20) == 100_000_000_000_000_000_000);
}

/// A product with a larger power of ten is no smaller.
proof fn lemma_scaled_grows(m: nat, a: nat, b: nat)
    requires
        a <= b,
    ensures
        m * pow10(a) <= m * pow10(b),
        m <= m * pow10(a),
{
    lemma_pow10_grows(a, b);
    lemma_pow10_grows(0, a);
    assert(m * pow10(a) <= m * pow10(b)) by (nonlinear_arith)
        requires
            pow10(a) <= pow10(b),
    ;
    assert(m <= m * pow10(a)) by (nonlinear_arith)
        requires
            1 <= pow10(a),
    ;
}

/// The whole part of the number that `mantissa` denotes, times ten to the
/// power `scale`, held at `u64::MAX`.
fn shifted_whole(mantissa: &Vec<char>, scale: i128) -> (r: u64)
    requires
        all_digits(mantissa@),
        scale > i128::MIN,
    ensures
        r == capped(whole_part(decimal_value(mantissa@), scale as int)),
{
    let n: usize = mantissa.len();
    let ghost m = decimal_value(mantissa@);
    if scale < 0 {
        let drop: u128 = (-scale) as u128;
        if drop >= n as u128 {
            proof {
                lemma_value_below_pow10(mantissa@);
                lemma_pow10_grows(n as nat, drop as nat);
                lemma_basic_div(m as int, pow10(drop as nat) as int);
            }
            0
        } else {
            let count: usize = n - (drop as usize);
            let (value, saturated) = saturating_prefix(mantissa, count);
            proof {
                lemma_drop_digits(mantissa@, drop as nat);
            }
            if saturated {
                u64::MAX
            } else {
                value
            }
        }
    } else {
        let (start, too_large) = saturating_prefix(mantissa, n);
        assert(mantissa@.take(n as int) =~= mantissa@);
        if too_large {
            proof {
                lemma_scaled_grows(m, scale as nat, scale as nat);
            }
            return u64::MAX;
        }
        let mut value: u64 = start;
        let mut saturated: bool = false;
        let mut j: i128 = 0;
        assert(pow10(0) == 1);
        assert(m * pow10(0) == m) by (nonlinear_arith)
            requires
                pow10(0) == 1,
        ;
        while j < scale && !saturated && value != 0
            invariant
                0 <= j <= scale,
                !saturated ==> value == m * pow10(j as nat),
                saturated ==> m * pow10(j as nat) > u64::MAX,
            decreases scale - j,
        {
            assert(m * pow10((j + 1) as nat) == 10 * (m * pow10(j as nat))) by (nonlinear_arith)
                requires
                    pow10((j + 1) as nat) == 10 * pow10(j as nat),
            ;
            if value > u64::MAX / 10 {
                saturated = true;
            } else {
                value = value * 10;
            }
            j += 1;
        }
        proof {
            lemma_scaled_grows(m, j as nat, scale as nat);
            if !saturated && value == 0 {
                lemma_pow10_grows(0, j as nat);
                assert(m == 0) by (nonlinear_arith)
                    requires
                        m * pow10(j as nat) == 0,
                        pow10(j as nat) > 0,
                ;
                assert(m * pow10(scale as nat) == 0) by (nonlinear_arith)
                    requires
                        m == 0,
                ;
            }
        }
        if saturated {
            u64::MAX
        } else {
            value
        }
    }
}

/// Tests whether a character is one of the two signs.
pub fn is_sign_char(c: char) -> (b: bool)
    ensures
        b == is_sign(c),
{
    c == '+' || c == '-'
}

/// An exponent too large for 64 bits has at least twenty digits.
proof fn lemma_huge_has_twenty_digits(digits: Seq<char>)
    requires
        all_digits(digits),
        decimal_value(digits) > u64::MAX,
    ensures
        digits.len() >= 20,
{
    lemma_value_below_pow10(digits);
    lemma_pow10_20();
    if digits.len() < 20 {
        lemma_pow10_grows(digits.len(), 20);
        assert(pow10(19) == 10_000_000_000_000_000_000) by {
            assert(pow10(20) == 10 * pow10(19));
        }
        lemma_pow10_grows(digits.len(), 19);
    }
}

/// The parts of a number, taken out of its text.
struct NumberParts {
    minus: bool,
    mantissa: Vec<char>,
    fraction_len: usize,
    exponent_minus: bool,
    exponent: Vec<char>,
}

impl NumberParts {
    /// The parts are those of the number `s`.
    spec fn of(self, s: Seq<char>) -> bool {
        &&& self.minus == (s.len() > 0 && s[0] == '-')
        &&& self.mantissa@ == mantissa_digits(s)
        &&& self.fraction_len == fraction_digits(s).len()
        &&& self.exponent@ == exponent_digits(s)
        &&& self.exponent_minus == (has_exponent(s) && exponent_signed(s) && s[fraction_end(s) + 1]
            == '-')
    }

    /// What holds of the parts of every number.
    spec fn wf(self) -> bool {
        &&& all_digits(self.mantissa@)
        &&& all_digits(self.exponent@)
        &&& 0 < self.mantissa@.len() <= usize::MAX
        &&& self.fraction_len + self.exponent@.len() <= usize::MAX
    }

    /// The exponent, with its sign.
    spec fn exponent_value(self) -> int {
        if self.exponent_minus {
            -(decimal_value(self.exponent@) as int)
        } else {
            decimal_value(self.exponent@) as int
        }
    }

    /// The power of ten by which the mantissa is to be multiplied.
    spec fn scale(self) -> int {
        self.exponent_value() - self.fraction_len
    }
}

/// The digits of the mantissa: those before the point and those after it.
fn take_mantissa(chars: &Vec<char>) -> (r: (Vec<char>, usize, usize))
    ensures
        r.0@ == mantissa_digits(chars@),
        all_digits(r.0@),
        r.1 == fraction_digits(chars@).len(),
        r.2 == fraction_end(chars@),
        r.2 <= chars.len(),
        r.1 <= r.2,
{
    let len: usize = chars.len();
    let ghost s = chars@;
    let start: usize = if len > 0 && is_sign_char(chars[0]) {
        1
    } else {
        0
    };
    let w_end: usize = scan_digits(chars, start);
    let point: bool = w_end < len && chars[w_end] == '.';
    let mut mantissa: Vec<char> = Vec::new();
    append_range(&mut mantissa, chars, start, w_end);
    if point {
        let f_end: usize = scan_digits(chars, w_end + 1);
        append_range(&mut mantissa, chars, w_end + 1, f_end);
        assert(mantissa@ =~= mantissa_digits(s));
        assert forall|i: int| 0 <= i < mantissa@.len() implies is_digit(#[trigger] mantissa@[i]) by {
            if i < whole_digits(s).len() {
                assert(mantissa@[i] == whole_digits(s)[i]);
            } else {
                assert(mantissa@[i] == fraction_digits(s)[i - whole_digits(s).len()]);
            }
        }
        (mantissa, f_end - (w_end + 1), f_end)
    } else {
        assert(mantissa@ =~= mantissa_digits(s));
        (mantissa, 0, w_end)
    }
}

/// The digits of the exponent and whether it has a minus sign, or `None`
/// where what follows the mantissa is no exponent or nothing.
fn take_exponent(chars: &Vec<char>, f_end: usize) -> (r: Option<(Vec<char>, bool)>)
    requires
        f_end == fraction_end(chars@),
        f_end <= chars.len(),
    ensures
        r is Some <==> if has_exponent(chars@) {
            exponent_start(chars@) < exponent_end(chars@) && exponent_end(chars@) == chars@.len()
        } else {
            fraction_end(chars@) == chars@.len()
        },
        r is Some ==> r->Some_0.0@ == exponent_digits(chars@) && all_digits(r->Some_0.0@)
            && r->Some_0.1 == (has_exponent(chars@) && exponent_signed(chars@) && chars@[fraction_end(
            chars@,
        ) + 1] == '-') && r->Some_0.0@.len() + f_end <= chars.len(),
{
    let len: usize = chars.len();
    let mut exponent: Vec<char> = Vec::new();
    let exp: bool = f_end < len && (chars[f_end] == 'e' || chars[f_end] == 'E');
    if !exp {
        if f_end != len {
            return None;
        }
        assert(exponent@ =~= exponent_digits(chars@));
        return Some((exponent, false));
    }
    let signed: bool = f_end + 1 < len && is_sign_char(chars[f_end + 1]);
    let exp_minus: bool = signed && chars[f_end + 1] == '-';
    let e_start: usize = if signed {
        f_end + 2
    } else {
        f_end + 1
    };
    let e_end: usize = scan_digits(chars, e_start);
    if e_end == e_start || e_end != len {
        return None;
    }
    append_range(&mut exponent, chars, e_start, e_end);
    assert(exponent@ =~= exponent_digits(chars@));
    Some((exponent, exp_minus))
}

/// Takes a number apart, or gives `None` for what is no number.
fn split_number(chars: &Vec<char>) -> (r: Option<NumberParts>)
    ensures
        r is Some <==> is_number(chars@),
        r is Some ==> r->Some_0.of(chars@) && r->Some_0.wf(),
{
    let minus: bool = chars.len() > 0 && chars[0] == '-';
    let (mantissa, fraction_len, f_end) = take_mantissa(chars);
    if mantissa.len() == 0 {
        return None;
    }
    match take_exponent(chars, f_end) {
        None => None,
        Some((exponent, exponent_minus)) => Some(
            NumberParts { minus, mantissa, fraction_len, exponent_minus, exponent },
        ),
    }
}

/// The whole part of a number with an exponent too large for 64 bits.
fn whole_with_huge_exponent(parts: &NumberParts, mantissa_is_zero: bool) -> (r: u64)
    requires
        parts.wf(),
        decimal_value(parts.exponent@) > u64::MAX,
        mantissa_is_zero == (decimal_value(parts.mantissa@) == 0),
    ensures
        r == capped(whole_part(decimal_value(parts.mantissa@), parts.scale())),
{
    let ghost m = decimal_value(parts.mantissa@);
    let ghost scale = parts.scale();
    if parts.exponent_minus {
        proof {
            let drop = (-scale) as nat;
            lemma_value_below_pow10(parts.mantissa@);
            lemma_pow10_grows(parts.mantissa@.len(), drop);
            lemma_basic_div(m as int, pow10(drop) as int);
        }
        0
    } else if mantissa_is_zero {
        proof {
            lemma_huge_has_twenty_digits(parts.exponent@);
            assert(m * pow10(scale as nat) == 0) by (nonlinear_arith)
                requires
                    m == 0,
            ;
        }
        0
    } else {
        proof {
            lemma_huge_has_twenty_digits(parts.exponent@);
            lemma_pow10_20();
            lemma_pow10_grows(20, scale as nat);
            assert(m * pow10(scale as nat) >= pow10(20)) by (nonlinear_arith)
                requires
                    m >= 1,
                    pow10(scale as nat) >= pow10(20),
            ;
        }
        u64::MAX
    }
}

/// The whole part of a number that is not below 0, from its parts.
fn whole_of_parts(parts: &NumberParts) -> (r: Option<u64>)
    requires
        parts.wf(),
    ensures
        r == if parts.minus && decimal_value(parts.mantissa@) > 0 {
            None
        } else {
            Some(capped(whole_part(decimal_value(parts.mantissa@), parts.scale())))
        },
{
    let (m_value, m_large) = saturating_prefix(&parts.mantissa, parts.mantissa.len());
    assert(parts.mantissa@.take(parts.mantissa@.len() as int) =~= parts.mantissa@);
    if parts.minus && (m_large || m_value > 0) {
        return None;
    }
    let (e_value, e_large) = saturating_prefix(&parts.exponent, parts.exponent.len());
    assert(parts.exponent@.take(parts.exponent@.len() as int) =~= parts.exponent@);
    if e_large {
        Some(whole_with_huge_exponent(parts, !m_large && m_value == 0))
    } else {
        let signed_exponent: i128 = if parts.exponent_minus {
            -(e_value as i128)
        } else {
            e_value as i128
        };
        let scale: i128 = signed_exponent - parts.fraction_len as i128;
        Some(shifted_whole(&parts.mantissa, scale))
    }
}

/// Reads the whole part of a decimal number that is not below 0, held at
/// `u64::MAX` where it does not fit. Gives `None` for what is no number, and
/// for a number below 0.
pub fn read_whole(chars: &Vec<char>) -> (r: Option<u64>)
    ensures
        r == if is_number(chars@) && !is_negative(chars@) {
            Some(capped(number_whole(chars@)))
        } else {
            None
        },
{
    match split_number(chars) {
        None => None,
        Some(parts) => {
            assert(parts.scale() == scale_of(chars@));
            whole_of_parts(&parts)
        },
    }
}

} // verus!
