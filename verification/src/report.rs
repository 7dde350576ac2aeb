//! The textual summary of a run, and the numbers in it.

use vstd::prelude::*;
use crate::config::{decimal_value, is_decimal, is_digit, iterations_of, names_infinity, Iterations};
use crate::number::{
    all_digits, digits_end, exponent_digits, fraction_digits, is_negative, is_number,
    mantissa_digits, number_whole, pow10, whole_digits,
};

verus! {

/// The character of a decimal digit.
pub open spec fn digit_char(d: int) -> char
    recommends
        0 <= d < 10,
{
    (('0' as u8) + d) as char
}

/// The decimal numeral of `n`, without leading zeros.
pub open spec fn decimal_digits(n: nat) -> Seq<char>
    decreases n,
{
    if n < 10 {
        seq![digit_char(n as int)]
    } else {
        decimal_digits(n / 10).push(digit_char((n % 10) as int))
    }
}

/// The summary line of a finite run.
pub open spec fn finite_summary_text(tasks: nat, vus: nat) -> Seq<char> {
    "All "@ + decimal_digits(tasks) + " tasks completed across "@ + decimal_digits(vus) + " VUs"@
}

/// The throughput of a run in hundredths of a task per second, rounded to
/// the nearest hundredth, halves upwards: `tasks / duration`, with the
/// duration in seconds.
pub open spec fn rate_hundredths(tasks: int, duration_ms: int) -> int
    recommends
        duration_ms > 0,
{
    (tasks * 200_000 + duration_ms) / (2 * duration_ms)
}

/// The one-character string of a decimal digit.
fn digit_str(d: u8) -> (r: &'static str)
    requires
        d < 10,
    ensures
        r@ == seq![digit_char(d as int)],
{
    proof {
        reveal_strlit("0");
        reveal_strlit("1");
        reveal_strlit("2");
        reveal_strlit("3");
        reveal_strlit("4");
        reveal_strlit("5");
        reveal_strlit("6");
        reveal_strlit("7");
        reveal_strlit("8");
        reveal_strlit("9");
    }
    let r = match d {
        0 => "0",
        1 => "1",
        2 => "2",
        3 => "3",
        4 => "4",
        5 => "5",
        6 => "6",
        7 => "7",
        8 => "8",
        _ => "9",
    };
    assert(r@ =~= seq![digit_char(d as int)]);
    r
}

/// Appends the decimal numeral of `n` to `out`.
pub fn push_decimal(out: &mut String, n: u128)
    ensures
        final(out)@ == old(out)@ + decimal_digits(n as nat),
    decreases n,
{
    if n >= 10 {
        push_decimal(out, n / 10);
    }
    out.append(digit_str((n % 10) as u8));
    assert(out@ =~= old(out)@ + decimal_digits(n as nat));
}

/// The decimal numeral of `n`.
pub fn decimal_string(n: u128) -> (r: String)
    ensures
        r@ == decimal_digits(n as nat),
{
    let mut out = String::new();
    push_decimal(&mut out, n);
    assert(out@ =~= decimal_digits(n as nat));
    out
}

/// The summary line of a finite run: `All <tasks> tasks completed across <vus> VUs`.
pub fn finite_summary(tasks: usize, vus: usize) -> (r: String)
    ensures
        r@ == finite_summary_text(tasks as nat, vus as nat),
{
    let mut out = String::new();
    out.append("All ");
    push_decimal(&mut out, tasks as u128);
    out.append(" tasks completed across ");
    push_decimal(&mut out, vus as u128);
    out.append(" VUs");
    assert(out@ =~= finite_summary_text(tasks as nat, vus as nat));
    out
}

/// The throughput of an unbounded run in hundredths of a task per second,
/// or `None` for a run of no duration.
pub fn throughput_hundredths(tasks: usize, duration_ms: u64) -> (r: Option<u128>)
    ensures
        r == if duration_ms == 0 {
            None
        } else {
            Some(rate_hundredths(tasks as int, duration_ms as int) as u128)
        },
{
    if duration_ms == 0 {
        None
    } else {
        let twice: u128 = 2 * (duration_ms as u128);
        Some((tasks as u128 * 200_000 + duration_ms as u128) / twice)
    }
}

/// Hundredths written as a number with two decimals.
pub open spec fn hundredths_text(h: nat) -> Seq<char> {
    decimal_digits(h / 100) + seq!['.', digit_char((h / 10 % 10) as int), digit_char((h % 10) as int)]
}

/// Milliseconds written as seconds: whole seconds as an integer, otherwise
/// with as many decimals as are needed and no more.
pub open spec fn seconds_text(ms: nat) -> Seq<char> {
    let whole = decimal_digits(ms / 1000);
    let a = digit_char((ms / 100 % 10) as int);
    let b = digit_char((ms / 10 % 10) as int);
    let c = digit_char((ms % 10) as int);
    if ms % 1000 == 0 {
        whole
    } else if ms % 100 == 0 {
        whole + seq!['.', a]
    } else if ms % 10 == 0 {
        whole + seq!['.', a, b]
    } else {
        whole + seq!['.', a, b, c]
    }
}

/// The throughput as it is written in the summary. A run of no duration
/// has no rate: its quotient is written `NaN` where no task was spawned and
/// `inf` otherwise.
pub open spec fn rate_text(tasks: nat, duration_ms: nat) -> Seq<char> {
    if duration_ms == 0 {
        if tasks == 0 {
            "NaN"@
        } else {
            "inf"@
        }
    } else {
        hundredths_text(rate_hundredths(tasks as int, duration_ms as int) as nat)
    }
}

/// The summary line of an unbounded run.
pub open spec fn infinite_summary_text(tasks: nat, vus: nat, duration_ms: nat) -> Seq<char> {
    "Completed "@ + decimal_digits(tasks) + " tasks across "@ + decimal_digits(vus)
        + " VUs (infinite iterations with "@ + seconds_text(duration_ms) + "s timeout) - Rate: "@
        + rate_text(tasks, duration_ms) + " iterations/sec"@
}

/// Appends hundredths as a number with two decimals.
pub fn push_hundredths(out: &mut String, h: u128)
    ensures
        final(out)@ == old(out)@ + hundredths_text(h as nat),
{
    push_decimal(out, h / 100);
    out.append(".");
    out.append(digit_str((h / 10 % 10) as u8));
    out.append(digit_str((h % 10) as u8));
    proof {
        reveal_strlit(".");
        assert("."@ =~= seq!['.']);
        assert(out@ =~= old(out)@ + hundredths_text(h as nat));
    }
}

/// Appends milliseconds written as seconds.
pub fn push_seconds(out: &mut String, ms: u64)
    ensures
        final(out)@ == old(out)@ + seconds_text(ms as nat),
{
    push_decimal(out, (ms / 1000) as u128);
    if ms % 1000 != 0 {
        out.append(".");
        out.append(digit_str((ms / 100 % 10) as u8));
        if ms % 100 != 0 {
            out.append(digit_str((ms / 10 % 10) as u8));
            if ms % 10 != 0 {
                out.append(digit_str((ms % 10) as u8));
            }
        }
    }
    proof {
        reveal_strlit(".");
        assert("."@ =~= seq!['.']);
        assert(out@ =~= old(out)@ + seconds_text(ms as nat));
    }
}

/// The summary line of an unbounded run:
/// `Completed <tasks> tasks across <vus> VUs (infinite iterations with
/// <seconds>s timeout) - Rate: <rate> iterations/sec`.
pub fn infinite_summary(tasks: usize, vus: usize, duration_ms: u64) -> (r: String)
    ensures
        r@ == infinite_summary_text(tasks as nat, vus as nat, duration_ms as nat),
{
    let mut out = String::new();
    out.append("Completed ");
    push_decimal(&mut out, tasks as u128);
    out.append(" tasks across ");
    push_decimal(&mut out, vus as u128);
    out.append(" VUs (infinite iterations with ");
    push_seconds(&mut out, duration_ms);
    out.append("s timeout) - Rate: ");
    match throughput_hundredths(tasks, duration_ms) {
        Some(h) => {
            push_hundredths(&mut out, h);
        },
        None => {
            if tasks == 0 {
                out.append("NaN");
            } else {
                out.append("inf");
            }
        },
    }
    out.append(" iterations/sec");
    assert(out@ =~= infinite_summary_text(tasks as nat, vus as nat, duration_ms as nat));
    out
}

/// A decimal numeral is a run of digits that denotes its number.
pub proof fn lemma_numeral_denotes(n: nat)
    ensures
        is_decimal(decimal_digits(n)),
        decimal_value(decimal_digits(n)) == n,
    decreases n,
{
    let s = decimal_digits(n);
    if n < 10 {
        assert(s.drop_last() =~= Seq::<char>::empty());
        assert(decimal_value(s.drop_last()) == 0);
        assert(is_digit(s[0]));
    } else {
        lemma_numeral_denotes(n / 10);
        let head = decimal_digits(n / 10);
        assert(s.drop_last() =~= head);
        assert(is_digit(s.last()));
        assert forall|i: int| 0 <= i < s.len() implies is_digit(#[trigger] s[i]) by {
            if i < head.len() {
                assert(s[i] == head[i]);
            }
        }
    }
}

/// In a run of digits, the digits end where the run ends.
proof fn lemma_digits_to_the_end(s: Seq<char>, from: int)
    requires
        all_digits(s),
        0 <= from <= s.len(),
    ensures
        digits_end(s, from) == s.len(),
    decreases s.len() - from,
{
    if from < s.len() {
        assert(is_digit(s[from]));
        lemma_digits_to_the_end(s, from + 1);
    }
}

/// An override written as the decimal numeral of a count asks for exactly
/// that count.
pub proof fn law_numeral_round_trip(n: u64)
    ensures
        iterations_of(decimal_digits(n as nat)) == Iterations::Finite(n),
{
    let s = decimal_digits(n as nat);
    lemma_numeral_denotes(n as nat);
    assert(is_digit(s[0]));
    assert(!names_infinity(s));
    lemma_digits_to_the_end(s, 0);
    assert(whole_digits(s) =~= s);
    assert(fraction_digits(s) =~= Seq::<char>::empty());
    assert(exponent_digits(s) =~= Seq::<char>::empty());
    assert(mantissa_digits(s) =~= s);
    assert(decimal_value(exponent_digits(s)) == 0);
    assert(pow10(0) == 1);
    assert(number_whole(s) == n) by (nonlinear_arith)
        requires
            number_whole(s) == n * pow10(0),
            pow10(0) == 1,
    ;
    assert(is_number(s));
    assert(!is_negative(s));
}

} // verus!
