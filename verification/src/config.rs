//! The parameters of a run: what a script declares, what a caller overrides,
//! and the values that a run finally uses.

use vstd::prelude::*;
use crate::number::{capped, chars_of, is_negative, is_number, number_whole, read_whole};

verus! {

/// How many iterations a run asks for.
#[derive(Clone, Copy, Debug, PartialEq, Eq, Structural)]
pub enum Iterations {
    /// A fixed number of iterations.
    Finite(u64),
    /// Keep iterating until the run's duration has elapsed.
    Infinite,
}

impl Iterations {
    /// Whether the run keeps spawning until its duration is over.
    pub fn is_infinite(&self) -> (b: bool)
        ensures
            b == (*self == Iterations::Infinite),
    {
        match self {
            Iterations::Infinite => true,
            Iterations::Finite(_) => false,
        }
    }
}

/// Iterations of a run whose script declares none.
pub const DEFAULT_ITERATIONS: u64 = 1;

/// Duration of a run whose script declares none, in milliseconds.
pub const DEFAULT_DURATION_MS: u64 = 10_000;

/// Deadline of one iteration where the script declares none, in milliseconds.
pub const DEFAULT_TIMEOUT_MS: u64 = 30_000;

/// Virtual users of a run whose script declares none.
pub const DEFAULT_VUS: usize = 1;

/// The lower-case form of an ASCII letter; every other character is itself.
pub open spec fn ascii_lower(c: char) -> char {
    if 'A' <= c && c <= 'Z' {
        ((c as u8) + 32) as char
    } else {
        c
    }
}

/// `s` spells `word` when ASCII case is ignored.
pub open spec fn spells(s: Seq<char>, word: Seq<char>) -> bool {
    &&& s.len() == word.len()
    &&& forall|i: int| 0 <= i < s.len() ==> ascii_lower(#[trigger] s[i]) == word[i]
}

/// `s` spells `inf` or `infinity` when ASCII case is ignored.
pub open spec fn spells_infinity(s: Seq<char>) -> bool {
    spells(s, seq!['i', 'n', 'f']) || spells(s, seq!['i', 'n', 'f', 'i', 'n', 'i', 't', 'y'])
}

/// `s` asks for an unbounded run: it spells `inf` or `infinity` in any
/// casing, with or without a plus sign before it.
pub open spec fn names_infinity(s: Seq<char>) -> bool {
    spells_infinity(s) || (s.len() > 0 && s[0] == '+' && spells_infinity(s.skip(1)))
}

/// `c` is an ASCII decimal digit.
pub open spec fn is_digit(c: char) -> bool {
    '0' <= c && c <= '9'
}

/// `s` is a non-empty run of ASCII decimal digits.
pub open spec fn is_decimal(s: Seq<char>) -> bool {
    &&& s.len() > 0
    &&& forall|i: int| 0 <= i < s.len() ==> is_digit(#[trigger] s[i])
}

/// The number that a run of decimal digits denotes.
pub open spec fn decimal_value(s: Seq<char>) -> nat
    decreases s.len(),
{
    if s.len() == 0 {
        0
    } else {
        (decimal_value(s.drop_last()) * 10 + (s.last() as u8 - '0' as u8)) as nat
    }
}

/// The iteration count that an override string stands for.
///
/// `inf` and `infinity`, in any casing and with or without a plus sign, are
/// `Infinite`. A decimal number of 0 or more is its whole part, held at
/// `u64::MAX` where it is larger: the number may have a plus sign, a
/// fraction and an exponent. Anything else is 1: what is no number, and a
/// number below 0.
pub open spec fn iterations_of(s: Seq<char>) -> Iterations {
    if names_infinity(s) {
        Iterations::Infinite
    } else if is_number(s) && !is_negative(s) {
        Iterations::Finite(capped(number_whole(s)))
    } else {
        Iterations::Finite(DEFAULT_ITERATIONS)
    }
}

/// Lower-cases one ASCII letter.
pub fn to_ascii_lower(c: char) -> (r: char)
    ensures
        r == ascii_lower(c),
{
    if 'A' <= c && c <= 'Z' {
        ((c as u8) + 32) as char
    } else {
        c
    }
}

/// Tests whether `s` spells `word`, ignoring ASCII case in `s`.
pub fn spells_word(s: &str, word: &str) -> (b: bool)
    ensures
        b == spells(s@, word@),
{
    let n: usize = s.unicode_len();
    if n != word.unicode_len() {
        return false;
    }
    let mut i: usize = 0;
    while i < n
        invariant
            n == s@.len(),
            n == word@.len(),
            i <= n,
            forall|j: int| 0 <= j < i ==> ascii_lower(#[trigger] s@[j]) == word@[j],
        decreases n - i,
    {
        if to_ascii_lower(s.get_char(i)) != word.get_char(i) {
            return false;
        }
        i += 1;
    }
    true
}

/// Tests whether the characters from `from` on spell `word`, ignoring
/// ASCII case in them.
pub fn spells_from(chars: &Vec<char>, from: usize, word: &str) -> (b: bool)
    requires
        from <= chars.len(),
    ensures
        b == spells(chars@.skip(from as int), word@),
{
    let n: usize = word.unicode_len();
    if chars.len() - from != n {
        return false;
    }
    let mut i: usize = 0;
    while i < n
        invariant
            n == word@.len(),
            from + n == chars.len(),
            i <= n,
            forall|j: int|
                0 <= j < i ==> ascii_lower(#[trigger] chars@.skip(from as int)[j]) == word@[j],
        decreases n - i,
    {
        assert(chars@.skip(from as int)[i as int] == chars@[from + i]);
        if to_ascii_lower(chars[from + i]) != word.get_char(i) {
            return false;
        }
        i += 1;
    }
    true
}

/// Tests whether the characters ask for an unbounded run.
pub fn asks_for_infinity(chars: &Vec<char>) -> (b: bool)
    ensures
        b == names_infinity(chars@),
{
    proof {
        reveal_strlit("inf");
        reveal_strlit("infinity");
        assert("inf"@ =~= seq!['i', 'n', 'f']);
        assert("infinity"@ =~= seq!['i', 'n', 'f', 'i', 'n', 'i', 't', 'y']);
        assert(chars@.skip(0) =~= chars@);
    }
    if spells_from(chars, 0, "inf") || spells_from(chars, 0, "infinity") {
        return true;
    }
    chars.len() > 0 && chars[0] == '+' && (spells_from(chars, 1, "inf") || spells_from(
        chars,
        1,
        "infinity",
    ))
}

/// Reads an override of the iteration count.
///
/// `inf` and `infinity`, in any casing and with or without a plus sign, ask
/// for an unbounded run. A decimal number of 0 or more asks for as many
/// iterations as its whole part says, held at `u64::MAX` where that does
/// not fit; it may have a plus sign, a fraction and an exponent. Every
/// other string falls back to one iteration: what is no number, and a
/// number below 0.
pub fn parse_iterations_override(iterations_str: &str) -> (r: Iterations)
    ensures
        r == iterations_of(iterations_str@),
{
    let chars = chars_of(iterations_str);
    if asks_for_infinity(&chars) {
        return Iterations::Infinite;
    }
    match read_whole(&chars) {
        Some(count) => Iterations::Finite(count),
        None => Iterations::Finite(DEFAULT_ITERATIONS),
    }
}

/// The routine of a run whose script declares none: a function that does nothing.
pub open spec fn default_iteration_source() -> Seq<char> {
    "function() {}"@
}

/// The resolved parameters of a run. Durations are whole milliseconds.
#[derive(Clone, Debug, PartialEq, Eq)]
pub struct TestConfig {
    pub iterations: Iterations,
    pub duration_ms: u64,
    pub timeout_ms: u64,
    pub vus: usize,
    /// The source text of the iteration routine.
    pub iteration_source: String,
}

/// What a script declares, field by field: `None` where the script declares
/// nothing, or something that is not a number (not a string, for the routine).
#[derive(Clone, Debug, PartialEq, Eq)]
pub struct ScriptConfig {
    pub iterations: Option<Iterations>,
    pub duration_ms: Option<u64>,
    pub timeout_ms: Option<u64>,
    pub vus: Option<usize>,
    pub iteration_source: Option<String>,
}

/// What the caller of a run overrides, field by field. The iteration count
/// is given as text.
#[derive(Clone, Debug, PartialEq, Eq)]
pub struct Overrides {
    pub iterations: Option<String>,
    pub duration_ms: Option<u64>,
    pub timeout_ms: Option<u64>,
    pub vus: Option<usize>,
}

impl TestConfig {
    /// A configuration that a run can use: each iteration has a positive
    /// deadline and there is at least one virtual user.
    pub open spec fn is_valid(&self) -> bool {
        self.timeout_ms > 0 && self.vus >= 1
    }

    /// Tests whether a run can use this configuration.
    pub fn check_valid(&self) -> (b: bool)
        ensures
            b == self.is_valid(),
    {
        self.timeout_ms > 0 && self.vus >= 1
    }
}

/// The iteration count that a script declares, or 1.
pub fn extract_iterations(probe: Option<Iterations>) -> (r: Iterations)
    ensures
        r == match probe {
            Some(declared) => declared,
            None => Iterations::Finite(DEFAULT_ITERATIONS),
        },
{
    match probe {
        Some(declared) => declared,
        None => Iterations::Finite(DEFAULT_ITERATIONS),
    }
}

/// The duration that a script declares, or ten seconds.
pub fn extract_duration(probe: Option<u64>) -> (r: u64)
    ensures
        r == match probe {
            Some(declared) => declared,
            None => DEFAULT_DURATION_MS,
        },
{
    match probe {
        Some(declared) => declared,
        None => DEFAULT_DURATION_MS,
    }
}

/// A deadline that a run can use: the given one where it is above 0,
/// thirty seconds where none is given or the given one is 0.
pub open spec fn timeout_or_default(given: Option<u64>) -> u64 {
    match given {
        Some(timeout_ms) => if timeout_ms > 0 {
            timeout_ms
        } else {
            DEFAULT_TIMEOUT_MS
        },
        None => DEFAULT_TIMEOUT_MS,
    }
}

/// A number of virtual users that a run can use: the given one where it is
/// at least 1, one user where none is given or the given number is 0.
pub open spec fn vus_or_default(given: Option<usize>) -> usize {
    match given {
        Some(vus) => if vus >= 1 {
            vus
        } else {
            DEFAULT_VUS
        },
        None => DEFAULT_VUS,
    }
}

/// The deadline of one iteration that a script declares, or thirty seconds
/// where it declares none or one of 0: a deadline is always above 0.
pub fn extract_timeout(probe: Option<u64>) -> (r: u64)
    ensures
        r == timeout_or_default(probe),
        r > 0,
{
    match probe {
        Some(declared) => if declared > 0 {
            declared
        } else {
            DEFAULT_TIMEOUT_MS
        },
        None => DEFAULT_TIMEOUT_MS,
    }
}

/// The number of virtual users that a script declares, or 1 where it
/// declares none or 0: a run always has at least one virtual user.
pub fn extract_vus(probe: Option<usize>) -> (r: usize)
    ensures
        r == vus_or_default(probe),
        r >= 1,
{
    match probe {
        Some(declared) => if declared >= 1 {
            declared
        } else {
            DEFAULT_VUS
        },
        None => DEFAULT_VUS,
    }
}

/// The source of the iteration routine that a script declares, or that of
/// a function that does nothing.
pub fn extract_iteration_function(probe: Option<String>) -> (r: String)
    ensures
        r@ == match probe {
            Some(declared) => declared@,
            None => default_iteration_source(),
        },
{
    match probe {
        Some(declared) => declared,
        None => String::from_str("function() {}"),
    }
}

/// Merges what a script declares with what the caller overrides: an override
/// wins, field by field; a field that is neither overridden nor declared
/// takes its default. The routine cannot be overridden.
///
/// The result is always a configuration that a run can use. A deadline of
/// 0 and a count of 0 virtual users are no values of their fields: given
/// as an override or declared by the script, each resolves to the field's
/// default, as an iteration count that cannot be read does.
pub fn resolve_config(script: ScriptConfig, overrides: Overrides) -> (config: TestConfig)
    ensures
        config.iterations == match overrides.iterations {
            Some(text) => iterations_of(text@),
            None => match script.iterations {
                Some(declared) => declared,
                None => Iterations::Finite(DEFAULT_ITERATIONS),
            },
        },
        config.duration_ms == match overrides.duration_ms {
            Some(given) => given,
            None => match script.duration_ms {
                Some(declared) => declared,
                None => DEFAULT_DURATION_MS,
            },
        },
        config.timeout_ms == match overrides.timeout_ms {
            Some(given) => timeout_or_default(Some(given)),
            None => timeout_or_default(script.timeout_ms),
        },
        config.vus == match overrides.vus {
            Some(given) => vus_or_default(Some(given)),
            None => vus_or_default(script.vus),
        },
        overrides.timeout_ms is Some && overrides.timeout_ms->Some_0 > 0 ==> config.timeout_ms
            == overrides.timeout_ms->Some_0,
        overrides.vus is Some && overrides.vus->Some_0 >= 1 ==> config.vus
            == overrides.vus->Some_0,
        config.is_valid(),
        config.iteration_source@ == match script.iteration_source {
            Some(declared) => declared@,
            None => default_iteration_source(),
        },
{
    let iterations = match overrides.iterations {
        Some(text) => parse_iterations_override(text.as_str()),
        None => extract_iterations(script.iterations),
    };
    let duration_ms = match overrides.duration_ms {
        Some(given) => given,
        None => extract_duration(script.duration_ms),
    };
    let timeout_ms = match overrides.timeout_ms {
        Some(given) => extract_timeout(Some(given)),
        None => extract_timeout(script.timeout_ms),
    };
    let vus = match overrides.vus {
        Some(given) => extract_vus(Some(given)),
        None => extract_vus(script.vus),
    };
    let iteration_source = extract_iteration_function(script.iteration_source);
    TestConfig { iterations, duration_ms, timeout_ms, vus, iteration_source }
}

} // verus!
