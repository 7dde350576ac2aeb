//! The texts that the command line writes: the starter script, and the
//! banner that announces a run.

use vstd::prelude::*;
use crate::config::Iterations;
use crate::report::{decimal_digits, push_decimal, push_seconds, seconds_text};
use crate::text::same_text;

verus! {

/// The parts of the starter script, around the five values.
pub const TEMPLATE_FILE: &'static str = "console.log(\"Starting test: ";

pub const TEMPLATE_ITERATIONS: &'static str = "\");\n\ndefineConfig({\n  iterations: ";

pub const TEMPLATE_DURATION: &'static str = ",\n  duration: ";

pub const TEMPLATE_TIMEOUT: &'static str = ",\n  timeout: ";

pub const TEMPLATE_VUS: &'static str = ", // max timeout for each iteration\n  vus: ";

pub const TEMPLATE_ITERATION: &'static str =
    ", // Virtual Users\n  iteration: async function () {\n    console.log(\"[JS] iteration starting\");\n\n    // Add your test logic here\n    // Example: await setTimeout(1000);\n\n    console.log(\"[JS] iteration completed\");\n  },\n});\n";

/// The parts of the banner, around the five values.
pub const BANNER_FILE: &'static str = "\u{1f680} Starting load test\n\u{1f4c1} File: ";

pub const BANNER_UNBOUNDED: &'static str = "\n\u{1f504} Iterations: \u{221e} (infinite)\n";

pub const BANNER_ITERATIONS: &'static str = "\n\u{1f504} Iterations: ";

pub const BANNER_DURATION: &'static str = "\u{23f1}\u{fe0f}  Duration: ";

pub const BANNER_TIMEOUT: &'static str = "s\n\u{23f0} Timeout per iteration: ";

pub const BANNER_VUS: &'static str = "s\n\u{1f465} Virtual Users: ";

pub const BANNER_RULE: &'static str = "\n\u{2500}\u{2500}\u{2500}\u{2500}\u{2500}\u{2500}\u{2500}\u{2500}\u{2500}\u{2500}\u{2500}\u{2500}\u{2500}\u{2500}\u{2500}\u{2500}\u{2500}\u{2500}\u{2500}\u{2500}\u{2500}\u{2500}\u{2500}\u{2500}\u{2500}\u{2500}\u{2500}\u{2500}\u{2500}\u{2500}\u{2500}\u{2500}\u{2500}\u{2500}\u{2500}\u{2500}\u{2500}\u{2500}\u{2500}\u{2500}\u{2500}\u{2500}\u{2500}\u{2500}\u{2500}\u{2500}\u{2500}\u{2500}\u{2500}\u{2500}";

/// The iteration count of the starter script: `inf` is written `Infinity`,
/// anything else as it was given.
pub open spec fn template_iterations(iterations: Seq<char>) -> Seq<char> {
    if iterations == "inf"@ {
        "Infinity"@
    } else {
        iterations
    }
}

/// The starter script for the given file name and values. The iteration
/// count, the duration and the deadline are written as they are given.
pub open spec fn template_text(
    file: Seq<char>,
    iterations: Seq<char>,
    duration: Seq<char>,
    timeout: Seq<char>,
    vus: nat,
) -> Seq<char> {
    TEMPLATE_FILE@ + file + TEMPLATE_ITERATIONS@ + template_iterations(iterations)
        + TEMPLATE_DURATION@ + duration + TEMPLATE_TIMEOUT@ + timeout + TEMPLATE_VUS@
        + decimal_digits(vus) + TEMPLATE_ITERATION@
}

/// The banner that announces a run: the file, the iteration count, the
/// duration, the deadline of one iteration, the virtual users, and a rule.
pub open spec fn banner_text(
    file: Seq<char>,
    iterations: Iterations,
    duration_ms: nat,
    timeout_ms: nat,
    vus: nat,
) -> Seq<char> {
    BANNER_FILE@ + file + match iterations {
        Iterations::Infinite => BANNER_UNBOUNDED@,
        Iterations::Finite(n) => BANNER_ITERATIONS@ + decimal_digits(n as nat) + "\n"@,
    } + BANNER_DURATION@ + seconds_text(duration_ms) + BANNER_TIMEOUT@ + seconds_text(timeout_ms)
        + BANNER_VUS@ + decimal_digits(vus) + BANNER_RULE@
}

/// Writes the starter script of a new test file. Duration and deadline are
/// given as the texts that the script is to hold, in seconds.
pub fn init_command(file: &str, iterations: &str, duration: &str, timeout: &str, vus: usize) -> (template:
    String)
    ensures
        template@ == template_text(file@, iterations@, duration@, timeout@, vus as nat),
{
    let mut template = String::new();
    template.append(TEMPLATE_FILE);
    template.append(file);
    template.append(TEMPLATE_ITERATIONS);
    if same_text(iterations, "inf") {
        template.append("Infinity");
    } else {
        template.append(iterations);
    }
    template.append(TEMPLATE_DURATION);
    template.append(duration);
    template.append(TEMPLATE_TIMEOUT);
    template.append(timeout);
    template.append(TEMPLATE_VUS);
    push_decimal(&mut template, vus as u128);
    template.append(TEMPLATE_ITERATION);
    assert(template@ =~= template_text(file@, iterations@, duration@, timeout@, vus as nat));
    template
}

/// Writes the banner that announces a run.
pub fn display_test_config(
    file: &str,
    iterations: Iterations,
    duration_ms: u64,
    timeout_ms: u64,
    vus: usize,
) -> (banner: String)
    ensures
        banner@ == banner_text(
            file@,
            iterations,
            duration_ms as nat,
            timeout_ms as nat,
            vus as nat,
        ),
{
    let mut banner = String::new();
    banner.append(BANNER_FILE);
    banner.append(file);
    match iterations {
        Iterations::Infinite => {
            banner.append(BANNER_UNBOUNDED);
        },
        Iterations::Finite(n) => {
            banner.append(BANNER_ITERATIONS);
            push_decimal(&mut banner, n as u128);
            banner.append("\n");
        },
    }
    banner.append(BANNER_DURATION);
    push_seconds(&mut banner, duration_ms);
    banner.append(BANNER_TIMEOUT);
    push_seconds(&mut banner, timeout_ms);
    banner.append(BANNER_VUS);
    push_decimal(&mut banner, vus as u128);
    banner.append(BANNER_RULE);
    assert(banner@ =~= banner_text(
        file@,
        iterations,
        duration_ms as nat,
        timeout_ms as nat,
        vus as nat,
    ));
    banner
}

} // verus!
