//! What is said to the scripting runtime: the expressions that read a
//! script's declarations back, the script that installs a run's
//! configuration, and the expression that starts one iteration.

use vstd::prelude::*;
use crate::config::{Iterations, TestConfig};
use crate::report::{decimal_digits, push_decimal, push_seconds, seconds_text};

verus! {

/// The module loader of the runtime. It resolves absolute URLs and loads nothing.
#[derive(Clone, Copy, Debug, PartialEq, Eq, Structural)]
pub struct TsModuleLoader;

/// The normal form of an absolute URL, or `None` for a text that is none.
pub uninterp spec fn parsed_url(specifier: Seq<char>) -> Option<Seq<char>>;

/// Calls `reqwest::Url::parse` and writes the URL out again. Nothing is
/// proved of it: the result is known only as the normal form of the argument.
#[verifier::external_body]
fn parse_url(specifier: &str) -> (url: Option<String>)
    ensures
        url is Some <==> parsed_url(specifier@) is Some,
        url is Some ==> url->Some_0@ == parsed_url(specifier@)->Some_0,
{
    match reqwest::Url::parse(specifier) {
        Ok(url) => Some(String::from(url)),
        Err(_) => None,
    }
}

/// A module specifier that is no absolute URL.
#[derive(Clone, Copy, Debug, PartialEq, Eq, Structural)]
pub struct InvalidUrl;

impl TsModuleLoader {
    /// Resolves a module specifier: an absolute URL resolves to its normal
    /// form, whatever the referrer; anything else is refused.
    pub fn resolve(&self, specifier: &str, _referrer: &str) -> (r: Result<String, InvalidUrl>)
        ensures
            r is Ok <==> parsed_url(specifier@) is Some,
            r is Ok ==> r->Ok_0@ == parsed_url(specifier@)->Some_0,
    {
        match parse_url(specifier) {
            Some(url) => Ok(url),
            None => Err(InvalidUrl),
        }
    }
}

/// The expression that reads the declared iteration count back.
pub const ITERATIONS_PROBE: &'static str = "globalThis.currentConfig.iterations";

/// The expression that reads the declared duration back.
pub const DURATION_PROBE: &'static str = "globalThis.currentConfig.duration";

/// The expression that reads the declared deadline of one iteration back.
pub const TIMEOUT_PROBE: &'static str = "globalThis.currentConfig.timeout";

/// The expression that reads the declared number of virtual users back.
pub const VUS_PROBE: &'static str = "globalThis.currentConfig.vus";

/// The expression that reads the source of the declared routine back.
pub const ITERATION_PROBE: &'static str = "globalThis.currentConfig.iteration.toString()";

/// The expression that starts one iteration. It is compiled once and run
/// once for each task.
pub const DRIVER: &'static str = "globalThis.currentConfig.iteration();";

/// The parts of the script that installs a configuration, around the five values.
pub const SETUP_ITERATIONS: &'static str =
    "\n        globalThis.currentConfig = {\n            iterations: ";

pub const SETUP_DURATION: &'static str = ",\n            duration: ";

pub const SETUP_TIMEOUT: &'static str = ",\n            timeout: ";

pub const SETUP_VUS: &'static str = ",\n            vus: ";

pub const SETUP_ITERATION: &'static str = ",\n            iteration: ";

pub const SETUP_SLEEP: &'static str =
    "\n        };\n\n        // Add global sleep function\n        globalThis.sleep = function(ms) {\n            return Deno.core.opAsync(\"op_set_timeout\", ms);\n        };\n        ";

/// An iteration count as the script language writes it.
pub open spec fn iterations_text(iterations: Iterations) -> Seq<char> {
    match iterations {
        Iterations::Infinite => "Infinity"@,
        Iterations::Finite(n) => decimal_digits(n as nat),
    }
}

/// The script that installs `config` as the runtime's global configuration,
/// with the routine's source embedded so that it is a callable of that
/// runtime, and that registers the global `sleep` helper.
pub open spec fn setup_script_text(config: TestConfig) -> Seq<char> {
    SETUP_ITERATIONS@ + iterations_text(config.iterations) + SETUP_DURATION@ + seconds_text(
        config.duration_ms as nat,
    ) + SETUP_TIMEOUT@ + seconds_text(config.timeout_ms as nat) + SETUP_VUS@ + decimal_digits(
        config.vus as nat,
    ) + SETUP_ITERATION@ + config.iteration_source@ + SETUP_SLEEP@
}

/// One step in building the shared runtime.
#[derive(Clone, Debug, PartialEq, Eq)]
pub enum BuildStep {
    /// Create a runtime from the baseline, with the host operations registered.
    Instantiate,
    /// Run the given script in it.
    Evaluate(String),
    /// Compile the given expression in it and keep the result for the whole run.
    Compile(String),
}

/// Writes the script that installs `config` in a runtime.
pub fn setup_runtime_config(config: &TestConfig) -> (script: String)
    ensures
        script@ == setup_script_text(*config),
{
    let mut script = String::new();
    script.append(SETUP_ITERATIONS);
    match config.iterations {
        Iterations::Infinite => {
            script.append("Infinity");
        },
        Iterations::Finite(n) => {
            push_decimal(&mut script, n as u128);
        },
    }
    script.append(SETUP_DURATION);
    push_seconds(&mut script, config.duration_ms);
    script.append(SETUP_TIMEOUT);
    push_seconds(&mut script, config.timeout_ms);
    script.append(SETUP_VUS);
    push_decimal(&mut script, config.vus as u128);
    script.append(SETUP_ITERATION);
    script.append(config.iteration_source.as_str());
    script.append(SETUP_SLEEP);
    assert(script@ =~= setup_script_text(*config));
    script
}

/// The steps that build the one runtime that all iterations of a run share:
/// create it, install the configuration, compile the driver.
pub fn create_shared_runtime(config: &TestConfig) -> (steps: Vec<BuildStep>)
    ensures
        steps@.len() == 3,
        steps@[0] is Instantiate,
        steps@[1] is Evaluate,
        steps@[1]->Evaluate_0@ == setup_script_text(*config),
        steps@[2] is Compile,
        steps@[2]->Compile_0@ == DRIVER@,
{
    let mut steps: Vec<BuildStep> = Vec::new();
    steps.push(BuildStep::Instantiate);
    steps.push(BuildStep::Evaluate(setup_runtime_config(config)));
    steps.push(BuildStep::Compile(String::from_str(DRIVER)));
    steps
}

} // verus!
