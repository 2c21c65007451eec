//! The conversion pipeline's decision logic.
//!
//! One invocation walks the states Start, InputChecked, ConfigBuilt,
//! Converted, Reported, and any state may fall to Failed; no state is
//! re-entered.  The filesystem probe and the engine call themselves are
//! outside work, so each decision point is a pure function here: it is
//! handed the outcome of the outside work and returns the next [`Step`]
//! to perform.  The caller performs the step and feeds the result back.

use vstd::prelude::*;

use crate::cli::{spec_config_of, Cli};
use crate::engine::TracingConfig;
use crate::error::ConvertError;
use crate::extension::with_svg_extension;

verus! {

/// The next piece of outside work the pipeline asks for, or its final
/// report.
#[derive(Clone, Debug, PartialEq, Eq)]
pub enum Step {
    /// Probe the filesystem: does this path exist?
    CheckInput { path: String },
    /// Invoke the tracing engine with both paths and the assembled
    /// configuration.
    RunEngine { input: String, output: String, config: TracingConfig },
    /// The run succeeded; announce the output path actually written.
    ReportSuccess { output: String },
    /// The run failed; announce the error.  Nothing is retried.
    ReportFailure { error: ConvertError },
}

/// Start: the first step is always the existence probe of the input
/// path, before any configuration work.
pub fn start(cli: &Cli) -> (r: Step)
    ensures
        r matches Step::CheckInput { path } && path@ == cli.input@,
{
    Step::CheckInput { path: cli.input.clone() }
}

/// The transition out of Start once the existence probe answered.
///
/// A missing input fails the run with `InputNotFound` at once: no
/// configuration is assembled and the engine step is never produced.
/// An existing input advances through InputChecked to ConfigBuilt: the
/// output path is the explicit one or is derived from the input path,
/// the configuration is assembled, and the engine step carries all
/// three.
pub fn after_input_check(cli: &Cli, input_exists: bool) -> (r: Step)
    ensures
        !input_exists ==> (r matches Step::ReportFailure { error } && error
            matches ConvertError::InputNotFound { path } && path@ == cli.input@),
        input_exists ==> (r matches Step::RunEngine { input, output, config } && input@
            == cli.input@ && (cli.output matches Some(o) ==> output@ == o@) && (cli.output is None
            ==> output@ == with_svg_extension(cli.input@)) && config == spec_config_of(*cli)),
{
    if !input_exists {
        Step::ReportFailure { error: ConvertError::InputNotFound { path: cli.input.clone() } }
    } else {
        let output = cli.get_output_path();
        let config = cli.to_tracing_config();
        Step::RunEngine { input: cli.input.clone(), output, config }
    }
}

/// The transition out of ConfigBuilt once the engine returned.
///
/// Success reaches Converted and then Reported: the success notice
/// names the output path that was written.  An engine-reported failure
/// is wrapped verbatim as `ConversionFailed`.
pub fn after_engine(output: String, result: Result<(), String>) -> (r: Step)
    ensures
        result is Ok ==> (r matches Step::ReportSuccess { output: written } && written@
            == output@),
        result matches Err(m) ==> (r matches Step::ReportFailure { error } && error
            matches ConvertError::ConversionFailed { message } && message@ == m@),
{
    match result {
        Ok(()) => Step::ReportSuccess { output },
        Err(m) => Step::ReportFailure { error: ConvertError::ConversionFailed { message: m } },
    }
}

} // verus!
