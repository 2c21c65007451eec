//! The orchestrator walked end to end against a stub engine.

use convert_to_svg::cli::{Cli, ColorMode, Mode};
use convert_to_svg::engine::{
    ColorMode as EngineColorMode, Hierarchical, PathSimplifyMode, TracingConfig,
};
use convert_to_svg::error::ConvertError;
use convert_to_svg::orchestrator::{after_engine, after_input_check, start, Step};
use convert_to_svg::params::RawParams;

fn default_cli(input: &str) -> Cli {
    Cli::new(
        input.to_string(),
        None,
        ColorMode::default(),
        Mode::default(),
        &RawParams::default(),
    )
    .unwrap()
}

/// Drives one invocation, with the given answer to the existence probe
/// and a stub engine that records each call and returns `engine_result`.
/// Returns the final step and the inputs the stub engine saw.
fn drive(
    cli: &Cli,
    input_exists: bool,
    engine_result: Result<(), String>,
) -> (Step, Vec<(String, String, TracingConfig)>) {
    let mut engine_calls: Vec<(String, String, TracingConfig)> = Vec::new();
    let first = start(cli);
    let path = match first {
        Step::CheckInput { path } => path,
        other => panic!("the first step must be the existence probe, got {other:?}"),
    };
    assert_eq!(path, cli.input);
    let second = after_input_check(cli, input_exists);
    match second {
        Step::RunEngine { input, output, config } => {
            engine_calls.push((input, output.clone(), config));
            let last = after_engine(output, engine_result);
            (last, engine_calls)
        }
        other => (other, engine_calls),
    }
}

#[test]
fn missing_input_fails_before_any_engine_call() {
    let cli = default_cli("absent.png");
    let (last, engine_calls) = drive(&cli, false, Ok(()));
    assert_eq!(
        last,
        Step::ReportFailure {
            error: ConvertError::InputNotFound { path: "absent.png".to_string() },
        }
    );
    assert_eq!(engine_calls.len(), 0, "the engine must never be invoked");
}

#[test]
fn defaults_produce_exactly_one_engine_call_with_the_documented_config() {
    let cli = default_cli("photo.png");
    let (last, engine_calls) = drive(&cli, true, Ok(()));
    assert_eq!(engine_calls.len(), 1);
    let (input, output, config) = engine_calls[0].clone();
    assert_eq!(input, "photo.png".to_string());
    assert_eq!(output, "photo.svg".to_string());
    assert_eq!(
        config,
        TracingConfig {
            color_mode: EngineColorMode::Color,
            hierarchical: Hierarchical::Stacked,
            filter_speckle: 1,
            color_precision: 8,
            layer_difference: 5,
            mode: PathSimplifyMode::NoSimplify,
            corner_threshold: 20,
            length_threshold_milli: 1000,
            max_iterations: 20,
            splice_threshold: 20,
            path_precision: 10,
        }
    );
    assert_eq!(last, Step::ReportSuccess { output: "photo.svg".to_string() });
}

#[test]
fn explicit_output_reaches_the_engine_unchanged() {
    let cli = Cli::new(
        "photo.png".to_string(),
        Some("result.SVG".to_string()),
        ColorMode::default(),
        Mode::default(),
        &RawParams::default(),
    )
    .unwrap();
    let (last, engine_calls) = drive(&cli, true, Ok(()));
    assert_eq!(engine_calls.len(), 1);
    assert_eq!(engine_calls[0].1, "result.SVG".to_string());
    assert_eq!(last, Step::ReportSuccess { output: "result.SVG".to_string() });
}

#[test]
fn engine_failure_is_surfaced_verbatim() {
    let cli = default_cli("photo.png");
    let (last, engine_calls) = drive(&cli, true, Err("no pixels".to_string()));
    assert_eq!(engine_calls.len(), 1);
    assert_eq!(
        last,
        Step::ReportFailure {
            error: ConvertError::ConversionFailed { message: "no pixels".to_string() },
        }
    );
}
