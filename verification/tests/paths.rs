//! Output-path derivation and the validated invocation record.

use convert_to_svg::cli::{Cli, ColorMode, Mode};
use convert_to_svg::error::{ConvertError, Param, PathRole};
use convert_to_svg::params::RawParams;

fn defaults() -> RawParams {
    RawParams::default()
}

#[test]
fn derives_output_by_replacing_extension() {
    let cli = Cli::new(
        "photo.PNG".to_string(),
        None,
        ColorMode::default(),
        Mode::default(),
        &defaults(),
    )
    .unwrap();
    assert_eq!(cli.get_output_path(), "photo.svg".to_string());
}

#[test]
fn derivation_replaces_only_the_last_extension() {
    let cli = Cli::new(
        "dir.v2/shot.archive.jpeg".to_string(),
        None,
        ColorMode::default(),
        Mode::default(),
        &defaults(),
    )
    .unwrap();
    assert_eq!(cli.get_output_path(), "dir.v2/shot.archive.svg".to_string());
}

#[test]
fn derived_output_would_validate_as_output() {
    let cli = Cli::new(
        "photo.PNG".to_string(),
        None,
        ColorMode::default(),
        Mode::default(),
        &defaults(),
    )
    .unwrap();
    let derived = cli.get_output_path();
    assert_eq!(
        convert_to_svg::extension::validate_svg_extension(&derived),
        Ok("photo.svg".to_string())
    );
}

#[test]
fn explicit_output_is_kept_without_derivation() {
    let cli = Cli::new(
        "photo.png".to_string(),
        Some("result.SVG".to_string()),
        ColorMode::default(),
        Mode::default(),
        &defaults(),
    )
    .unwrap();
    assert_eq!(cli.get_output_path(), "result.SVG".to_string());
}

#[test]
fn new_rejects_bad_input_extension_first() {
    let r = Cli::new(
        "photo.bmp".to_string(),
        Some("out.png".to_string()),
        ColorMode::default(),
        Mode::default(),
        &defaults(),
    );
    assert_eq!(
        r,
        Err(ConvertError::InvalidExtension { role: PathRole::Input, extension: "bmp".to_string() })
    );
}

#[test]
fn new_rejects_bad_output_extension() {
    let r = Cli::new(
        "photo.png".to_string(),
        Some("out.png".to_string()),
        ColorMode::default(),
        Mode::default(),
        &defaults(),
    );
    assert_eq!(
        r,
        Err(ConvertError::InvalidExtension { role: PathRole::Output, extension: "png".to_string() })
    );
}

#[test]
fn new_rejects_out_of_range_parameter() {
    let raw = RawParams { length_threshold_milli: 10001, ..RawParams::default() };
    let r = Cli::new("photo.png".to_string(), None, ColorMode::default(), Mode::default(), &raw);
    assert_eq!(
        r,
        Err(ConvertError::ParameterOutOfRange {
            param: Param::LengthThreshold,
            value: 10001,
            min: 0,
            max: 10000,
        })
    );
}

#[test]
fn new_keeps_every_validated_field() {
    let raw = RawParams {
        color_precision: 255,
        path_precision: 1,
        filter_speckle: 10,
        corner_threshold: 0,
        layer_difference: 255,
        length_threshold_milli: 10000,
        splice_threshold: 180,
        max_iterations: 100,
    };
    let cli = Cli::new(
        "photo.webp".to_string(),
        None,
        ColorMode::Binary,
        Mode::Polygon,
        &raw,
    )
    .unwrap();
    assert_eq!(cli.input, "photo.webp".to_string());
    assert_eq!(cli.output, None);
    assert_eq!(cli.color_mode, ColorMode::Binary);
    assert_eq!(cli.mode, Mode::Polygon);
    assert_eq!(cli.color_precision, 255);
    assert_eq!(cli.path_precision, 1);
    assert_eq!(cli.filter_speckle, 10);
    assert_eq!(cli.corner_threshold, 0);
    assert_eq!(cli.layer_difference, 255);
    assert_eq!(cli.length_threshold_milli, 10000);
    assert_eq!(cli.splice_threshold, 180);
    assert_eq!(cli.max_iterations, 100);
}
