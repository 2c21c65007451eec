//! Mode resolution: total, injective, and the documented defaults.

use convert_to_svg::cli::{ColorMode, Mode};
use convert_to_svg::engine::{ColorMode as EngineColorMode, PathSimplifyMode};

#[test]
fn every_smoothing_choice_resolves_as_documented() {
    assert_eq!(Mode::Spline.to_path_simplify_mode(), PathSimplifyMode::Spline);
    assert_eq!(Mode::Polygon.to_path_simplify_mode(), PathSimplifyMode::Polygon);
    assert_eq!(Mode::NoSimplify.to_path_simplify_mode(), PathSimplifyMode::NoSimplify);
}

#[test]
fn every_color_choice_resolves_as_documented() {
    assert_eq!(ColorMode::Color.to_vtracer_color_mode(), EngineColorMode::Color);
    assert_eq!(ColorMode::Binary.to_vtracer_color_mode(), EngineColorMode::Binary);
}

#[test]
fn resolution_is_injective() {
    let modes = [Mode::Spline, Mode::Polygon, Mode::NoSimplify];
    for a in modes {
        for b in modes {
            if a != b {
                assert_ne!(a.to_path_simplify_mode(), b.to_path_simplify_mode());
            }
        }
    }
    assert_ne!(
        ColorMode::Color.to_vtracer_color_mode(),
        ColorMode::Binary.to_vtracer_color_mode()
    );
}

#[test]
fn defaults_are_color_and_no_simplification() {
    assert_eq!(Mode::default(), Mode::NoSimplify);
    assert_eq!(ColorMode::default(), ColorMode::Color);
}
