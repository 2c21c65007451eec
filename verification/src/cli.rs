//! The user-facing configuration: the two mode enumerations, the
//! validated invocation record, mode resolution, output-path derivation
//! and configuration assembly.
//!
//! `Cli` is the typed, already-validated form of an invocation: it can
//! only be built through [`Cli::new`], which checks both extensions and
//! all eight numeric ranges, so every later step may assume a
//! well-formed value and never re-validates.

use vstd::prelude::*;

use crate::engine::{ColorMode as EngineColorMode, Hierarchical, PathSimplifyMode, TracingConfig};
use crate::error::{ConvertError, PathRole};
use crate::extension::{
    extension_of, has_extension, is_image_extension, is_svg_extension, validate_image_extension,
    validate_svg_extension, with_svg_extension, derive_svg_path,
};
use crate::params::{
    all_in_range, first_bad_param, out_of_range_error, raw_value_of, validate_params, RawParams,
};

verus! {

/// The user-facing path-smoothing choice.
#[derive(Clone, Copy, Debug, PartialEq, Eq, Structural)]
pub enum Mode {
    /// Smooth curves (spline)
    Spline,
    /// Sharp edges (polygon)
    Polygon,
    /// No simplification
    NoSimplify,
}

/// The user-facing color choice.
#[derive(Clone, Copy, Debug, PartialEq, Eq, Structural)]
pub enum ColorMode {
    /// Full Color
    Color,
    /// Black and white (binary)
    Binary,
}

/// The engine mode each user-facing smoothing choice resolves to.
pub open spec fn simplify_mode_of(m: Mode) -> PathSimplifyMode {
    match m {
        Mode::Spline => PathSimplifyMode::Spline,
        Mode::Polygon => PathSimplifyMode::Polygon,
        Mode::NoSimplify => PathSimplifyMode::NoSimplify,
    }
}

/// The engine mode each user-facing color choice resolves to.
pub open spec fn color_mode_of(m: ColorMode) -> EngineColorMode {
    match m {
        ColorMode::Color => EngineColorMode::Color,
        ColorMode::Binary => EngineColorMode::Binary,
    }
}

impl Mode {
    /// Resolves this choice to the engine's smoothing mode.  The mapping
    /// is total: every variant resolves, with no fallthrough.
    pub fn to_path_simplify_mode(&self) -> (r: PathSimplifyMode)
        ensures
            r == simplify_mode_of(*self),
    {
        match self {
            Mode::Spline => PathSimplifyMode::Spline,
            Mode::Polygon => PathSimplifyMode::Polygon,
            Mode::NoSimplify => PathSimplifyMode::NoSimplify,
        }
    }
}

impl ColorMode {
    /// Resolves this choice to the engine's color mode.  The mapping is
    /// total: every variant resolves, with no fallthrough.
    pub fn to_vtracer_color_mode(&self) -> (r: EngineColorMode)
        ensures
            r == color_mode_of(*self),
    {
        match self {
            ColorMode::Color => EngineColorMode::Color,
            ColorMode::Binary => EngineColorMode::Binary,
        }
    }
}

/// Distinct smoothing choices resolve to distinct engine modes: the
/// resolution is injective.
pub proof fn lemma_simplify_mode_resolution_injective(a: Mode, b: Mode)
    ensures
        simplify_mode_of(a) == simplify_mode_of(b) ==> a == b,
{
}

/// Distinct color choices resolve to distinct engine modes: the
/// resolution is injective.
pub proof fn lemma_color_mode_resolution_injective(a: ColorMode, b: ColorMode)
    ensures
        color_mode_of(a) == color_mode_of(b) ==> a == b,
{
}

/// The default smoothing choice is no simplification.
impl Default for Mode {
    fn default() -> (r: Self)
        ensures
            r == Mode::NoSimplify,
    {
        Mode::NoSimplify
    }
}

/// The default color choice is full color.
impl Default for ColorMode {
    fn default() -> (r: Self)
        ensures
            r == ColorMode::Color,
    {
        ColorMode::Color
    }
}

/// A validated invocation: the input path, the optional explicit output
/// path, the two mode choices and the eight numeric parameters, every
/// one already checked.
#[derive(Clone, Debug, PartialEq, Eq)]
pub struct Cli {
    pub input: String,
    pub output: Option<String>,
    pub color_mode: ColorMode,
    pub mode: Mode,
    pub color_precision: u32,
    pub path_precision: u32,
    pub filter_speckle: u32,
    pub corner_threshold: u32,
    pub layer_difference: u32,
    pub length_threshold_milli: u32,
    pub splice_threshold: u32,
    pub max_iterations: u32,
}

/// A path is acceptable as the raster input.
pub open spec fn input_path_ok(s: Seq<char>) -> bool {
    has_extension(s) && is_image_extension(extension_of(s))
}

/// A path is acceptable as the SVG output.
pub open spec fn output_path_ok(s: Seq<char>) -> bool {
    has_extension(s) && is_svg_extension(extension_of(s))
}

impl Cli {
    /// The numeric parameters of this invocation as a raw record, for
    /// stating that they all sit within their ranges.
    pub open spec fn raw_of(self) -> RawParams {
        RawParams {
            color_precision: self.color_precision as i64,
            path_precision: self.path_precision as i64,
            filter_speckle: self.filter_speckle as i64,
            corner_threshold: self.corner_threshold as i64,
            layer_difference: self.layer_difference as i64,
            length_threshold_milli: self.length_threshold_milli as i64,
            splice_threshold: self.splice_threshold as i64,
            max_iterations: self.max_iterations as i64,
        }
    }

    /// Well-formedness: what every constructed invocation guarantees.
    pub open spec fn wf(self) -> bool {
        &&& input_path_ok(self.input@)
        &&& (self.output matches Some(o) ==> output_path_ok(o@))
        &&& all_in_range(self.raw_of())
    }

    /// Validates raw command-line fields into an invocation record.
    ///
    /// The input extension is checked first, then the explicit output
    /// extension if one was given, then the eight numeric ranges in
    /// their table order; the first failure is reported and nothing is
    /// normalized.  Success is owed exactly when the input path names a
    /// supported image, the output path (if given) names an SVG, and
    /// every parameter is in range.
    pub fn new(
        input: String,
        output: Option<String>,
        color_mode: ColorMode,
        mode: Mode,
        raw: &RawParams,
    ) -> (r: Result<Cli, ConvertError>)
        ensures
            r is Ok <==> (input_path_ok(input@) && (output matches Some(o) ==> output_path_ok(o@))
                && all_in_range(*raw)),
            r matches Ok(c) ==> ({
                &&& c.wf()
                &&& c.input@ == input@
                &&& (match output {
                    Some(o) => c.output matches Some(co) && co@ == o@,
                    None => c.output is None,
                })
                &&& c.color_mode == color_mode
                &&& c.mode == mode
                &&& c.raw_of() == *raw
            }),
            !has_extension(input@) ==> r == Err::<Cli, ConvertError>(
                ConvertError::MissingExtension { role: PathRole::Input },
            ),
            has_extension(input@) && !is_image_extension(extension_of(input@)) ==> (r matches Err(e)
                && e matches ConvertError::InvalidExtension { role, extension } && role
                == PathRole::Input && extension@ == extension_of(input@)),
            output matches Some(o) ==> (input_path_ok(input@) && !has_extension(o@) ==> r
                == Err::<Cli, ConvertError>(
                ConvertError::MissingExtension { role: PathRole::Output },
            )),
            output matches Some(o) ==> (input_path_ok(input@) && has_extension(o@)
                && !is_svg_extension(extension_of(o@)) ==> (r matches Err(e)
                && e matches ConvertError::InvalidExtension { role, extension } && role
                == PathRole::Output && extension@ == extension_of(o@))),
            first_bad_param(*raw) matches Some(p) ==> (input_path_ok(input@) && (output matches Some(
                o,
            ) ==> output_path_ok(o@)) ==> r == Err::<Cli, ConvertError>(
                out_of_range_error(p, raw_value_of(*raw, p)),
            )),
    {
        let input_checked = match validate_image_extension(input.as_str()) {
            Ok(p) => p,
            Err(e) => {
                return Err(e);
            },
        };
        let output_checked: Option<String> = match &output {
            Some(o) => {
                match validate_svg_extension(o.as_str()) {
                    Ok(p) => Some(p),
                    Err(e) => {
                        return Err(e);
                    },
                }
            },
            None => None,
        };
        if let Err(e) = validate_params(raw) {
            return Err(e);
        }
        Ok(
            Cli {
                input: input_checked,
                output: output_checked,
                color_mode,
                mode,
                color_precision: raw.color_precision as u32,
                path_precision: raw.path_precision as u32,
                filter_speckle: raw.filter_speckle as u32,
                corner_threshold: raw.corner_threshold as u32,
                layer_difference: raw.layer_difference as u32,
                length_threshold_milli: raw.length_threshold_milli as u32,
                splice_threshold: raw.splice_threshold as u32,
                max_iterations: raw.max_iterations as u32,
            },
        )
    }

    /// The output path of this invocation: the explicit one when given
    /// (no derivation occurs), else the input path with its extension
    /// replaced by `svg`.
    pub fn get_output_path(&self) -> (r: String)
        ensures
            self.output matches Some(o) ==> r@ == o@,
            self.output is None ==> r@ == with_svg_extension(self.input@),
    {
        match &self.output {
            Some(path) => path.clone(),
            None => derive_svg_path(self.input.as_str()),
        }
    }
}

/// The configuration an invocation assembles: resolved modes, the fixed
/// stacked layering strategy, and the eight validated parameters.
pub open spec fn spec_config_of(c: Cli) -> TracingConfig {
    TracingConfig {
        color_mode: color_mode_of(c.color_mode),
        hierarchical: Hierarchical::Stacked,
        filter_speckle: c.filter_speckle,
        color_precision: c.color_precision,
        layer_difference: c.layer_difference,
        mode: simplify_mode_of(c.mode),
        corner_threshold: c.corner_threshold,
        length_threshold_milli: c.length_threshold_milli,
        max_iterations: c.max_iterations,
        splice_threshold: c.splice_threshold,
        path_precision: c.path_precision,
    }
}

impl Cli {
    /// Assembles the immutable engine configuration.  Assembly is pure
    /// and cannot fail: the invocation was validated when built.
    pub fn to_tracing_config(&self) -> (r: TracingConfig)
        ensures
            r == spec_config_of(*self),
    {
        TracingConfig {
            color_mode: self.color_mode.to_vtracer_color_mode(),
            hierarchical: Hierarchical::Stacked,
            filter_speckle: self.filter_speckle,
            color_precision: self.color_precision,
            layer_difference: self.layer_difference,
            mode: self.mode.to_path_simplify_mode(),
            corner_threshold: self.corner_threshold,
            length_threshold_milli: self.length_threshold_milli,
            max_iterations: self.max_iterations,
            splice_threshold: self.splice_threshold,
            path_precision: self.path_precision,
        }
    }
}

/// A well-formed invocation assembles a well-formed configuration: the
/// engine is never handed a value outside the documented ranges, and the
/// layering strategy is always stacked.
pub proof fn lemma_assembly_well_formed(c: Cli)
    requires
        c.wf(),
    ensures
        crate::engine::config_wf(spec_config_of(c)),
{
}

} // verus!
