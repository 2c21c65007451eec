//! The tracing engine's side of the configuration contract.
//!
//! The engine itself is an external collaborator; the library only
//! guarantees what reaches it.  These types mirror the engine's
//! configuration record as plain values: the enumerations it selects by
//! and the eight numeric parameters.  The length threshold is held in
//! thousandths of an engine unit.

use vstd::prelude::*;

use crate::error::Param;
use crate::params::param_in_range;

verus! {

/// The engine's color mode: full color or black-and-white tracing.
#[derive(Clone, Copy, Debug, PartialEq, Eq, Structural)]
pub enum ColorMode {
    Color,
    Binary,
}

/// The engine's path-smoothing strategy.
#[derive(Clone, Copy, Debug, PartialEq, Eq, Structural)]
pub enum PathSimplifyMode {
    NoSimplify,
    Polygon,
    Spline,
}

/// The engine's layering strategy for stacking color layers.
#[derive(Clone, Copy, Debug, PartialEq, Eq, Structural)]
pub enum Hierarchical {
    Stacked,
    Cutout,
}

/// The assembled, validated configuration passed to the engine.  Once
/// built it is never mutated: a pure value object.
#[derive(Clone, Copy, Debug, PartialEq, Eq, Structural)]
pub struct TracingConfig {
    pub color_mode: ColorMode,
    pub hierarchical: Hierarchical,
    pub filter_speckle: u32,
    pub color_precision: u32,
    pub layer_difference: u32,
    pub mode: PathSimplifyMode,
    pub corner_threshold: u32,
    pub length_threshold_milli: u32,
    pub max_iterations: u32,
    pub splice_threshold: u32,
    pub path_precision: u32,
}

/// What the engine is promised of any configuration that reaches it:
/// every numeric field within its documented range, and the layering
/// strategy fixed to stacked.
pub open spec fn config_wf(c: TracingConfig) -> bool {
    &&& c.hierarchical == Hierarchical::Stacked
    &&& param_in_range(Param::ColorPrecision, c.color_precision as i64)
    &&& param_in_range(Param::PathPrecision, c.path_precision as i64)
    &&& param_in_range(Param::FilterSpeckle, c.filter_speckle as i64)
    &&& param_in_range(Param::CornerThreshold, c.corner_threshold as i64)
    &&& param_in_range(Param::LayerDifference, c.layer_difference as i64)
    &&& param_in_range(Param::LengthThreshold, c.length_threshold_milli as i64)
    &&& param_in_range(Param::SpliceThreshold, c.splice_threshold as i64)
    &&& param_in_range(Param::MaxIterations, c.max_iterations as i64)
}

} // verus!
