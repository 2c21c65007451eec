//! Range validation of the eight numeric conversion parameters.
//!
//! Each parameter has an independent closed range, checked before any
//! value is used.  The length threshold is conceptually a fractional
//! quantity; the library holds it in thousandths of an engine unit, so
//! its range 0.0 ..= 10.0 becomes 0 ..= 10000 here.

use vstd::prelude::*;

use crate::error::{ConvertError, Param};

verus! {

/// The raw numeric parameter values as handed in from the command line,
/// before any range has been checked.  `length_threshold_milli` is the
/// length threshold in thousandths of an engine unit.
#[derive(Clone, Copy, Debug, PartialEq, Eq, Structural)]
pub struct RawParams {
    pub color_precision: i64,
    pub path_precision: i64,
    pub filter_speckle: i64,
    pub corner_threshold: i64,
    pub layer_difference: i64,
    pub length_threshold_milli: i64,
    pub splice_threshold: i64,
    pub max_iterations: i64,
}

/// The inclusive lower bound of a parameter's range.
pub open spec fn min_of(p: Param) -> i64 {
    match p {
        Param::ColorPrecision => 0,
        Param::PathPrecision => 1,
        Param::FilterSpeckle => 0,
        Param::CornerThreshold => 0,
        Param::LayerDifference => 1,
        Param::LengthThreshold => 0,
        Param::SpliceThreshold => 0,
        Param::MaxIterations => 1,
    }
}

/// The inclusive upper bound of a parameter's range.
pub open spec fn max_of(p: Param) -> i64 {
    match p {
        Param::ColorPrecision => 255,
        Param::PathPrecision => 20,
        Param::FilterSpeckle => 10,
        Param::CornerThreshold => 180,
        Param::LayerDifference => 255,
        Param::LengthThreshold => 10000,
        Param::SpliceThreshold => 180,
        Param::MaxIterations => 100,
    }
}

/// The value a raw parameter record holds for a given parameter.
pub open spec fn raw_value_of(r: RawParams, p: Param) -> i64 {
    match p {
        Param::ColorPrecision => r.color_precision,
        Param::PathPrecision => r.path_precision,
        Param::FilterSpeckle => r.filter_speckle,
        Param::CornerThreshold => r.corner_threshold,
        Param::LayerDifference => r.layer_difference,
        Param::LengthThreshold => r.length_threshold_milli,
        Param::SpliceThreshold => r.splice_threshold,
        Param::MaxIterations => r.max_iterations,
    }
}

/// A value lies within a parameter's closed range.
pub open spec fn param_in_range(p: Param, v: i64) -> bool {
    min_of(p) <= v <= max_of(p)
}

/// Every one of the eight parameters lies within its range.
pub open spec fn all_in_range(r: RawParams) -> bool {
    &&& param_in_range(Param::ColorPrecision, r.color_precision)
    &&& param_in_range(Param::PathPrecision, r.path_precision)
    &&& param_in_range(Param::FilterSpeckle, r.filter_speckle)
    &&& param_in_range(Param::CornerThreshold, r.corner_threshold)
    &&& param_in_range(Param::LayerDifference, r.layer_difference)
    &&& param_in_range(Param::LengthThreshold, r.length_threshold_milli)
    &&& param_in_range(Param::SpliceThreshold, r.splice_threshold)
    &&& param_in_range(Param::MaxIterations, r.max_iterations)
}

/// The first parameter, in the documented table order, whose value falls
/// outside its range; `None` when all eight are in range.
pub open spec fn first_bad_param(r: RawParams) -> Option<Param> {
    if !param_in_range(Param::ColorPrecision, r.color_precision) {
        Some(Param::ColorPrecision)
    } else if !param_in_range(Param::PathPrecision, r.path_precision) {
        Some(Param::PathPrecision)
    } else if !param_in_range(Param::FilterSpeckle, r.filter_speckle) {
        Some(Param::FilterSpeckle)
    } else if !param_in_range(Param::CornerThreshold, r.corner_threshold) {
        Some(Param::CornerThreshold)
    } else if !param_in_range(Param::LayerDifference, r.layer_difference) {
        Some(Param::LayerDifference)
    } else if !param_in_range(Param::LengthThreshold, r.length_threshold_milli) {
        Some(Param::LengthThreshold)
    } else if !param_in_range(Param::SpliceThreshold, r.splice_threshold) {
        Some(Param::SpliceThreshold)
    } else if !param_in_range(Param::MaxIterations, r.max_iterations) {
        Some(Param::MaxIterations)
    } else {
        None
    }
}

/// The exact error a parameter out of range is reported with.
pub open spec fn out_of_range_error(p: Param, v: i64) -> ConvertError {
    ConvertError::ParameterOutOfRange { param: p, value: v, min: min_of(p), max: max_of(p) }
}

/// The inclusive bounds of a parameter's range, as runtime values.
pub fn bounds_of(p: Param) -> (r: (i64, i64))
    ensures
        r.0 == min_of(p),
        r.1 == max_of(p),
{
    match p {
        Param::ColorPrecision => (0, 255),
        Param::PathPrecision => (1, 20),
        Param::FilterSpeckle => (0, 10),
        Param::CornerThreshold => (0, 180),
        Param::LayerDifference => (1, 255),
        Param::LengthThreshold => (0, 10000),
        Param::SpliceThreshold => (0, 180),
        Param::MaxIterations => (1, 100),
    }
}

/// Checks one parameter value against its closed range.  Accepts exactly
/// the values inside the range; a rejected value is reported with the
/// parameter's name, the value, and both bounds.
pub fn check_param(p: Param, value: i64) -> (r: Result<(), ConvertError>)
    ensures
        r is Ok <==> param_in_range(p, value),
        r matches Err(e) ==> e == out_of_range_error(p, value),
{
    let (min, max) = bounds_of(p);
    if min <= value && value <= max {
        Ok(())
    } else {
        Err(ConvertError::ParameterOutOfRange { param: p, value, min, max })
    }
}

/// Checks all eight parameters, in the documented table order.  Accepts
/// exactly when every value is in range; otherwise reports the first
/// parameter out of range.  No parameter is used before all are checked.
pub fn validate_params(raw: &RawParams) -> (r: Result<(), ConvertError>)
    ensures
        r is Ok <==> all_in_range(*raw),
        r matches Err(e) ==> (first_bad_param(*raw) matches Some(p) && e
            == out_of_range_error(p, raw_value_of(*raw, p))),
{
    if let Err(e) = check_param(Param::ColorPrecision, raw.color_precision) {
        return Err(e);
    }
    if let Err(e) = check_param(Param::PathPrecision, raw.path_precision) {
        return Err(e);
    }
    if let Err(e) = check_param(Param::FilterSpeckle, raw.filter_speckle) {
        return Err(e);
    }
    if let Err(e) = check_param(Param::CornerThreshold, raw.corner_threshold) {
        return Err(e);
    }
    if let Err(e) = check_param(Param::LayerDifference, raw.layer_difference) {
        return Err(e);
    }
    if let Err(e) = check_param(Param::LengthThreshold, raw.length_threshold_milli) {
        return Err(e);
    }
    if let Err(e) = check_param(Param::SpliceThreshold, raw.splice_threshold) {
        return Err(e);
    }
    if let Err(e) = check_param(Param::MaxIterations, raw.max_iterations) {
        return Err(e);
    }
    Ok(())
}

/// The documented default value of each parameter: color precision 8,
/// path precision 10, filter speckle 1, corner threshold 20, layer
/// difference 5, length threshold 1.0 (a thousand thousandths), splice
/// threshold 20, max iterations 20.
pub open spec fn default_params() -> RawParams {
    RawParams {
        color_precision: 8,
        path_precision: 10,
        filter_speckle: 1,
        corner_threshold: 20,
        layer_difference: 5,
        length_threshold_milli: 1000,
        splice_threshold: 20,
        max_iterations: 20,
    }
}

/// The defaults from the documented table.
impl Default for RawParams {
    fn default() -> (r: Self)
        ensures
            r == default_params(),
    {
        RawParams {
            color_precision: 8,
            path_precision: 10,
            filter_speckle: 1,
            corner_threshold: 20,
            layer_difference: 5,
            length_threshold_milli: 1000,
            splice_threshold: 20,
            max_iterations: 20,
        }
    }
}

/// The defaults are themselves a legal parameter record: every default
/// value lies within its parameter's range.
pub proof fn lemma_defaults_in_range()
    ensures
        all_in_range(default_params()),
{
}

} // verus!
