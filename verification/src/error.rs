//! The error kinds a conversion run can end with.
//!
//! Every error is terminal for the invocation: nothing is retried and
//! nothing is recovered.  Each variant carries enough context (parameter
//! name, value and bounds, or the rejected extension, or the path) for the
//! user to self-correct.

use vstd::prelude::*;

verus! {

/// The role a file path plays, which decides the set of extensions
/// allowed for it: the raster input or the SVG output.
#[derive(Clone, Copy, Debug, PartialEq, Eq, Structural)]
pub enum PathRole {
    Input,
    Output,
}

/// Names one of the eight numeric conversion parameters.
#[derive(Clone, Copy, Debug, PartialEq, Eq, Structural)]
pub enum Param {
    ColorPrecision,
    PathPrecision,
    FilterSpeckle,
    CornerThreshold,
    LayerDifference,
    LengthThreshold,
    SpliceThreshold,
    MaxIterations,
}

/// Why a conversion run stopped.
#[derive(Clone, Debug, PartialEq, Eq)]
pub enum ConvertError {
    /// The path has no `.` at all, so no extension could be read.
    MissingExtension { role: PathRole },
    /// The path's extension is not in the set allowed for its role.
    /// `extension` is the rejected extension as it appeared in the path.
    InvalidExtension { role: PathRole, extension: String },
    /// A numeric parameter fell outside its closed range.
    ParameterOutOfRange { param: Param, value: i64, min: i64, max: i64 },
    /// The input path does not exist on the filesystem.
    InputNotFound { path: String },
    /// The tracing engine reported a failure, surfaced verbatim.
    ConversionFailed { message: String },
}

} // verus!
