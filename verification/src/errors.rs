//! Error taxonomy of the render pipeline.
//!
//! A `SurfaceError` aborts only the worker it hit and is aggregated into the
//! run's result; an `OrderingError` or `EncodeError` is fatal to the whole
//! render; a `ConfigError` is detected before any worker is spawned.

use vstd::prelude::*;

verus! {

/// A failure of one render surface: launching it, navigating it, evaluating
/// a script on it, or capturing its raster.
#[derive(Debug, Clone, PartialEq, Eq)]
pub enum SurfaceError {
    /// The surface process could not be launched.
    Launch { message: String },
    /// The surface did not reach the bundle page.
    Navigate { message: String },
    /// A script sent to the surface failed to run.
    Evaluate { message: String },
    /// The surface did not hand back a raster.
    Capture { message: String },
}

/// A violation of the strict frame order the encoder must observe.
#[derive(Debug, Clone, PartialEq, Eq)]
pub enum OrderingError {
    /// A frame index arrived a second time.
    Duplicate { index: u32 },
    /// Frame indices were still missing when the stream was finalized.
    Gap { missing: Vec<u32> },
}

/// A failure of the encoding stage.
#[derive(Debug, Clone, PartialEq, Eq)]
pub enum EncodeError {
    /// The stream was closed without a single frame.
    NoFrames,
    /// The external encoder process exited with a non-zero status.
    ToolFailure { stderr: String },
    /// A frame's pixel buffer does not match the composition's dimensions
    /// at four bytes per pixel.
    MalformedFrame { index: u32, width: u32, height: u32, actual_len: usize },
}

/// A configuration problem, rejected before any resource is allocated.
#[derive(Debug, Clone, PartialEq, Eq)]
pub enum ConfigError {
    /// The bundle directory does not exist.
    MissingBundle { path: String },
    /// The bundle knows no composition under the requested identifier.
    UnknownComposition { id: String },
    /// The requested frame range contains no frame.
    EmptyFrameRange { start: u32, end: u32 },
}

} // verus!
