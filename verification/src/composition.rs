//! The immutable render contract of one composition.

use vstd::prelude::*;

verus! {

use crate::errors::ConfigError;

/// Metadata of one composition, fetched once from the loaded bundle before
/// any capture worker starts and read-only afterwards.
#[derive(Debug, Clone, PartialEq, Eq)]
pub struct Composition {
    /// Identifier the bundle knows the composition by.
    pub id: String,
    /// Frames per second of the finished video.
    pub fps: u32,
    /// Viewport width in pixels.
    pub width: u32,
    /// Viewport height in pixels.
    pub height: u32,
    /// Number of frames the full composition spans.
    pub duration_in_frames: u32,
    /// Serialized props resolved against the composition's schema.
    pub serialized_resolved_props_with_custom_schema: String,
    /// Serialized default props of the composition.
    pub serialized_default_props_with_custom_schema: String,
}

impl Composition {
    /// A composition a render run can work with: a non-zero viewport and a
    /// non-zero frame rate (frame timing divides by `fps`).
    pub open spec fn wf(self) -> bool {
        &&& self.fps >= 1
        &&& self.width >= 1
        &&& self.height >= 1
    }

    /// Whether this composition can be rendered; see [`Composition::wf`].
    pub fn is_renderable(&self) -> (r: bool)
        ensures
            r == self.wf(),
    {
        self.fps >= 1 && self.width >= 1 && self.height >= 1
    }
}

/// Reads the outcome of looking a composition up in the loaded bundle: a
/// bundle that knows no composition under `id` answers the query with no
/// value, which is the unknown-composition error; otherwise the serialized
/// record is passed through for deserialization.
pub fn composition_lookup_result(id: &str, raw: Option<String>) -> (r: Result<String, ConfigError>)
    ensures
        match r {
            Ok(s) => raw matches Some(v) && s == v,
            Err(e) => raw is None && (e matches ConfigError::UnknownComposition { id: missing }
                && missing@ == id@),
        },
{
    match raw {
        Some(s) => Ok(s),
        None => Err(ConfigError::UnknownComposition { id: id.to_owned() }),
    }
}

} // verus!
