//! Captured frames and their pixel formats.

use vstd::prelude::*;

verus! {

/// Byte order of a raster's four channels.
#[derive(Debug, Clone, Copy, PartialEq, Eq, Structural)]
pub enum PixelFormat {
    Rgba,
    Bgra,
}

/// One captured raster, tagged with the frame index it belongs to.
///
/// A frame is produced by exactly one capture worker and never mutated after
/// capture; pushing it into the aggregation sink transfers ownership to the
/// sink and, from there, to the encoder.
#[derive(Debug, Clone, PartialEq, Eq)]
pub struct CapturedFrame {
    /// Index of the frame within the composition.
    pub index: u32,
    /// Raw pixel bytes, four per pixel.
    pub pixels: Vec<u8>,
    /// Channel order of `pixels`.
    pub format: PixelFormat,
}

/// The mathematical content of a captured frame.
pub struct FrameView {
    pub index: u32,
    pub pixels: Seq<u8>,
    pub format: PixelFormat,
}

impl View for CapturedFrame {
    type V = FrameView;

    open spec fn view(&self) -> FrameView {
        FrameView { index: self.index, pixels: self.pixels@, format: self.format }
    }
}

} // verus!
