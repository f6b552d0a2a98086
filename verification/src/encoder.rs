//! The encoder adapter: the decisions of the batch encoding strategy.
//!
//! Frames arrive from the aggregation sink in ascending index order; each
//! is validated against the composition's dimensions and assigned its
//! scratch file name, and closing the stream yields either the external
//! encoder invocation or the error the stream is owed. The host only
//! writes the named files and spawns the process.

use vstd::prelude::*;

verus! {

use crate::errors::EncodeError;
use crate::ffmpeg::{
    encode_args, frame_file_name, frame_pattern, spec_encode_args, spec_frame_file_name,
    spec_frame_pattern, string_views,
};
use crate::frame::CapturedFrame;

/// Consumes an ordered frame stream and prepares the encoding of a video
/// artifact keyed by the composition's width, height and frame rate.
pub struct EncoderAdapter {
    width: u32,
    height: u32,
    fps: u32,
    frames_ingested: u64,
    last_index: Option<u32>,
}

impl EncoderAdapter {
    /// Width in pixels every ingested frame must match.
    pub closed spec fn spec_width(self) -> u32 {
        self.width
    }

    /// Height in pixels every ingested frame must match.
    pub closed spec fn spec_height(self) -> u32 {
        self.height
    }

    /// Frame rate of the artifact.
    pub closed spec fn spec_fps(self) -> u32 {
        self.fps
    }

    /// How many frames were ingested so far.
    pub closed spec fn spec_frames_ingested(self) -> int {
        self.frames_ingested as int
    }

    /// The index of the last ingested frame, if any.
    pub closed spec fn spec_last_index(self) -> Option<u32> {
        self.last_index
    }

    /// The byte length a raster of the adapter's dimensions must have, at
    /// four bytes per pixel.
    pub open spec fn spec_expected_len(self) -> int {
        4 * self.spec_width() * self.spec_height()
    }

    /// The adapter's internal invariant.
    pub closed spec fn wf(self) -> bool {
        &&& self.width >= 1
        &&& self.height >= 1
        &&& self.fps >= 1
        &&& match self.last_index {
            None => self.frames_ingested == 0,
            Some(l) => 1 <= self.frames_ingested <= l + 1,
        }
    }

    /// A fresh adapter for an artifact of the given dimensions and frame
    /// rate.
    pub fn new(width: u32, height: u32, fps: u32) -> (r: EncoderAdapter)
        requires
            width >= 1,
            height >= 1,
            fps >= 1,
        ensures
            r.wf(),
            r.spec_width() == width,
            r.spec_height() == height,
            r.spec_fps() == fps,
            r.spec_frames_ingested() == 0,
            r.spec_last_index() is None,
    {
        EncoderAdapter { width, height, fps, frames_ingested: 0, last_index: None }
    }

    /// Accepts the next frame of the ordered stream and names the scratch
    /// file the host must write its bytes to.
    ///
    /// A pixel buffer that does not match `width * height` pixels at four
    /// bytes each is rejected as malformed and leaves the adapter
    /// unchanged.
    pub fn ingest(&mut self, frame: &CapturedFrame) -> (r: Result<String, EncodeError>)
        requires
            old(self).wf(),
            match old(self).spec_last_index() {
                None => true,
                Some(l) => frame.index > l,
            },
        ensures
            final(self).wf(),
            final(self).spec_width() == old(self).spec_width(),
            final(self).spec_height() == old(self).spec_height(),
            final(self).spec_fps() == old(self).spec_fps(),
            r is Ok <==> frame.pixels@.len() == old(self).spec_expected_len(),
            match r {
                Ok(name) => {
                    &&& name@ == spec_frame_file_name(frame.index as int)
                    &&& final(self).spec_frames_ingested() == old(self).spec_frames_ingested() + 1
                    &&& final(self).spec_last_index() == Some(frame.index)
                },
                Err(e) => {
                    &&& (e matches EncodeError::MalformedFrame { index, width, height, actual_len }
                        && index == frame.index && width == old(self).spec_width() && height == old(
                        self,
                    ).spec_height() && actual_len == frame.pixels@.len())
                    &&& *final(self) == *old(self)
                },
            },
    {
        proof {
            assert((4 * (self.width as int)) * (self.height as int) <= 4 * 0xffff_ffff
                * 0xffff_ffff) by (nonlinear_arith)
                requires
                    self.width as int <= 0xffff_ffff,
                    0 <= self.height as int <= 0xffff_ffff,
            ;
        }
        let expected: u128 = 4u128 * (self.width as u128) * (self.height as u128);
        if (frame.pixels.len() as u128) != expected {
            return Err(
                EncodeError::MalformedFrame {
                    index: frame.index,
                    width: self.width,
                    height: self.height,
                    actual_len: frame.pixels.len(),
                },
            );
        }
        self.frames_ingested = self.frames_ingested + 1;
        self.last_index = Some(frame.index);
        Ok(frame_file_name(frame.index))
    }

    /// Closes the stream: an empty stream is an error, otherwise the
    /// result is the exact external encoder invocation over the scratch
    /// directory, producing `output` at the adapter's frame rate.
    pub fn finish(&self, scratch_dir: &str, output: &str) -> (r: Result<Vec<String>, EncodeError>)
        requires
            self.wf(),
        ensures
            r is Ok <==> self.spec_frames_ingested() > 0,
            match r {
                Ok(args) => string_views(args@) == spec_encode_args(
                    self.spec_fps() as int,
                    spec_frame_pattern(scratch_dir@),
                    output@,
                ),
                Err(e) => e is NoFrames,
            },
    {
        if self.frames_ingested == 0 {
            return Err(EncodeError::NoFrames);
        }
        let pattern = frame_pattern(scratch_dir);
        Ok(encode_args(self.fps, pattern.as_str(), output))
    }
}

} // verus!
