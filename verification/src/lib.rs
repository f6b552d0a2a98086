//! Parallel frame-capture-and-encode pipeline for parametric animations.
//!
//! A composition (a parametric animation bundle) is rendered frame by frame:
//! a frame range is split across workers, each worker drives one isolated
//! render surface through a prepare/set-frame/capture cycle, captured frames
//! are resequenced into ascending index order by an aggregation sink, and an
//! encoder adapter turns the ordered frame stream into a video artifact.
//!
//! Everything that decides or computes lives here, verified; the host binary
//! only performs the surrounding I/O (browser, file system, encoder process).

pub mod composition;
pub mod encoder;
pub mod errors;
pub mod ffmpeg;
pub mod frame;
pub mod ipc;
pub mod partition;
pub mod scripts;
pub mod sink;
pub mod surface;
pub mod utils;
pub mod worker;

use vstd::prelude::*;

verus! {

use crate::errors::ConfigError;
use crate::partition::FrameRange;

/// Options a caller hands to a render run, validated before any worker
/// starts.
pub struct RenderOptions {
    /// Path of the bundle directory that the render surfaces load.
    pub bundle: String,
    /// Path of the video artifact to produce.
    pub output: String,
    /// Identifier of the composition to render.
    pub composition: String,
    /// Serialized props overriding the composition's defaults, if any.
    pub props: Option<String>,
    /// Explicit frame range `(start, end)`; an end of `0` stands for the
    /// composition's full frame count.
    pub frames: Option<(u32, u32)>,
}

/// Turns the optional `(start, end)` pair of [`RenderOptions::frames`] into
/// the concrete half-open range to render.
///
/// Absent options render the whole composition; an explicit end of `0` is a
/// sentinel for `total_frames`, never a zero-length range. A range that
/// contains no frame is rejected before any resource is allocated.
pub fn resolve_frame_range(frames: Option<(u32, u32)>, total_frames: u32) -> (r: Result<
    FrameRange,
    ConfigError,
>)
    ensures
        match r {
            Ok(range) => {
                &&& range.start < range.end
                &&& range.start == spec_requested_start(frames)
                &&& range.end == spec_resolved_end(frames, total_frames)
            },
            Err(e) => {
                &&& e is EmptyFrameRange
                &&& spec_requested_start(frames) >= spec_resolved_end(frames, total_frames)
            },
        },
{
    let (start, end_raw) = match frames {
        Some(pair) => pair,
        None => (0u32, 0u32),
    };
    let end = if end_raw == 0 {
        total_frames
    } else {
        end_raw
    };
    if start >= end {
        Err(ConfigError::EmptyFrameRange { start, end })
    } else {
        Ok(FrameRange { start, end })
    }
}

/// Resolves the requested frame range against the composition's frame
/// count and splits it across `worker_count` workers: everything a render
/// run decides before any surface is launched.
///
/// Fails fast — before any worker is spawned or resource allocated — when
/// the resolved range contains no frame.
pub fn plan_render(total_frames: u32, frames: Option<(u32, u32)>, worker_count: u32) -> (r: Result<
    (partition::FrameRange, Vec<partition::FrameRange>),
    ConfigError,
>)
    requires
        worker_count >= 1,
    ensures
        match r {
            Ok(plan) => {
                &&& plan.0.start < plan.0.end
                &&& plan.0.start == spec_requested_start(frames)
                &&& plan.0.end == spec_resolved_end(frames, total_frames)
                &&& partition::is_partition_of(plan.1@, plan.0, worker_count)
                &&& forall|k: int| 0 <= k < plan.1@.len() ==> (#[trigger] plan.1@[k]).wf()
            },
            Err(e) => {
                &&& e is EmptyFrameRange
                &&& spec_requested_start(frames) >= spec_resolved_end(frames, total_frames)
            },
        },
{
    let range = match resolve_frame_range(frames, total_frames) {
        Ok(range) => range,
        Err(e) => {
            return Err(e);
        },
    };
    let parts = partition::partition(range, worker_count);
    Ok((range, parts))
}

/// The frame index a requested range starts at: `0` when no range was given.
pub open spec fn spec_requested_start(frames: Option<(u32, u32)>) -> u32 {
    match frames {
        Some(pair) => pair.0,
        None => 0u32,
    }
}

/// The frame index a requested range ends before, after resolving the `0`
/// sentinel to the composition's frame count.
pub open spec fn spec_resolved_end(frames: Option<(u32, u32)>, total_frames: u32) -> u32 {
    match frames {
        Some(pair) => if pair.1 == 0 {
            total_frames
        } else {
            pair.1
        },
        None => total_frames,
    }
}

} // verus!
