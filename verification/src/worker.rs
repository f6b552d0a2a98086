//! The capture worker's control logic, as a pure state machine.
//!
//! A worker owns one render surface and walks it through launch, navigation,
//! composition preparation and the capture of its assigned sub-range, in
//! ascending frame order. The host performs each requested action on the
//! real surface and feeds the outcome back as an event; every decision —
//! what to do next, when to retry a frame once, when to give up, which
//! frames were never produced — is made here.

use vstd::prelude::*;

verus! {

use crate::errors::SurfaceError;
use crate::partition::FrameRange;

/// Where a worker stands in its protocol.
#[derive(Debug)]
pub enum WorkerPhase {
    /// Waiting for its render surface to launch.
    Launching,
    /// Waiting for the surface to reach the bundle page.
    Navigating,
    /// Waiting for the prepare-composition command to complete.
    Preparing,
    /// Capturing frame `next`; `retried` records whether this frame already
    /// failed once.
    Capturing { next: u32, retried: bool },
    /// The whole sub-range was captured and emitted.
    Done,
    /// The worker aborted; the frames of `undone` were never produced.
    Failed { error: SurfaceError, undone: FrameRange },
}

/// One worker's state: its assigned sub-range and its current phase.
#[derive(Debug)]
pub struct WorkerState {
    pub range: FrameRange,
    pub phase: WorkerPhase,
}

/// The outcome of performing a worker's requested action on the real
/// surface.
#[derive(Debug)]
pub enum WorkerEvent {
    SurfaceLaunched,
    LaunchFailed { message: String },
    PageLoaded,
    LoadFailed { message: String },
    CompositionPrepared,
    PrepareFailed { message: String },
    FrameCaptured,
    CaptureFailed { message: String },
}

/// What the host must do next with the worker's surface.
#[derive(Debug, Clone, Copy, PartialEq, Eq, Structural)]
pub enum WorkerAction {
    /// Nothing: the worker has an empty sub-range and no surface is ever
    /// launched for it.
    Skip,
    /// Launch a fresh surface sized to the composition.
    LaunchSurface,
    /// Navigate the surface to the bundle and await the load signal.
    Navigate,
    /// Send the prepare-composition command and await its completion.
    PrepareComposition,
    /// Set frame `index`, await the paint signal, capture the raster.
    CaptureFrame { index: u32 },
    /// Hand the raster just captured to the sink as frame `emit`, then
    /// capture frame `capture`.
    EmitThenCapture { emit: u32, capture: u32 },
    /// Hand the raster just captured to the sink as frame `emit`, then
    /// release the surface: the sub-range is complete.
    EmitThenRelease { emit: u32 },
    /// Release the surface and surface the worker's error to the
    /// coordinator.
    ReportFailure,
}

impl WorkerState {
    /// The worker invariant: the capture position stays inside the
    /// sub-range, a surface-owning phase implies a non-empty sub-range, and
    /// a failed worker's undone frames are a suffix of its sub-range.
    pub open spec fn wf(self) -> bool {
        &&& self.range.wf()
        &&& match self.phase {
            WorkerPhase::Launching | WorkerPhase::Navigating | WorkerPhase::Preparing => self.range.start
                < self.range.end,
            WorkerPhase::Capturing { next, retried } => self.range.start <= next
                < self.range.end,
            WorkerPhase::Done => true,
            WorkerPhase::Failed { error, undone } => {
                &&& undone.wf()
                &&& self.range.start <= undone.start
                &&& undone.end == self.range.end
            },
        }
    }

    /// Whether `event` is an answer the worker's current phase awaits.
    pub open spec fn accepts(self, event: WorkerEvent) -> bool {
        match self.phase {
            WorkerPhase::Launching => event is SurfaceLaunched || event is LaunchFailed,
            WorkerPhase::Navigating => event is PageLoaded || event is LoadFailed,
            WorkerPhase::Preparing => event is CompositionPrepared || event is PrepareFailed,
            WorkerPhase::Capturing { next, retried } => event is FrameCaptured
                || event is CaptureFailed,
            WorkerPhase::Done => false,
            WorkerPhase::Failed { error, undone } => false,
        }
    }
}

/// The starting state and first action of a worker assigned `range`.
///
/// A worker with an empty sub-range is complete at once and asks for
/// nothing: no surface is launched for it.
pub open spec fn spec_init_worker(range: FrameRange) -> (WorkerState, WorkerAction) {
    if range.start == range.end {
        (WorkerState { range, phase: WorkerPhase::Done }, WorkerAction::Skip)
    } else {
        (WorkerState { range, phase: WorkerPhase::Launching }, WorkerAction::LaunchSurface)
    }
}

/// See [`spec_init_worker`].
pub fn init_worker(range: FrameRange) -> (r: (WorkerState, WorkerAction))
    requires
        range.wf(),
    ensures
        r == spec_init_worker(range),
        r.0.wf(),
{
    if range.start == range.end {
        (WorkerState { range, phase: WorkerPhase::Done }, WorkerAction::Skip)
    } else {
        (WorkerState { range, phase: WorkerPhase::Launching }, WorkerAction::LaunchSurface)
    }
}

/// The worker protocol's transition function.
///
/// Launch, navigation and preparation failures abort the worker outright;
/// a frame capture may fail once and is retried, a second failure on the
/// same frame aborts the worker. Captured frames are emitted in ascending
/// index order, and an aborting worker records exactly the suffix of its
/// sub-range that was never produced.
pub open spec fn spec_step_worker(state: WorkerState, event: WorkerEvent) -> (WorkerState,
    WorkerAction) {
    let range = state.range;
    match state.phase {
        WorkerPhase::Launching => match event {
            WorkerEvent::SurfaceLaunched => (
                WorkerState { range, phase: WorkerPhase::Navigating },
                WorkerAction::Navigate,
            ),
            WorkerEvent::LaunchFailed { message } => (
                WorkerState {
                    range,
                    phase: WorkerPhase::Failed {
                        error: SurfaceError::Launch { message },
                        undone: range,
                    },
                },
                WorkerAction::ReportFailure,
            ),
            _ => (state, WorkerAction::Skip),
        },
        WorkerPhase::Navigating => match event {
            WorkerEvent::PageLoaded => (
                WorkerState { range, phase: WorkerPhase::Preparing },
                WorkerAction::PrepareComposition,
            ),
            WorkerEvent::LoadFailed { message } => (
                WorkerState {
                    range,
                    phase: WorkerPhase::Failed {
                        error: SurfaceError::Navigate { message },
                        undone: range,
                    },
                },
                WorkerAction::ReportFailure,
            ),
            _ => (state, WorkerAction::Skip),
        },
        WorkerPhase::Preparing => match event {
            WorkerEvent::CompositionPrepared => (
                WorkerState {
                    range,
                    phase: WorkerPhase::Capturing { next: range.start, retried: false },
                },
                WorkerAction::CaptureFrame { index: range.start },
            ),
            WorkerEvent::PrepareFailed { message } => (
                WorkerState {
                    range,
                    phase: WorkerPhase::Failed {
                        error: SurfaceError::Evaluate { message },
                        undone: range,
                    },
                },
                WorkerAction::ReportFailure,
            ),
            _ => (state, WorkerAction::Skip),
        },
        WorkerPhase::Capturing { next, retried } => match event {
            WorkerEvent::FrameCaptured => if next + 1 < range.end {
                (
                    WorkerState {
                        range,
                        phase: WorkerPhase::Capturing { next: (next + 1) as u32, retried: false },
                    },
                    WorkerAction::EmitThenCapture { emit: next, capture: (next + 1) as u32 },
                )
            } else {
                (
                    WorkerState { range, phase: WorkerPhase::Done },
                    WorkerAction::EmitThenRelease { emit: next },
                )
            },
            WorkerEvent::CaptureFailed { message } => if !retried {
                (
                    WorkerState { range, phase: WorkerPhase::Capturing { next, retried: true } },
                    WorkerAction::CaptureFrame { index: next },
                )
            } else {
                (
                    WorkerState {
                        range,
                        phase: WorkerPhase::Failed {
                            error: SurfaceError::Capture { message },
                            undone: FrameRange { start: next, end: range.end },
                        },
                    },
                    WorkerAction::ReportFailure,
                )
            },
            _ => (state, WorkerAction::Skip),
        },
        WorkerPhase::Done => (state, WorkerAction::Skip),
        WorkerPhase::Failed { error, undone } => (state, WorkerAction::Skip),
    }
}

/// See [`spec_step_worker`].
pub fn step_worker(state: WorkerState, event: WorkerEvent) -> (r: (WorkerState, WorkerAction))
    requires
        state.wf(),
        state.accepts(event),
    ensures
        r == spec_step_worker(state, event),
        r.0.wf(),
        r.0.range == state.range,
{
    let WorkerState { range, phase } = state;
    match phase {
        WorkerPhase::Launching => match event {
            WorkerEvent::SurfaceLaunched => (
                WorkerState { range, phase: WorkerPhase::Navigating },
                WorkerAction::Navigate,
            ),
            WorkerEvent::LaunchFailed { message } => (
                WorkerState {
                    range,
                    phase: WorkerPhase::Failed {
                        error: SurfaceError::Launch { message },
                        undone: range,
                    },
                },
                WorkerAction::ReportFailure,
            ),
            _ => (WorkerState { range, phase: WorkerPhase::Launching }, WorkerAction::Skip),
        },
        WorkerPhase::Navigating => match event {
            WorkerEvent::PageLoaded => (
                WorkerState { range, phase: WorkerPhase::Preparing },
                WorkerAction::PrepareComposition,
            ),
            WorkerEvent::LoadFailed { message } => (
                WorkerState {
                    range,
                    phase: WorkerPhase::Failed {
                        error: SurfaceError::Navigate { message },
                        undone: range,
                    },
                },
                WorkerAction::ReportFailure,
            ),
            _ => (WorkerState { range, phase: WorkerPhase::Navigating }, WorkerAction::Skip),
        },
        WorkerPhase::Preparing => match event {
            WorkerEvent::CompositionPrepared => (
                WorkerState {
                    range,
                    phase: WorkerPhase::Capturing { next: range.start, retried: false },
                },
                WorkerAction::CaptureFrame { index: range.start },
            ),
            WorkerEvent::PrepareFailed { message } => (
                WorkerState {
                    range,
                    phase: WorkerPhase::Failed {
                        error: SurfaceError::Evaluate { message },
                        undone: range,
                    },
                },
                WorkerAction::ReportFailure,
            ),
            _ => (WorkerState { range, phase: WorkerPhase::Preparing }, WorkerAction::Skip),
        },
        WorkerPhase::Capturing { next, retried } => match event {
            WorkerEvent::FrameCaptured => if next + 1 < range.end {
                (
                    WorkerState {
                        range,
                        phase: WorkerPhase::Capturing { next: next + 1, retried: false },
                    },
                    WorkerAction::EmitThenCapture { emit: next, capture: next + 1 },
                )
            } else {
                (
                    WorkerState { range, phase: WorkerPhase::Done },
                    WorkerAction::EmitThenRelease { emit: next },
                )
            },
            WorkerEvent::CaptureFailed { message } => if !retried {
                (
                    WorkerState { range, phase: WorkerPhase::Capturing { next, retried: true } },
                    WorkerAction::CaptureFrame { index: next },
                )
            } else {
                (
                    WorkerState {
                        range,
                        phase: WorkerPhase::Failed {
                            error: SurfaceError::Capture { message },
                            undone: FrameRange { start: next, end: range.end },
                        },
                    },
                    WorkerAction::ReportFailure,
                )
            },
            _ => (
                WorkerState { range, phase: WorkerPhase::Capturing { next, retried } },
                WorkerAction::Skip,
            ),
        },
        WorkerPhase::Done => (WorkerState { range, phase: WorkerPhase::Done }, WorkerAction::Skip),
        WorkerPhase::Failed { error, undone } => (
            WorkerState { range, phase: WorkerPhase::Failed { error, undone } },
            WorkerAction::Skip,
        ),
    }
}

/// One failed worker in a run's aggregate failure report: which worker
/// aborted and which frame indices it never produced.
#[derive(Debug, Clone, Copy)]
pub struct WorkerFailureSummary {
    pub worker: usize,
    pub undone: FrameRange,
}

/// Collects, in worker order, every worker that aborted, together with the
/// frames it never produced.
///
/// The render call is owed an aggregate of all worker failures rather than
/// the first one: an empty result says every worker completed its
/// sub-range.
pub fn summarize_failures(states: &Vec<WorkerState>) -> (r: Vec<WorkerFailureSummary>)
    ensures
        forall|k: int|
            0 <= k < r@.len() ==> (#[trigger] r@[k]).worker < states@.len(),
        forall|k: int|
            0 <= k < r@.len() ==> (states@[(#[trigger] r@[k]).worker as int].phase matches WorkerPhase::Failed { error, undone }
                && undone == r@[k].undone),
        forall|a: int, b: int|
            0 <= a < b < r@.len() ==> (#[trigger] r@[a]).worker < (#[trigger] r@[b]).worker,
        forall|w: int|
            0 <= w < states@.len() && (#[trigger] states@[w]).phase is Failed ==> exists|k: int|
                0 <= k < r@.len() && (#[trigger] r@[k]).worker == w,
        (r@.len() == 0 <==> forall|w: int|
            0 <= w < states@.len() ==> !((#[trigger] states@[w]).phase is Failed)),
{
    let mut r: Vec<WorkerFailureSummary> = Vec::new();
    let mut w: usize = 0;
    while w < states.len()
        invariant
            w <= states@.len(),
            forall|k: int| 0 <= k < r@.len() ==> (#[trigger] r@[k]).worker < w,
            forall|k: int|
                0 <= k < r@.len() ==> (states@[(#[trigger] r@[k]).worker as int].phase matches WorkerPhase::Failed { error, undone }
                    && undone == r@[k].undone),
            forall|a: int, b: int|
                0 <= a < b < r@.len() ==> (#[trigger] r@[a]).worker < (#[trigger] r@[b]).worker,
            forall|v: int|
                0 <= v < w && (#[trigger] states@[v]).phase is Failed ==> exists|k: int|
                    0 <= k < r@.len() && (#[trigger] r@[k]).worker == v,
        decreases states@.len() - w,
    {
        let ghost prev = r@;
        match &states[w].phase {
            WorkerPhase::Failed { error, undone } => {
                r.push(WorkerFailureSummary { worker: w, undone: *undone });
            },
            _ => {},
        }
        proof {
            assert forall|v: int|
                0 <= v < w + 1 && (#[trigger] states@[v]).phase is Failed implies exists|k: int|
                0 <= k < r@.len() && (#[trigger] r@[k]).worker == v by {
                if v < w {
                    let k = choose|k: int| 0 <= k < prev.len() && prev[k].worker == v;
                    if 0 <= k < prev.len() && prev[k].worker == v {
                        assert(r@[k].worker == v);
                    }
                } else {
                    assert(r@[r@.len() - 1].worker == v);
                }
            }
        }
        w = w + 1;
    }
    proof {
        if r@.len() > 0 {
            assert(states@[r@[0].worker as int].phase is Failed);
        }
    }
    r
}

} // verus!
