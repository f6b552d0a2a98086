//! The aggregation sink: total order recovery for frames arriving from
//! concurrent workers.
//!
//! Workers finish frames out of temporal order relative to each other, so
//! frames must not be forwarded to the encoder in arrival order. The sink
//! buffers each arrival and, whenever the next expected index is available,
//! releases the longest contiguous run starting there — a resequencing
//! reorder buffer. `finalize` succeeds exactly when no index of the range is
//! still missing.

use vstd::prelude::*;

verus! {

use crate::errors::OrderingError;
use crate::frame::{CapturedFrame, FrameView};
use crate::partition::FrameRange;

/// The view of each frame of a sequence, in order.
pub open spec fn frame_views(frames: Seq<CapturedFrame>) -> Seq<FrameView> {
    frames.map_values(|f: CapturedFrame| f@)
}

/// The mathematical content of one buffer slot.
pub open spec fn slot_content(o: Option<CapturedFrame>) -> Option<FrameView> {
    match o {
        Some(f) => Some(f@),
        None => None,
    }
}

/// Resequences out-of-order frame arrivals into strict ascending index
/// order over a fixed range.
pub struct AggregationSink {
    range: FrameRange,
    next_expected: u32,
    slots: Vec<Option<CapturedFrame>>,
    forwarded: Ghost<Seq<FrameView>>,
}

impl AggregationSink {
    /// The frame range this sink resequences.
    pub closed spec fn spec_range(self) -> FrameRange {
        self.range
    }

    /// The next frame index the encoder side is owed; everything before it
    /// has already been released in order.
    pub closed spec fn cursor(self) -> u32 {
        self.next_expected
    }

    /// The frame buffered for index `i`, if one arrived and was not yet
    /// released.
    pub closed spec fn slot_view(self, i: u32) -> Option<FrameView> {
        if self.range.spec_contains(i as int) {
            slot_content(self.slots[i - self.range.start])
        } else {
            None
        }
    }

    /// Whether a frame for index `i` has ever been accepted: it was either
    /// already released to the encoder side or still sits in a buffer slot.
    pub open spec fn received(self, i: u32) -> bool {
        self.spec_range().spec_contains(i as int) && (i < self.cursor() || self.slot_view(
            i,
        ) is Some)
    }

    /// Everything released so far, in the order it was released.
    pub closed spec fn spec_forwarded(self) -> Seq<FrameView> {
        self.forwarded@
    }

    /// The sink's internal invariant.
    pub closed spec fn wf(self) -> bool {
        &&& self.range.wf()
        &&& self.range.start <= self.next_expected <= self.range.end
        &&& self.slots.len() == self.range.spec_len()
        &&& forall|j: int|
            0 <= j < self.slots.len() && self.slots[j] is Some ==> (
            #[trigger] self.slots[j]).unwrap().index == self.range.start + j
        &&& forall|j: int|
            0 <= j < self.next_expected - self.range.start ==> (#[trigger] self.slots[j]) is None
        &&& self.next_expected < self.range.end ==> self.slots[self.next_expected
            - self.range.start] is None
        &&& self.forwarded@.len() == self.next_expected - self.range.start
        &&& forall|k: int|
            0 <= k < self.forwarded@.len() ==> (#[trigger] self.forwarded@[k]).index
                == self.range.start + k
    }

    /// A fresh sink over `range`: nothing received, nothing released.
    pub fn new(range: FrameRange) -> (s: AggregationSink)
        requires
            range.wf(),
        ensures
            s.wf(),
            s.spec_range() == range,
            s.cursor() == range.start,
            s.spec_forwarded() == Seq::<FrameView>::empty(),
            forall|i: u32| !s.received(i),
    {
        let n: usize = (range.end - range.start) as usize;
        let mut slots: Vec<Option<CapturedFrame>> = Vec::new();
        while slots.len() < n
            invariant
                slots.len() <= n,
                forall|j: int| 0 <= j < slots.len() ==> (#[trigger] slots[j]) is None,
            decreases n - slots.len(),
        {
            slots.push(None);
        }
        AggregationSink { range, next_expected: range.start, slots, forwarded: Ghost(Seq::empty()) }
    }

    /// The frame range this sink resequences.
    pub fn range(&self) -> (r: FrameRange)
        ensures
            r == self.spec_range(),
    {
        self.range
    }

    /// Accepts one captured frame and releases the longest contiguous run
    /// of frames now available at the cursor.
    ///
    /// A frame whose index was already accepted is rejected as a duplicate
    /// and leaves the sink unchanged. On success the returned run continues
    /// exactly at the old cursor with consecutive indices, so the
    /// concatenation of the runs of all successful pushes — what the encoder
    /// side observes — is the frames of `[range.start, cursor)` in strictly
    /// ascending index order, each index exactly once.
    pub fn push(&mut self, frame: CapturedFrame) -> (r: Result<Vec<CapturedFrame>, OrderingError>)
        requires
            old(self).wf(),
            old(self).spec_range().spec_contains(frame.index as int),
        ensures
            final(self).wf(),
            final(self).spec_range() == old(self).spec_range(),
            match r {
                Ok(run) => {
                    &&& !old(self).received(frame.index)
                    &&& forall|i: u32|
                        final(self).received(i) == (old(self).received(i) || i == frame.index)
                    &&& old(self).cursor() <= final(self).cursor()
                    &&& run@.len() == final(self).cursor() - old(self).cursor()
                    &&& forall|k: int|
                        0 <= k < run@.len() ==> (#[trigger] run@[k])@ == (
                        if old(self).cursor() + k == frame.index {
                            frame@
                        } else {
                            old(self).slot_view((old(self).cursor() + k) as u32).unwrap()
                        })
                    &&& forall|k: int|
                        0 <= k < run@.len() ==> (#[trigger] run@[k]).index == old(self).cursor() + k
                    &&& final(self).cursor() < final(self).spec_range().end ==> !final(self).received(final(self).cursor())
                    &&& forall|i: u32|
                        i >= final(self).cursor() ==> final(self).slot_view(i) == (
                        if i == frame.index {
                            Some(frame@)
                        } else {
                            old(self).slot_view(i)
                        })
                    &&& final(self).spec_forwarded() == old(self).spec_forwarded()
                        + frame_views(run@)
                },
                Err(e) => {
                    &&& e matches OrderingError::Duplicate { index } && index == frame.index
                    &&& old(self).received(frame.index)
                    &&& *final(self) == *old(self)
                },
            },
    {
        let ghost orig = *self;
        let ghost frame_view = frame@;
        if frame.index < self.next_expected {
            return Err(OrderingError::Duplicate { index: frame.index });
        }
        let idx: usize = (frame.index - self.range.start) as usize;
        if self.slots[idx].is_some() {
            return Err(OrderingError::Duplicate { index: frame.index });
        }
        self.slots[idx] = Some(frame);
        let mut run: Vec<CapturedFrame> = Vec::new();
        while self.next_expected < self.range.end && self.slots[(self.next_expected
            - self.range.start) as usize].is_some()
            invariant
                orig.wf(),
                orig.spec_range().spec_contains(frame_view.index as int),
                self.range == orig.range,
                self.forwarded == orig.forwarded,
                self.slots.len() == orig.slots.len(),
                orig.cursor() <= self.next_expected <= self.range.end,
                frame_view.index >= orig.cursor(),
                orig.slot_view(frame_view.index) is None,
                forall|j: int|
                    self.next_expected - self.range.start <= j < self.slots.len()
                        ==> slot_content(#[trigger] self.slots[j]) == (if j == frame_view.index
                        - self.range.start {
                        Some(frame_view)
                    } else {
                        slot_content(orig.slots[j])
                    }),
                forall|j: int|
                    0 <= j < self.next_expected - self.range.start ==> (
                    #[trigger] self.slots[j]) is None,
                run@.len() == self.next_expected - orig.cursor(),
                forall|k: int|
                    0 <= k < run@.len() ==> (#[trigger] run@[k])@ == (
                    if orig.cursor() + k == frame_view.index {
                        frame_view
                    } else {
                        orig.slot_view((orig.cursor() + k) as u32).unwrap()
                    }),
                forall|k: int|
                    0 <= k < run@.len() ==> orig.cursor() + k == frame_view.index || (
                    #[trigger] orig.slot_view((orig.cursor() + k) as u32)) is Some,
            decreases self.range.end - self.next_expected,
        {
            let j: usize = (self.next_expected - self.range.start) as usize;
            let f = self.slots[j].take();
            run.push(f.unwrap());
            self.next_expected = self.next_expected + 1;
        }
        proof {
            self.forwarded@ = orig.forwarded@ + frame_views(run@);
            let fin = *self;
            assert forall|i: u32|
                fin.received(i) == (orig.received(i) || i == frame_view.index) by {
                if orig.spec_range().spec_contains(i as int) && orig.cursor() <= i < fin.cursor() {
                    let k: int = i - orig.cursor();
                    assert(orig.cursor() + k == frame_view.index || (#[trigger] orig.slot_view(
                        (orig.cursor() + k) as u32,
                    )) is Some);
                }
            }
        }
        Ok(run)
    }

    /// What `finalize` promises of its result: success exactly when the
    /// cursor reached the range's end, and otherwise a gap error whose
    /// `missing` list holds precisely the never-received indices of the
    /// range, in ascending order.
    pub open spec fn finalize_post(self, r: Result<(), OrderingError>) -> bool {
        &&& (r is Ok <==> self.cursor() == self.spec_range().end)
        &&& match r {
            Ok(u) => forall|i: u32|
                self.spec_range().spec_contains(i as int) ==> self.received(i),
            Err(e) => e matches OrderingError::Gap { missing } && {
                &&& missing@.len() > 0
                &&& forall|i: u32|
                    missing@.contains(i) <==> (self.spec_range().spec_contains(i as int)
                        && !self.received(i))
                &&& forall|a: int, b: int|
                    0 <= a < b < missing@.len() ==> #[trigger] missing@[a] < #[trigger] missing@[b]
            },
        }
    }

    /// Checks that no frame of the range is still owed.
    ///
    /// Succeeds exactly when every index of the range was accepted (all of
    /// them have then been released in order); otherwise reports the
    /// missing indices, ascending.
    pub fn finalize(&self) -> (r: Result<(), OrderingError>)
        requires
            self.wf(),
        ensures
            self.finalize_post(r),
    {
        if self.next_expected >= self.range.end {
            return Ok(());
        }
        let mut missing: Vec<u32> = Vec::new();
        let mut i: u32 = self.next_expected;
        while i < self.range.end
            invariant
                self.wf(),
                self.next_expected < self.range.end,
                self.next_expected <= i <= self.range.end,
                i > self.next_expected ==> missing@.len() > 0,
                forall|k: int|
                    0 <= k < missing@.len() ==> self.next_expected <= #[trigger] missing@[k] < i,
                forall|k: int|
                    0 <= k < missing@.len() ==> !self.received(#[trigger] missing@[k]),
                forall|x: u32|
                    self.next_expected <= x < i && !self.received(x) ==> missing@.contains(x),
                forall|a: int, b: int|
                    0 <= a < b < missing@.len() ==> #[trigger] missing@[a] < #[trigger] missing@[b],
            decreases self.range.end - i,
        {
            let ghost prev = missing@;
            if self.slots[(i - self.range.start) as usize].is_none() {
                missing.push(i);
            }
            proof {
                assert forall|x: u32|
                    self.next_expected <= x < i + 1 && !self.received(x) implies missing@.contains(
                    x,
                ) by {
                    if x < i {
                        let k = choose|k: int| 0 <= k < prev.len() && prev[k] == x;
                        if 0 <= k < prev.len() && prev[k] == x {
                            assert(missing@[k] == x);
                        }
                    } else {
                        assert(missing@[missing@.len() - 1] == x);
                    }
                }
            }
            i = i + 1;
        }
        proof {
            assert forall|x: u32|
                missing@.contains(x) implies (self.spec_range().spec_contains(x as int)
                && !self.received(x)) by {
                let k = choose|k: int| 0 <= k < missing@.len() && missing@[k] == x;
            }
            assert(!self.received(self.next_expected));
            assert(missing@.contains(self.next_expected));
        }
        Err(OrderingError::Gap { missing })
    }
}

/// Once every index of the range has been accepted, the cursor has reached
/// the range's end: `finalize` then succeeds, and the sequence released to
/// the encoder side holds exactly the frame indices of the range, in
/// ascending order, each exactly once — however the pushes were interleaved.
pub proof fn lemma_complete_set_releases_all(s: AggregationSink)
    requires
        s.wf(),
        forall|i: u32| s.spec_range().spec_contains(i as int) ==> s.received(i),
    ensures
        s.cursor() == s.spec_range().end,
        s.spec_forwarded().len() == s.spec_range().spec_len(),
        forall|k: int|
            0 <= k < s.spec_forwarded().len() ==> (#[trigger] s.spec_forwarded()[k]).index
                == s.spec_range().start + k,
{
    if s.cursor() < s.spec_range().end {
        assert(s.received(s.cursor()));
        assert(false);
    }
}

/// If a single index of the range is never pushed, `finalize` fails with a
/// gap error that names that index.
pub proof fn lemma_never_pushed_index_is_named(
    s: AggregationSink,
    r: Result<(), OrderingError>,
    i: u32,
)
    requires
        s.wf(),
        s.finalize_post(r),
        s.spec_range().spec_contains(i as int),
        !s.received(i),
    ensures
        r is Err,
        match r {
            Ok(u) => false,
            Err(e) => e matches OrderingError::Gap { missing } && missing@.contains(i),
        },
{
}

} // verus!
