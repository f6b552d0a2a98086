use rustymotion::errors::OrderingError;
use rustymotion::frame::{CapturedFrame, PixelFormat};
use rustymotion::partition::FrameRange;
use rustymotion::sink::AggregationSink;

fn frame(index: u32) -> CapturedFrame {
    CapturedFrame {
        index,
        pixels: vec![index as u8; 4],
        format: PixelFormat::Rgba,
    }
}

#[test]
fn sink_releases_permuted_pushes_in_index_order() {
    let mut sink = AggregationSink::new(FrameRange { start: 0, end: 6 });
    let mut released: Vec<CapturedFrame> = Vec::new();
    for index in [3u32, 0, 1, 5, 2, 4] {
        let run = sink.push(frame(index)).unwrap();
        released.extend(run);
    }
    assert!(sink.finalize().is_ok());
    let indices: Vec<u32> = released.iter().map(|f| f.index).collect();
    assert_eq!(indices, vec![0, 1, 2, 3, 4, 5]);
    for f in &released {
        assert_eq!(f.pixels, vec![f.index as u8; 4]);
    }
}

#[test]
fn sink_holds_frames_until_the_cursor_reaches_them() {
    let mut sink = AggregationSink::new(FrameRange { start: 0, end: 3 });
    assert!(sink.push(frame(2)).unwrap().is_empty());
    assert!(sink.push(frame(1)).unwrap().is_empty());
    let run = sink.push(frame(0)).unwrap();
    let indices: Vec<u32> = run.iter().map(|f| f.index).collect();
    assert_eq!(indices, vec![0, 1, 2]);
}

#[test]
fn sink_finalize_names_the_missing_index() {
    let mut sink = AggregationSink::new(FrameRange { start: 0, end: 6 });
    for index in [0u32, 1, 2, 3, 5] {
        sink.push(frame(index)).unwrap();
    }
    match sink.finalize() {
        Err(OrderingError::Gap { missing }) => assert_eq!(missing, vec![4]),
        other => panic!("expected a gap naming index 4, got {:?}", other),
    }
}

#[test]
fn sink_finalize_names_every_missing_index_ascending() {
    let mut sink = AggregationSink::new(FrameRange { start: 10, end: 15 });
    sink.push(frame(13)).unwrap();
    sink.push(frame(10)).unwrap();
    match sink.finalize() {
        Err(OrderingError::Gap { missing }) => assert_eq!(missing, vec![11, 12, 14]),
        other => panic!("expected a gap, got {:?}", other),
    }
}

#[test]
fn sink_rejects_a_duplicate_still_buffered() {
    let mut sink = AggregationSink::new(FrameRange { start: 0, end: 4 });
    sink.push(frame(2)).unwrap();
    assert_eq!(
        sink.push(frame(2)),
        Err(OrderingError::Duplicate { index: 2 })
    );
}

#[test]
fn sink_rejects_a_duplicate_already_released() {
    let mut sink = AggregationSink::new(FrameRange { start: 0, end: 4 });
    sink.push(frame(0)).unwrap();
    assert_eq!(
        sink.push(frame(0)),
        Err(OrderingError::Duplicate { index: 0 })
    );
}

fn permutations(items: &[u32]) -> Vec<Vec<u32>> {
    if items.is_empty() {
        return vec![Vec::new()];
    }
    let mut all = Vec::new();
    for (i, &head) in items.iter().enumerate() {
        let mut rest: Vec<u32> = items.to_vec();
        rest.remove(i);
        for mut tail in permutations(&rest) {
            tail.insert(0, head);
            all.push(tail);
        }
    }
    all
}

#[test]
fn sink_orders_every_permutation_of_a_complete_set() {
    let indices: Vec<u32> = (0..5).collect();
    for permutation in permutations(&indices) {
        let mut sink = AggregationSink::new(FrameRange { start: 0, end: 5 });
        let mut released: Vec<u32> = Vec::new();
        for index in permutation {
            for f in sink.push(frame(index)).unwrap() {
                released.push(f.index);
            }
        }
        assert!(sink.finalize().is_ok());
        assert_eq!(released, indices);
    }
}

#[test]
fn sink_over_empty_range_finalizes_at_once() {
    let sink = AggregationSink::new(FrameRange { start: 4, end: 4 });
    assert!(sink.finalize().is_ok());
}
