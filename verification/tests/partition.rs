use rustymotion::errors::ConfigError;
use rustymotion::partition::{default_worker_count, partition, FrameRange};
use rustymotion::{plan_render, resolve_frame_range};

fn ranges(parts: &[FrameRange]) -> Vec<(u32, u32)> {
    parts.iter().map(|r| (r.start, r.end)).collect()
}

#[test]
fn partition_three_workers_evenly() {
    let parts = partition(FrameRange { start: 0, end: 90 }, 3);
    assert_eq!(ranges(&parts), vec![(0, 30), (30, 60), (60, 90)]);
}

#[test]
fn partition_remainder_goes_to_last_worker() {
    let parts = partition(FrameRange { start: 10, end: 40 }, 4);
    assert_eq!(ranges(&parts), vec![(10, 17), (17, 24), (24, 31), (31, 40)]);
}

#[test]
fn partition_single_worker_takes_everything() {
    let parts = partition(FrameRange { start: 5, end: 12 }, 1);
    assert_eq!(ranges(&parts), vec![(5, 12)]);
}

#[test]
fn partition_fewer_frames_than_workers_leaves_early_workers_empty() {
    let parts = partition(FrameRange { start: 0, end: 2 }, 4);
    assert_eq!(ranges(&parts), vec![(0, 0), (0, 0), (0, 0), (0, 2)]);
}

#[test]
fn partition_empty_range_is_all_empty() {
    let parts = partition(FrameRange { start: 7, end: 7 }, 2);
    assert_eq!(ranges(&parts), vec![(7, 7), (7, 7)]);
}

#[test]
fn default_worker_count_is_at_least_one() {
    assert!(default_worker_count() >= 1);
}

#[test]
fn resolve_range_defaults_to_whole_composition() {
    assert_eq!(
        resolve_frame_range(None, 90),
        Ok(FrameRange { start: 0, end: 90 })
    );
}

#[test]
fn resolve_range_zero_end_is_total_frames_sentinel() {
    assert_eq!(
        resolve_frame_range(Some((10, 0)), 90),
        Ok(FrameRange { start: 10, end: 90 })
    );
}

#[test]
fn resolve_range_keeps_explicit_bounds() {
    assert_eq!(
        resolve_frame_range(Some((10, 40)), 90),
        Ok(FrameRange { start: 10, end: 40 })
    );
}

#[test]
fn resolve_range_rejects_empty_range() {
    match resolve_frame_range(Some((5, 5)), 90) {
        Err(ConfigError::EmptyFrameRange { start: 5, end: 5 }) => {}
        other => panic!("expected an empty-range error, got {:?}", other),
    }
}

#[test]
fn resolve_range_rejects_zero_total_frames() {
    match resolve_frame_range(None, 0) {
        Err(ConfigError::EmptyFrameRange { start: 0, end: 0 }) => {}
        other => panic!("expected an empty-range error, got {:?}", other),
    }
}

#[test]
fn plan_render_resolves_and_partitions() {
    let (range, parts) = plan_render(90, Some((10, 40)), 4).unwrap();
    assert_eq!((range.start, range.end), (10, 40));
    assert_eq!(ranges(&parts), vec![(10, 17), (17, 24), (24, 31), (31, 40)]);
}

#[test]
fn plan_render_fails_fast_on_empty_range() {
    assert!(matches!(
        plan_render(90, Some((40, 10)), 4),
        Err(ConfigError::EmptyFrameRange { start: 40, end: 10 })
    ));
}
