use ciet_opcua_client::series::{SeriesBuffer, SeriesPoint};

fn point(time_ms: u64, v: i64) -> SeriesPoint {
    SeriesPoint { time_ms, values: vec![v, -v] }
}

fn times(b: &SeriesBuffer) -> Vec<u64> {
    b.points().iter().map(|p| p.time_ms).collect()
}

#[test]
fn new_buffer_is_empty() {
    let b = SeriesBuffer::new(10_000);
    assert_eq!(b.len(), 0);
    assert_eq!(b.window_ms(), 10_000);
    assert_eq!(b.latest_time(), None);
    assert_eq!(b.oldest_time(), None);
}

#[test]
fn append_keeps_time_order() {
    let mut b = SeriesBuffer::new(1000);
    assert!(b.append(point(100, 1)));
    assert!(b.append(point(100, 2)));
    assert!(b.append(point(250, 3)));
    assert!(!b.append(point(200, 4)));
    assert_eq!(times(&b), vec![100, 100, 250]);
    assert_eq!(b.points()[2].values, vec![3, -3]);
    assert_eq!(b.latest_time(), Some(250));
    assert_eq!(b.oldest_time(), Some(100));
}

#[test]
fn prune_on_empty_buffer_does_nothing() {
    let mut b = SeriesBuffer::new(0);
    assert!(b.prune().is_none());
    assert_eq!(b.len(), 0);
}

#[test]
fn prune_without_stale_points_leaves_buffer_unchanged() {
    let mut b = SeriesBuffer::new(1000);
    for t in [0u64, 400, 800, 1000] {
        assert!(b.append(point(t, t as i64)));
    }
    // the oldest point is exactly at the window's edge: it stays
    assert!(b.prune().is_none());
    assert!(b.prune().is_none());
    assert_eq!(times(&b), vec![0, 400, 800, 1000]);
}

#[test]
fn prune_removes_one_point_per_call() {
    let mut b = SeriesBuffer::new(1000);
    for t in [0u64, 100, 200, 300, 5000] {
        assert!(b.append(point(t, 7)));
    }
    let removed = b.prune().unwrap();
    assert_eq!(removed.time_ms, 0);
    assert_eq!(times(&b), vec![100, 200, 300, 5000]);
    assert_eq!(b.prune().unwrap().time_ms, 100);
    assert_eq!(b.prune().unwrap().time_ms, 200);
    assert_eq!(b.prune().unwrap().time_ms, 300);
    assert!(b.prune().is_none());
    assert_eq!(times(&b), vec![5000]);
}

#[test]
fn prune_with_window_larger_than_latest_time() {
    let mut b = SeriesBuffer::new(45_000);
    assert!(b.append(point(0, 1)));
    assert!(b.append(point(30_000, 1)));
    assert!(b.prune().is_none());
    assert!(b.append(point(45_001, 1)));
    assert_eq!(b.prune().unwrap().time_ms, 0);
}

#[test]
fn steady_run_keeps_oldest_within_one_period_of_window_start() {
    for (period, window) in [(100u64, 10_000u64), (70, 45_000), (15, 1000), (300, 1000)] {
        let mut b = SeriesBuffer::new(window);
        let ticks = 2 * window / period + 5;
        for k in 0..=ticks {
            assert!(b.append(point(k * period, 0)));
            b.prune();
        }
        let latest = b.latest_time().unwrap();
        let oldest = b.oldest_time().unwrap();
        assert_eq!(latest, ticks * period);
        assert!(oldest + window >= latest);
        assert!(oldest + window < latest + period);
    }
}
