use field_sketch::curve::{CurveBuilder, CurveSegment};
use field_sketch::geometry::Point;

#[test]
fn new_curve_has_one_open_segment() {
    let c = CurveBuilder::new(Point::new(10, 20), 100);
    assert_eq!(c.len(), 1);
    assert_eq!(
        c.segment(0),
        CurveSegment { start: Point::new(10, 20), end: Point::new(10, 20), created_tick: 0, finalized: false }
    );
    assert_eq!(c.open_segment(), c.segment(0));
}

#[test]
fn one_segment_per_tick_and_one_open() {
    let mut c = CurveBuilder::new(Point::new(0, 0), 3);
    for t in 0..10 {
        c.step(2, Point::new(0, t * 5));
    }
    assert_eq!(c.tick, 10);
    assert_eq!(c.len(), 11);
    let open: Vec<usize> = (0..c.len()).filter(|&i| !c.segment(i).finalized).collect();
    assert_eq!(open, vec![10]);
    for i in 0..c.len() {
        assert_eq!(c.segment(i).created_tick, i as u64);
    }
    for i in 1..c.len() {
        assert_eq!(c.segment(i).start, c.segment(i - 1).end);
    }
}

#[test]
fn step_appends_segment_towards_locator() {
    let mut c = CurveBuilder::new(Point::new(1000, 50), 100);
    c.step(16, Point::new(1000, 80));
    assert_eq!(c.len(), 2);
    assert_eq!(
        c.segment(0),
        CurveSegment { start: Point::new(-600, 50), end: Point::new(-600, 50), created_tick: 0, finalized: true }
    );
    assert_eq!(
        c.segment(1),
        CurveSegment { start: Point::new(-600, 50), end: Point::new(1000, 80), created_tick: 1, finalized: false }
    );
}

#[test]
fn segments_scroll_by_speed_times_delta() {
    let mut c = CurveBuilder::new(Point::new(0, 0), 7);
    c.step(3, Point::new(0, 9));
    c.step(3, Point::new(0, -4));
    let before: Vec<CurveSegment> = (0..c.len()).map(|i| c.segment(i)).collect();
    c.step(5, Point::new(0, 2));
    for (i, old) in before.iter().enumerate() {
        let now = c.segment(i);
        assert_eq!(now.start.x, old.start.x - 35);
        assert_eq!(now.end.x, old.end.x - 35);
        assert_eq!(now.start.y, old.start.y);
        assert_eq!(now.end.y, old.end.y);
        assert!(now.finalized);
    }
}

#[test]
fn zero_delta_keeps_positions() {
    let mut c = CurveBuilder::new(Point::new(4, 4), 250);
    c.step(0, Point::new(4, 9));
    assert_eq!(c.segment(0).end, Point::new(4, 4));
    assert_eq!(c.segment(1).end, Point::new(4, 9));
}

#[test]
fn cull_drops_old_offscreen_segments() {
    let mut c = CurveBuilder::new(Point::new(0, 0), 10);
    for _ in 0..5 {
        c.step(1, Point::new(0, 3));
    }
    assert_eq!(c.segment(0).start.x, -50);
    assert_eq!(c.segment(1).start.x, -50);
    assert_eq!(c.segment(1).end.x, -40);
    assert_eq!(c.segment(5).end, Point::new(0, 3));
    let dropped = c.cull_left_of(-25);
    assert_eq!(dropped, 3);
    assert_eq!(c.dropped, 3);
    assert_eq!(c.len(), 3);
    assert_eq!(c.segment(0).created_tick, 3);
    assert_eq!(c.segment(0).start.x, -30);
    c.step(1, Point::new(0, 3));
    assert_eq!(c.len(), 4);
    assert_eq!(c.segment(3).created_tick, 6);
}

#[test]
fn cull_keeps_the_open_segment() {
    let mut c = CurveBuilder::new(Point::new(0, 0), 10);
    c.step(1, Point::new(0, 3));
    c.step(1, Point::new(0, 3));
    assert_eq!(c.cull_left_of(1000), 2);
    assert_eq!(c.len(), 1);
    assert!(!c.segment(0).finalized);
    assert_eq!(c.cull_left_of(1000), 0);
    assert_eq!(c.cull_left_of(-1000), 0);
}
