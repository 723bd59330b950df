//! Selections, dirty tracking and integer geometry.

use ascii_canvas::DirtyRect;
use ascii_canvas::DirtyTracker;
use ascii_canvas::Point;
use ascii_canvas::Rect;
use ascii_canvas::Selection;
use ascii_canvas::clamp;

#[test]
fn test_selection_bounds() {
    let sel = Selection::new(5, 2, 10, 8);
    let (min_x, min_y, max_x, max_y) = sel.bounds();

    assert_eq!(min_x, 5);
    assert_eq!(min_y, 2);
    assert_eq!(max_x, 10);
    assert_eq!(max_y, 8);
}

#[test]
fn test_selection_dimensions() {
    let sel = Selection::new(0, 0, 10, 5);
    assert_eq!(sel.width(), 11);
    assert_eq!(sel.height(), 6);
    assert_eq!(sel.area(), 66);
}

#[test]
fn test_selection_contains() {
    let sel = Selection::new(5, 5, 10, 10);

    assert!(sel.contains(5, 5));
    assert!(sel.contains(7, 7));
    assert!(sel.contains(10, 10));
    assert!(!sel.contains(4, 5));
    assert!(!sel.contains(11, 10));
}

#[test]
fn test_selection_translate() {
    let mut sel = Selection::new(5, 5, 10, 10);
    sel.translate(5, -2);

    assert_eq!(sel.x1, 10);
    assert_eq!(sel.y1, 3);
    assert_eq!(sel.x2, 15);
    assert_eq!(sel.y2, 8);
}

#[test]
fn test_empty_dirty_rect() {
    let rect = DirtyRect::empty();
    assert!(rect.is_empty());
    assert_eq!(rect.width(), 0);
    assert_eq!(rect.height(), 0);
}

#[test]
fn test_single_cell() {
    let rect = DirtyRect::single(5, 10);
    assert!(!rect.is_empty());
    assert_eq!(rect.width(), 1);
    assert_eq!(rect.height(), 1);
    assert!(rect.contains(5, 10));
    assert!(!rect.contains(4, 10));
}

#[test]
fn test_union() {
    let mut rect = DirtyRect::single(5, 5);
    rect.union(&DirtyRect::single(10, 10));

    assert_eq!(rect.x1, 5);
    assert_eq!(rect.y1, 5);
    assert_eq!(rect.x2, 10);
    assert_eq!(rect.y2, 10);
}

#[test]
fn test_dirty_tracker() {
    let mut tracker = DirtyTracker::new();

    tracker.mark_dirty(5, 5);
    tracker.mark_dirty(10, 10);

    let rect = tracker.dirty_rect();
    assert_eq!(rect.x1, 5);
    assert_eq!(rect.x2, 10);

    tracker.clear();
    assert!(tracker.dirty_rect().is_empty());
}

#[test]
fn test_dirty_full_flag_is_sticky() {
    let mut tracker = DirtyTracker::new();
    assert!(tracker.needs_full_redraw());

    tracker.mark_dirty(3, 3);
    assert!(!tracker.needs_full_redraw());

    tracker.request_full_redraw();
    tracker.mark_region_dirty(1, 1, 2, 2);
    assert!(tracker.needs_full_redraw());

    tracker.clear();
    tracker.mark_dirty(0, 0);
    assert!(!tracker.needs_full_redraw());
}

#[test]
fn test_union_with_empty_operand() {
    let mut rect = DirtyRect::single(4, 4);
    rect.union(&DirtyRect::empty());
    assert_eq!(rect.x1, 4);
    assert_eq!(rect.x2, 4);

    let mut empty = DirtyRect::empty();
    empty.union(&DirtyRect::single(7, 8));
    assert_eq!(empty.x1, 7);
    assert_eq!(empty.y1, 8);
}

#[test]
fn test_clamp() {
    assert_eq!(clamp(5, 0, 10), 5);
    assert_eq!(clamp(-5, 0, 10), 0);
    assert_eq!(clamp(15, 0, 10), 10);
}

#[test]
fn test_rect() {
    let rect = Rect::from_points(2, 2, 5, 5);

    assert_eq!(rect.width, 4);
    assert_eq!(rect.height, 4);
    assert!(rect.contains(3, 3));
    assert!(!rect.contains(1, 1));
}

#[test]
fn test_rect_intersects() {
    let r1 = Rect::new(0, 0, 5, 5);
    let r2 = Rect::new(3, 3, 5, 5);
    let r3 = Rect::new(10, 10, 5, 5);

    assert!(r1.intersects(&r2));
    assert!(!r1.intersects(&r3));
}

#[test]
fn test_manhattan_distance_of_points() {
    let p1 = Point::new(0, 0);
    let p2 = Point::new(3, 4);
    assert_eq!(p1.manhattan_distance_to(&p2), 7);
}
