use wm_core::cursor::{CursorMode, CursorState, Edges};
use wm_core::geometry::{Point, Rect};
use wm_core::request::Request;
use wm_core::view::{View, ViewRegistry};

fn shown(id: u64, x: i32, y: i32, width: i32, height: i32) -> View {
    View { id, x, y, geometry: Rect { x: 0, y: 0, width, height }, mapped: true }
}

fn registry(views: &[View]) -> ViewRegistry {
    let mut registry = ViewRegistry::new();
    for view in views {
        assert!(registry.insert(view.id));
        assert!(registry.replace(*view));
    }
    registry
}

fn edges(top: bool, bottom: bool, left: bool, right: bool) -> Edges {
    Edges { top, bottom, left, right }
}

fn cursor_over(views: &mut ViewRegistry, x: i32, y: i32) -> CursorState {
    let mut cursor = CursorState::new();
    cursor.position = Point::from_pixels(x, y);
    cursor.on_pointer_motion(views, 0);
    cursor
}

#[test]
fn new_cursor_is_in_passthrough() {
    let cursor = CursorState::new();
    assert_eq!(cursor.mode, CursorMode::Passthrough);
    assert_eq!(cursor.position, Point { x: 0, y: 0 });
    assert_eq!(cursor.pointer_focus, None);
    assert_eq!(cursor.grabbed_view, None);
    assert!(!cursor.is_grabbed());
}

#[test]
fn passthrough_motion_enters_then_moves_then_leaves() {
    let mut views = registry(&[shown(1, 0, 0, 100, 100), shown(2, 200, 0, 100, 100)]);
    let mut cursor = CursorState::new();
    cursor.position = Point::from_pixels(10, 20);
    assert_eq!(cursor.on_pointer_motion(&mut views, 5), vec![Request::PointerEnter { view: 1, x: 2560, y: 5120 }]);
    assert_eq!(cursor.pointer_focus, Some(1));
    cursor.position = Point::from_pixels(11, 20);
    assert_eq!(
        cursor.on_pointer_motion(&mut views, 6),
        vec![Request::PointerMotion { view: 1, x: 11 * 256, y: 5120, time: 6 }]
    );
    cursor.position = Point::from_pixels(250, 50);
    assert_eq!(cursor.on_pointer_motion(&mut views, 7), vec![Request::PointerEnter { view: 2, x: 50 * 256, y: 50 * 256 }]);
    assert_eq!(cursor.pointer_focus, Some(2));
    cursor.position = Point::from_pixels(150, 50);
    assert_eq!(cursor.on_pointer_motion(&mut views, 8), vec![Request::PointerLeave]);
    assert_eq!(cursor.pointer_focus, None);
    assert_eq!(cursor.on_pointer_motion(&mut views, 9), Vec::<Request>::new());
    assert_eq!(views.views(), &vec![shown(1, 0, 0, 100, 100), shown(2, 200, 0, 100, 100)]);
}

#[test]
fn begin_move_needs_the_pointer_in_the_window() {
    let mut views = registry(&[shown(1, 0, 0, 100, 100), shown(2, 200, 0, 100, 100)]);
    let mut cursor = cursor_over(&mut views, 50, 50);
    assert!(!cursor.begin_move(&views, 2));
    assert!(!cursor.begin_move(&views, 99));
    assert_eq!(cursor.mode, CursorMode::Passthrough);
    assert_eq!(cursor.grabbed_view, None);
    assert!(cursor.begin_move(&views, 1));
    assert_eq!(cursor.mode, CursorMode::Move);
    assert_eq!(cursor.grabbed_view, Some(1));
    assert!(cursor.is_grabbed());
}

#[test]
fn begin_move_refuses_a_stale_pointer_focus() {
    let mut views = registry(&[shown(1, 0, 0, 100, 100), shown(2, 0, 0, 100, 100)]);
    let mut cursor = cursor_over(&mut views, 50, 50);
    assert_eq!(cursor.pointer_focus, Some(1));
    views.raise_to_front(2);
    assert!(!cursor.begin_move(&views, 1));
    assert!(!cursor.begin_move(&views, 2));
    assert_eq!(cursor.mode, CursorMode::Passthrough);
    let mut away = cursor_over(&mut views, 50, 50);
    away.position = Point::from_pixels(500, 500);
    assert!(!away.begin_move(&views, 2));
    assert!(!away.begin_resize(&views, 2, edges(false, false, true, false)));
}

#[test]
fn begin_move_captures_the_anchor() {
    let mut views = registry(&[shown(1, 40, 40, 100, 80)]);
    let mut cursor = cursor_over(&mut views, 50, 50);
    assert!(cursor.begin_move(&views, 1));
    assert_eq!(cursor.grab_anchor, Point::from_pixels(10, 10));
    assert_eq!(cursor.grab_origin, (40, 40));
    assert_eq!(cursor.grab_size, (100, 80));
}

#[test]
fn move_keeps_the_anchor_under_the_cursor() {
    let mut views = registry(&[shown(1, 40, 40, 100, 80)]);
    let mut cursor = cursor_over(&mut views, 50, 50);
    assert!(cursor.begin_move(&views, 1));
    assert_eq!(cursor.grab_anchor, Point::from_pixels(10, 10));
    cursor.position = Point::from_pixels(80, 80);
    assert_eq!(cursor.on_pointer_motion(&mut views, 1), Vec::<Request>::new());
    assert_eq!(views.get(1), Some(shown(1, 70, 70, 100, 80)));
    cursor.position = Point::from_pixels(-500, 3);
    cursor.on_pointer_motion(&mut views, 2);
    assert_eq!(views.get(1), Some(shown(1, -510, -7, 100, 80)));
    assert_eq!(cursor.mode, CursorMode::Move);
    assert_eq!(cursor.pointer_focus, Some(1));
}

#[test]
fn move_from_a_given_anchor() {
    let mut views = registry(&[shown(1, 40, 40, 100, 80)]);
    let mut cursor = CursorState::new();
    cursor.mode = CursorMode::Move;
    cursor.grabbed_view = Some(1);
    cursor.grab_anchor = Point::from_pixels(10, 10);
    cursor.position = Point::from_pixels(50, 50);
    cursor.on_pointer_motion(&mut views, 0);
    assert_eq!(views.get(1), Some(shown(1, 40, 40, 100, 80)));
    cursor.position = Point::from_pixels(80, 80);
    cursor.on_pointer_motion(&mut views, 0);
    assert_eq!(views.get(1), Some(shown(1, 70, 70, 100, 80)));
}

#[test]
fn move_rounds_sub_pixel_positions_down() {
    let mut views = registry(&[shown(1, 0, 0, 100, 100)]);
    let mut cursor = cursor_over(&mut views, 10, 10);
    assert!(cursor.begin_move(&views, 1));
    cursor.position = Point { x: 10 * 256 - 1, y: 10 * 256 + 255 };
    cursor.on_pointer_motion(&mut views, 0);
    assert_eq!(views.get(1), Some(shown(1, -1, 0, 100, 100)));
}

#[test]
fn resize_left_keeps_the_right_edge() {
    let mut views = registry(&[shown(1, 100, 100, 200, 150)]);
    let mut cursor = cursor_over(&mut views, 101, 120);
    assert!(cursor.begin_resize(&views, 1, edges(false, false, true, false)));
    assert_eq!(cursor.mode, CursorMode::Resize(edges(false, false, true, false)));
    assert_eq!(cursor.grab_origin, (100, 100));
    assert_eq!(cursor.grab_size, (200, 150));
    assert_eq!(cursor.grab_anchor, Point::from_pixels(1, 20));
    for x in [101, 51, 0, -400, 151, 299, 300, 301, 350, 5000] {
        cursor.position = Point::from_pixels(x, 777);
        let requests = cursor.on_pointer_motion(&mut views, 0);
        let view = views.get(1).unwrap();
        let width = match requests[..] {
            [Request::Resize { view: 1, width, height: 150 }] => width,
            _ => panic!("one resize request expected"),
        };
        assert!(width >= 1);
        assert_eq!(view.x + width, 300);
        assert_eq!(view.y, 100);
        let expected = if x - 1 <= 299 { 300 - (x - 1) } else { 1 };
        assert_eq!(width, expected);
    }
}

#[test]
fn resize_left_follows_the_cursor() {
    let mut views = registry(&[shown(1, 100, 100, 200, 150)]);
    let mut cursor = cursor_over(&mut views, 100, 100);
    assert!(cursor.begin_resize(&views, 1, edges(false, false, true, false)));
    cursor.position = Point::from_pixels(130, 100);
    assert_eq!(cursor.on_pointer_motion(&mut views, 0), vec![Request::Resize { view: 1, width: 170, height: 150 }]);
    assert_eq!(views.get(1), Some(shown(1, 130, 100, 200, 150)));
    cursor.position = Point::from_pixels(400, 100);
    assert_eq!(cursor.on_pointer_motion(&mut views, 0), vec![Request::Resize { view: 1, width: 1, height: 150 }]);
    assert_eq!(views.get(1), Some(shown(1, 299, 100, 200, 150)));
}

#[test]
fn resize_top_keeps_the_bottom_edge() {
    let mut views = registry(&[shown(1, 100, 100, 200, 150)]);
    let mut cursor = cursor_over(&mut views, 150, 100);
    assert!(cursor.begin_resize(&views, 1, edges(true, false, false, false)));
    cursor.position = Point::from_pixels(150, 60);
    assert_eq!(cursor.on_pointer_motion(&mut views, 0), vec![Request::Resize { view: 1, width: 200, height: 190 }]);
    assert_eq!(views.get(1), Some(shown(1, 100, 60, 200, 150)));
    cursor.position = Point::from_pixels(150, 900);
    assert_eq!(cursor.on_pointer_motion(&mut views, 0), vec![Request::Resize { view: 1, width: 200, height: 1 }]);
    assert_eq!(views.get(1), Some(shown(1, 100, 249, 200, 150)));
}

#[test]
fn resize_right_and_bottom_leave_the_origin() {
    let mut views = registry(&[shown(1, 100, 100, 200, 150)]);
    let mut cursor = cursor_over(&mut views, 299, 249);
    assert!(cursor.begin_resize(&views, 1, edges(false, true, false, true)));
    cursor.position = Point::from_pixels(349, 259);
    assert_eq!(cursor.on_pointer_motion(&mut views, 0), vec![Request::Resize { view: 1, width: 250, height: 160 }]);
    assert_eq!(views.get(1), Some(shown(1, 100, 100, 200, 150)));
    cursor.position = Point::from_pixels(0, 0);
    assert_eq!(cursor.on_pointer_motion(&mut views, 0), vec![Request::Resize { view: 1, width: 1, height: 1 }]);
    assert_eq!(views.get(1), Some(shown(1, 100, 100, 200, 150)));
}

#[test]
fn resize_with_opposite_edges_drags_left_and_top() {
    let mut views = registry(&[shown(1, 100, 100, 200, 150)]);
    let mut cursor = cursor_over(&mut views, 100, 100);
    assert!(cursor.begin_resize(&views, 1, edges(true, true, true, true)));
    cursor.position = Point::from_pixels(110, 120);
    assert_eq!(cursor.on_pointer_motion(&mut views, 0), vec![Request::Resize { view: 1, width: 190, height: 130 }]);
    assert_eq!(views.get(1), Some(shown(1, 110, 120, 200, 150)));
}

#[test]
fn resize_without_edges_asks_for_the_size_at_the_start() {
    let mut views = registry(&[shown(1, 100, 100, 200, 150)]);
    let mut cursor = cursor_over(&mut views, 100, 100);
    assert!(cursor.begin_resize(&views, 1, edges(false, false, false, false)));
    cursor.position = Point::from_pixels(10, 500);
    assert_eq!(cursor.on_pointer_motion(&mut views, 0), vec![Request::Resize { view: 1, width: 200, height: 150 }]);
    assert_eq!(views.get(1), Some(shown(1, 100, 100, 200, 150)));
}

#[test]
fn resize_goes_by_the_geometry_box() {
    let view = View { id: 1, x: 100, y: 100, geometry: Rect { x: 10, y: 20, width: 200, height: 150 }, mapped: true };
    let mut views = registry(&[view]);
    let mut cursor = cursor_over(&mut views, 115, 125);
    assert!(cursor.begin_resize(&views, 1, edges(true, false, true, false)));
    assert_eq!(cursor.grab_origin, (110, 120));
    assert_eq!(cursor.grab_anchor, Point::from_pixels(5, 5));
    cursor.position = Point::from_pixels(95, 135);
    assert_eq!(cursor.on_pointer_motion(&mut views, 0), vec![Request::Resize { view: 1, width: 220, height: 140 }]);
    assert_eq!(views.get(1), Some(View { x: 80, y: 110, ..view }));
}

#[test]
fn button_release_ends_the_gesture() {
    let mut views = registry(&[shown(1, 0, 0, 100, 100)]);
    let mut cursor = cursor_over(&mut views, 50, 50);
    assert!(cursor.begin_move(&views, 1));
    cursor.on_pointer_button_release();
    assert_eq!(cursor.mode, CursorMode::Passthrough);
    assert_eq!(cursor.grabbed_view, None);
    assert_eq!(cursor.pointer_focus, Some(1));
    cursor.on_pointer_button_release();
    assert_eq!(cursor.mode, CursorMode::Passthrough);
    cursor.position = Point::from_pixels(60, 60);
    assert_eq!(
        cursor.on_pointer_motion(&mut views, 3),
        vec![Request::PointerMotion { view: 1, x: 60 * 256, y: 60 * 256, time: 3 }]
    );
    assert_eq!(views.get(1), Some(shown(1, 0, 0, 100, 100)));
}

#[test]
fn gesture_on_a_removed_window_ends_with_the_next_event() {
    let mut views = registry(&[shown(1, 0, 0, 100, 100), shown(2, 0, 0, 100, 100), shown(3, 0, 0, 100, 100)]);
    let mut cursor = cursor_over(&mut views, 50, 50);
    assert!(cursor.begin_move(&views, 1));
    assert!(views.remove(1).is_some());
    assert_eq!(cursor.mode, CursorMode::Move);
    cursor.position = Point::from_pixels(60, 60);
    let requests = cursor.on_pointer_motion(&mut views, 4);
    assert_eq!(cursor.mode, CursorMode::Passthrough);
    assert_eq!(cursor.grabbed_view, None);
    assert_eq!(requests, vec![Request::PointerEnter { view: 2, x: 60 * 256, y: 60 * 256 }]);
    assert_eq!(views.views(), &vec![shown(2, 0, 0, 100, 100), shown(3, 0, 0, 100, 100)]);
}

#[test]
fn repair_takes_back_what_is_gone() {
    let mut views = registry(&[shown(1, 0, 0, 100, 100)]);
    let mut cursor = cursor_over(&mut views, 50, 50);
    assert!(cursor.begin_resize(&views, 1, edges(false, false, false, true)));
    let before = cursor;
    cursor.repair(&views);
    assert_eq!(cursor, before);
    views.remove(1);
    cursor.repair(&views);
    assert_eq!(cursor.mode, CursorMode::Passthrough);
    assert_eq!(cursor.grabbed_view, None);
    assert_eq!(cursor.pointer_focus, None);
    assert_eq!(cursor.position, before.position);
    let mut odd = CursorState::new();
    odd.mode = CursorMode::Move;
    odd.repair(&views);
    assert_eq!(odd.mode, CursorMode::Passthrough);
    let mut left_over = CursorState::new();
    left_over.grabbed_view = Some(5);
    left_over.repair(&views);
    assert_eq!(left_over.grabbed_view, None);
}

#[test]
fn begin_on_a_removed_window_changes_to_passthrough() {
    let mut views = registry(&[shown(1, 0, 0, 100, 100), shown(2, 0, 0, 100, 100)]);
    let mut cursor = cursor_over(&mut views, 50, 50);
    assert!(cursor.begin_move(&views, 1));
    views.remove(1);
    assert!(!cursor.begin_resize(&views, 2, edges(false, false, true, false)));
    assert_eq!(cursor.mode, CursorMode::Passthrough);
    assert_eq!(cursor.grabbed_view, None);
}

#[test]
fn anchor_saturates_far_out() {
    let mut views = registry(&[shown(1, i32::MIN, i32::MIN, i32::MAX, i32::MAX)]);
    let mut cursor = CursorState::new();
    cursor.position = Point { x: i32::MIN, y: i32::MIN };
    cursor.on_pointer_motion(&mut views, 0);
    assert!(cursor.begin_move(&views, 1));
    assert_eq!(cursor.grab_anchor, Point { x: i32::MAX, y: i32::MAX });
    cursor.position = Point { x: i32::MAX, y: i32::MAX };
    cursor.on_pointer_motion(&mut views, 0);
    assert_eq!(views.get(1), Some(shown(1, 0, 0, i32::MAX, i32::MAX)));
}
