use wm_core::geometry::{Point, Rect};
use wm_core::view::{View, ViewRegistry};

fn shown(id: u64, x: i32, y: i32, width: i32, height: i32) -> View {
    View { id, x, y, geometry: Rect { x: 0, y: 0, width, height }, mapped: true }
}

fn registry(views: &[View]) -> ViewRegistry {
    let mut registry = ViewRegistry::new();
    for view in views {
        assert!(registry.insert(view.id));
        assert!(registry.replace(*view));
    }
    registry
}

fn ids(registry: &ViewRegistry) -> Vec<u64> {
    registry.views().iter().map(|view| view.id).collect()
}

#[test]
fn new_view_is_unmapped_at_origin() {
    let view = View::new(9);
    assert_eq!(view, View { id: 9, x: 0, y: 0, geometry: Rect { x: 0, y: 0, width: 0, height: 0 }, mapped: false });
}

#[test]
fn insert_appends_and_refuses_a_used_id() {
    let mut registry = ViewRegistry::new();
    assert_eq!(registry.len(), 0);
    assert_eq!(registry.front(), None);
    assert!(registry.insert(1));
    assert!(registry.insert(2));
    assert!(!registry.insert(1));
    assert_eq!(ids(&registry), vec![1, 2]);
    assert_eq!(registry.len(), 2);
    assert_eq!(registry.front(), Some(1));
    assert_eq!(registry.get(2), Some(View::new(2)));
    assert_eq!(registry.get(3), None);
    assert!(registry.contains(1));
    assert!(!registry.contains(3));
    assert_eq!(registry.position(2), Some(1));
    assert_eq!(registry.position(7), None);
}

#[test]
fn replace_changes_one_window_in_place() {
    let mut registry = registry(&[shown(1, 0, 0, 10, 10), shown(2, 5, 5, 10, 10)]);
    assert!(registry.replace(shown(2, 40, 50, 60, 70)));
    assert!(!registry.replace(shown(3, 1, 1, 1, 1)));
    assert_eq!(registry.views(), &vec![shown(1, 0, 0, 10, 10), shown(2, 40, 50, 60, 70)]);
}

#[test]
fn raise_to_front_moves_one_window() {
    let mut registry = registry(&[shown(1, 0, 0, 1, 1), shown(2, 0, 0, 1, 1), shown(3, 0, 0, 1, 1)]);
    registry.raise_to_front(2);
    assert_eq!(ids(&registry), vec![2, 1, 3]);
    registry.raise_to_front(3);
    assert_eq!(ids(&registry), vec![3, 2, 1]);
}

#[test]
fn raise_to_front_of_front_or_absent_changes_nothing() {
    let mut registry = registry(&[shown(1, 0, 0, 1, 1), shown(2, 0, 0, 1, 1), shown(3, 0, 0, 1, 1)]);
    registry.raise_to_front(1);
    assert_eq!(ids(&registry), vec![1, 2, 3]);
    registry.raise_to_front(99);
    assert_eq!(ids(&registry), vec![1, 2, 3]);
    let mut empty = ViewRegistry::new();
    empty.raise_to_front(1);
    assert_eq!(empty.len(), 0);
}

#[test]
fn raises_permute_and_keep_the_untouched_in_order() {
    let all: Vec<View> = (1..=8).map(|id| shown(id, id as i32, 0, 1, 1)).collect();
    let mut registry = registry(&all);
    let raises = [5u64, 2, 5, 8, 2, 42, 5];
    for id in raises {
        registry.raise_to_front(id);
    }
    assert_eq!(ids(&registry), vec![5, 2, 8, 1, 3, 4, 6, 7]);
    let mut sorted = ids(&registry);
    sorted.sort();
    assert_eq!(sorted, vec![1, 2, 3, 4, 5, 6, 7, 8]);
    let untouched: Vec<u64> = ids(&registry).into_iter().filter(|id| !raises.contains(id)).collect();
    assert_eq!(untouched, vec![1, 3, 4, 6, 7]);
    for view in registry.views() {
        assert_eq!(*view, shown(view.id, view.id as i32, 0, 1, 1));
    }
}

#[test]
fn remove_keeps_the_order_of_the_rest() {
    let mut registry = registry(&[shown(1, 0, 0, 1, 1), shown(2, 7, 8, 1, 1), shown(3, 0, 0, 1, 1), shown(4, 0, 0, 1, 1)]);
    assert_eq!(registry.remove(2), Some(shown(2, 7, 8, 1, 1)));
    assert_eq!(ids(&registry), vec![1, 3, 4]);
    assert_eq!(registry.remove(2), None);
    assert_eq!(ids(&registry), vec![1, 3, 4]);
    assert_eq!(registry.remove(4), Some(shown(4, 0, 0, 1, 1)));
    assert_eq!(registry.remove(1), Some(shown(1, 0, 0, 1, 1)));
    assert_eq!(ids(&registry), vec![3]);
    assert!(registry.insert(2));
    assert_eq!(ids(&registry), vec![3, 2]);
}

#[test]
fn hit_test_finds_nothing_on_empty_ground() {
    let registry = registry(&[shown(1, 10, 10, 100, 100)]);
    assert_eq!(registry.hit_test(Point::from_pixels(5, 50)), None);
    assert_eq!(registry.hit_test(Point::from_pixels(50, 200)), None);
    assert_eq!(ViewRegistry::new().hit_test(Point::from_pixels(0, 0)), None);
}

#[test]
fn hit_test_gives_surface_local_coordinates() {
    let registry = registry(&[shown(1, 10, 20, 100, 100)]);
    assert_eq!(registry.hit_test(Point::from_pixels(50, 50)), Some((1, 40 * 256, 30 * 256)));
    assert_eq!(registry.hit_test(Point { x: 10 * 256 + 3, y: 20 * 256 + 255 }), Some((1, 3, 255)));
}

#[test]
fn hit_test_topmost_wins() {
    let a = shown(1, 0, 0, 100, 100);
    let b = shown(2, 50, 50, 100, 100);
    let c = shown(3, 60, 60, 10, 10);
    let mut registry = registry(&[a, b, c]);
    assert_eq!(registry.hit_test(Point::from_pixels(65, 65)), Some((1, 65 * 256, 65 * 256)));
    assert_eq!(registry.hit_test(Point::from_pixels(120, 120)), Some((2, 70 * 256, 70 * 256)));
    registry.raise_to_front(3);
    assert_eq!(registry.hit_test(Point::from_pixels(65, 65)), Some((3, 5 * 256, 5 * 256)));
    registry.raise_to_front(2);
    assert_eq!(registry.hit_test(Point::from_pixels(65, 65)), Some((2, 15 * 256, 15 * 256)));
    assert_eq!(registry.hit_test(Point::from_pixels(10, 10)), Some((1, 10 * 256, 10 * 256)));
}

#[test]
fn hit_test_passes_over_unmapped_windows() {
    let hidden = View { mapped: false, ..shown(1, 0, 0, 100, 100) };
    let registry = registry(&[hidden, shown(2, 0, 0, 100, 100)]);
    assert_eq!(registry.hit_test(Point::from_pixels(10, 10)), Some((2, 2560, 2560)));
}

#[test]
fn hit_test_box_holds_near_edges_only() {
    let registry = registry(&[shown(1, 10, 10, 20, 20)]);
    assert!(registry.hit_test(Point::from_pixels(10, 10)).is_some());
    assert!(registry.hit_test(Point { x: 10 * 256 - 1, y: 10 * 256 }).is_none());
    assert!(registry.hit_test(Point { x: 30 * 256 - 1, y: 30 * 256 - 1 }).is_some());
    assert!(registry.hit_test(Point::from_pixels(30, 15)).is_none());
    assert!(registry.hit_test(Point::from_pixels(15, 30)).is_none());
}

#[test]
fn hit_test_goes_by_the_geometry_box() {
    let view = View { id: 1, x: 100, y: 100, geometry: Rect { x: 10, y: 20, width: 50, height: 50 }, mapped: true };
    let registry = registry(&[view]);
    assert_eq!(registry.hit_test(Point::from_pixels(105, 125)), None);
    assert_eq!(registry.hit_test(Point::from_pixels(110, 120)), Some((1, 10 * 256, 20 * 256)));
    assert_eq!(registry.hit_test(Point::from_pixels(159, 169)), Some((1, 59 * 256, 69 * 256)));
    assert_eq!(registry.hit_test(Point::from_pixels(160, 150)), None);
    assert!(view.is_under(Point::from_pixels(110, 120)));
    assert_eq!(view.to_local(Point::from_pixels(0, 0)), (-25_600, -25_600));
}

#[test]
fn hit_test_at_the_ends_of_the_number_range() {
    let view = View { id: 1, x: i32::MAX, y: i32::MIN, geometry: Rect { x: i32::MAX, y: i32::MIN, width: i32::MAX, height: i32::MAX }, mapped: true };
    let registry = registry(&[view, shown(2, -8_388_608, -8_388_608, i32::MAX, i32::MAX)]);
    assert_eq!(registry.hit_test(Point { x: i32::MIN, y: i32::MIN }), Some((2, 0, 0)));
    assert_eq!(
        registry.hit_test(Point { x: i32::MAX, y: i32::MAX }),
        Some((2, i32::MAX as i64 + 8_388_608 * 256, i32::MAX as i64 + 8_388_608 * 256))
    );
}
