use card_atlas::geometry::Rect;
use card_atlas::region::{Region, RegionStore};

fn region(name: &str, x: usize, y: usize, width: usize, height: usize) -> Region {
    Region { name: name.to_string(), x, y, width, height }
}

#[test]
fn region_keeps_name_and_rectangle() {
    let r = Region::new("title".to_string(), Rect { x: 1, y: 2, width: 3, height: 4 });
    assert_eq!(r, region("title", 1, 2, 3, 4));
    assert_eq!(r.rect(), Rect { x: 1, y: 2, width: 3, height: 4 });
    assert_eq!(r.clone(), r);
}

#[test]
fn add_appends_and_gives_the_position() {
    let mut store = RegionStore::new();
    assert_eq!(store.len(), 0);
    assert_eq!(store.add(region("a", 0, 0, 1, 1)), 0);
    assert_eq!(store.add(region("b", 5, 5, 2, 2)), 1);
    assert_eq!(store.add(region("a", 9, 9, 3, 3)), 2);
    assert_eq!(store.len(), 3);
    assert_eq!(store.get(0), Some(&region("a", 0, 0, 1, 1)));
    assert_eq!(store.get(2), Some(&region("a", 9, 9, 3, 3)));
    assert_eq!(store.get(3), None);
    assert_eq!(
        store.to_vec(),
        vec![region("a", 0, 0, 1, 1), region("b", 5, 5, 2, 2), region("a", 9, 9, 3, 3)]
    );
}

#[test]
fn delete_removes_one_position_and_keeps_the_order() {
    let mut store = RegionStore::from_regions(vec![
        region("a", 0, 0, 1, 1),
        region("b", 1, 1, 1, 1),
        region("c", 2, 2, 1, 1),
    ]);
    store.delete(1);
    assert_eq!(store.to_vec(), vec![region("a", 0, 0, 1, 1), region("c", 2, 2, 1, 1)]);
    store.delete(0);
    assert_eq!(store.to_vec(), vec![region("c", 2, 2, 1, 1)]);
}

#[test]
fn delete_of_a_missing_position_changes_nothing() {
    let mut store = RegionStore::from_regions(vec![region("a", 0, 0, 1, 1)]);
    store.delete(1);
    store.delete(usize::MAX);
    assert_eq!(store.to_vec(), vec![region("a", 0, 0, 1, 1)]);
    let mut empty = RegionStore::new();
    empty.delete(0);
    assert_eq!(empty.len(), 0);
}

#[test]
fn clear_empties_the_store() {
    let mut store = RegionStore::from_regions(vec![region("a", 0, 0, 1, 1), region("b", 0, 0, 1, 1)]);
    store.clear();
    assert_eq!(store.len(), 0);
    assert_eq!(store.hit_test(0, 0), None);
}

#[test]
fn hit_test_prefers_the_region_inserted_first() {
    let mut store = RegionStore::new();
    store.add(region("large", 0, 0, 100, 100));
    store.add(region("small", 10, 10, 5, 5));
    assert_eq!(store.hit_test(12, 12), Some(0));

    let mut store = RegionStore::new();
    store.add(region("small", 10, 10, 5, 5));
    store.add(region("large", 0, 0, 100, 100));
    assert_eq!(store.hit_test(12, 12), Some(0));
    assert_eq!(store.hit_test(50, 50), Some(1));
    assert_eq!(store.hit_test(100, 50), None);
}

#[test]
fn hit_test_takes_left_and_top_edges_only() {
    let store = RegionStore::from_regions(vec![region("r", 10, 20, 30, 40)]);
    assert_eq!(store.hit_test(10, 20), Some(0));
    assert_eq!(store.hit_test(39, 59), Some(0));
    assert_eq!(store.hit_test(40, 20), None);
    assert_eq!(store.hit_test(10, 60), None);
    assert_eq!(store.hit_test(9, 20), None);
    assert_eq!(store.hit_test(10, 19), None);
}

#[test]
fn hit_test_passes_over_regions_without_extent() {
    let store = RegionStore::from_regions(vec![region("flat", 5, 5, 0, 10), region("r", 5, 5, 1, 1)]);
    assert_eq!(store.hit_test(5, 5), Some(1));
}

#[test]
fn hit_test_does_not_overflow_at_the_far_end() {
    let store = RegionStore::from_regions(vec![region("far", usize::MAX - 2, usize::MAX - 2, 10, 10)]);
    assert_eq!(store.hit_test(usize::MAX, usize::MAX), Some(0));
    assert_eq!(store.hit_test(0, 0), None);
}
