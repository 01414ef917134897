use card_atlas::geometry::{configure, AtlasSize, CardSize, Rect};

fn grid(width: u32, height: u32, card_width: usize, card_height: usize) -> card_atlas::geometry::Geometry {
    configure(AtlasSize { width, height }, CardSize::new(card_width, card_height))
}

#[test]
fn card_size_raises_zero_to_one() {
    let card = CardSize::new(0, 0);
    assert_eq!(card.width(), 1);
    assert_eq!(card.height(), 1);
    let card = CardSize::new(535, 752);
    assert_eq!((card.width(), card.height()), (535, 752));
    let card = CardSize::new(0, 9);
    assert_eq!((card.width(), card.height()), (1, 9));
}

#[test]
fn fortress_atlas_has_three_by_two_cards() {
    let g = grid(1380, 912, 460, 456);
    assert_eq!(g.columns(), 3);
    assert_eq!(g.rows(), 2);
    assert_eq!(g.max_index(), 5);
    assert_eq!(g.card_rect(5), Some(Rect { x: 920, y: 456, width: 460, height: 456 }));
    assert_eq!(g.card_rect(0), Some(Rect { x: 0, y: 0, width: 460, height: 456 }));
    assert_eq!(g.card_rect(2), Some(Rect { x: 920, y: 0, width: 460, height: 456 }));
    assert_eq!(g.card_rect(3), Some(Rect { x: 0, y: 456, width: 460, height: 456 }));
}

#[test]
fn counts_are_floor_divisions() {
    let g = grid(1000, 999, 300, 250);
    assert_eq!(g.columns(), 3);
    assert_eq!(g.rows(), 3);
    assert_eq!(g.max_index(), 8);
    assert_eq!(g.atlas(), AtlasSize { width: 1000, height: 999 });
    assert_eq!(g.card(), CardSize::new(300, 250));
    let g = grid(299, 250, 300, 250);
    assert_eq!((g.columns(), g.rows(), g.max_index()), (0, 1, 0));
}

#[test]
fn grid_without_cards_has_the_single_index_zero() {
    let g = grid(0, 0, 535, 752);
    assert_eq!((g.columns(), g.rows(), g.max_index()), (0, 0, 0));
    assert_eq!(g.card_rect(0), None);

    let g = grid(100, 1000, 200, 100);
    assert_eq!((g.columns(), g.rows(), g.max_index()), (0, 10, 0));
    assert_eq!(g.card_rect(0), None);

    let g = grid(1000, 100, 100, 200);
    assert_eq!((g.columns(), g.rows(), g.max_index()), (10, 0, 0));
    assert_eq!(g.card_rect(0), None);
    assert_eq!(g.card_rect(3), None);
}

#[test]
fn every_index_of_the_grid_lies_inside_the_atlas() {
    let atlas = AtlasSize { width: 1001, height: 777 };
    let g = configure(atlas, CardSize::new(100, 70));
    assert_eq!(g.max_index(), 10 * 11 - 1);
    for index in 0..=g.max_index() {
        let rect = g.card_rect(index).unwrap();
        assert_eq!(rect.x, (index % 10) as usize * 100);
        assert_eq!(rect.y, (index / 10) as usize * 70);
        assert!(rect.x + rect.width <= atlas.width as usize);
        assert!(rect.y + rect.height <= atlas.height as usize);
    }
}

#[test]
fn index_beyond_the_grid_has_no_rectangle() {
    let g = grid(1380, 912, 460, 456);
    assert_eq!(g.card_rect(6), None);
    assert_eq!(g.card_rect(7), None);
    assert_eq!(g.card_rect(u64::MAX), None);
}

#[test]
fn largest_sizes_do_not_overflow() {
    let g = grid(u32::MAX, u32::MAX, 1, 1);
    assert_eq!(g.columns(), u32::MAX);
    assert_eq!(g.rows(), u32::MAX);
    assert_eq!(g.max_index(), (u32::MAX as u64) * (u32::MAX as u64) - 1);
    let last = g.card_rect(g.max_index()).unwrap();
    assert_eq!(last.x, (u32::MAX - 1) as usize);
    assert_eq!(last.y, (u32::MAX - 1) as usize);
    assert_eq!(g.card_rect(g.max_index() + 1), None);
}

#[test]
fn rect_contains_left_and_top_edges_only() {
    let r = Rect { x: 10, y: 20, width: 5, height: 4 };
    assert!(r.contains(10, 20));
    assert!(r.contains(14, 23));
    assert!(!r.contains(15, 20));
    assert!(!r.contains(10, 24));
    assert!(!r.contains(9, 20));
    assert!(!r.contains(10, 19));
    let empty = Rect { x: 3, y: 3, width: 0, height: 0 };
    assert!(!empty.contains(3, 3));
    let far = Rect { x: usize::MAX - 1, y: 0, width: 10, height: 1 };
    assert!(far.contains(usize::MAX, 0));
}

#[test]
fn card_wider_than_any_atlas_has_no_column() {
    let g = grid(u32::MAX, u32::MAX, u32::MAX as usize + 1, 1);
    assert_eq!((g.columns(), g.rows(), g.max_index()), (0, u32::MAX, 0));
    assert_eq!(g.card_rect(0), None);
    let g = grid(u32::MAX, u32::MAX, usize::MAX, usize::MAX);
    assert_eq!((g.columns(), g.rows(), g.max_index()), (0, 0, 0));
    assert_eq!(g.card().width(), usize::MAX);
}
