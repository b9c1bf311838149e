use input_overlay::input::Key;
use input_overlay::layout::{key_positions, KeyRegion, CELL_SIZE, SIZE, STEPS_PER_CELL};

#[test]
fn canvas_is_eight_cells_wide() {
    assert_eq!(CELL_SIZE, 60);
    assert_eq!(SIZE, 480);
    assert_eq!(STEPS_PER_CELL, 20);
}

#[test]
fn layout_lists_the_eight_keys_in_drawing_order() {
    let keys: Vec<Key> = key_positions().iter().map(|region| region.key).collect();
    assert_eq!(
        keys,
        vec![
            Key::KeyW,
            Key::KeyR,
            Key::ShiftLeft,
            Key::KeyA,
            Key::KeyS,
            Key::KeyD,
            Key::ControlLeft,
            Key::Space,
        ]
    );
}

#[test]
fn layout_places_each_key() {
    let table = key_positions();
    assert_eq!(table[0], KeyRegion { key: Key::KeyW, left: 50, right: 70, top: 1, bottom: 19 });
    assert_eq!(table[1], KeyRegion { key: Key::KeyR, left: 70, right: 90, top: 1, bottom: 19 });
    assert_eq!(table[2], KeyRegion { key: Key::ShiftLeft, left: 0, right: 30, top: 21, bottom: 39 });
    assert_eq!(table[3], KeyRegion { key: Key::KeyA, left: 30, right: 50, top: 21, bottom: 39 });
    assert_eq!(table[4], KeyRegion { key: Key::KeyS, left: 50, right: 70, top: 21, bottom: 39 });
    assert_eq!(table[5], KeyRegion { key: Key::KeyD, left: 70, right: 90, top: 21, bottom: 39 });
    assert_eq!(
        table[6],
        KeyRegion { key: Key::ControlLeft, left: 0, right: 30, top: 41, bottom: 59 }
    );
    assert_eq!(table[7], KeyRegion { key: Key::Space, left: 30, right: 90, top: 41, bottom: 59 });
}

#[test]
fn layout_steps_give_the_cell_coordinates() {
    let table = key_positions();
    let cells = |steps: u32| steps as f32 / STEPS_PER_CELL as f32;
    assert_eq!(cells(table[0].left), 2.5);
    assert_eq!(cells(table[0].right), 3.5);
    assert_eq!(cells(table[0].top), 0.05);
    assert_eq!(cells(table[0].bottom), 0.95);
    assert_eq!(cells(table[2].right), 1.5);
    assert_eq!(cells(table[2].top), 1.05);
    assert_eq!(cells(table[2].bottom), 1.95);
    assert_eq!(cells(table[7].right), 4.5);
    assert_eq!(cells(table[7].top), 2.05);
    assert_eq!(cells(table[7].bottom), 2.95);
}

#[test]
fn layout_regions_are_on_the_visible_grid() {
    for region in key_positions() {
        assert!(region.left < region.right);
        assert!(region.right <= 8 * STEPS_PER_CELL);
        assert!(region.top < region.bottom);
        assert!(region.bottom <= 4 * STEPS_PER_CELL);
    }
}

#[test]
fn layout_regions_do_not_overlap() {
    let table = key_positions();
    for (i, a) in table.iter().enumerate() {
        for b in table.iter().skip(i + 1) {
            assert_ne!(a.key, b.key);
            assert!(
                a.right <= b.left || b.right <= a.left || a.bottom <= b.top || b.bottom <= a.top
            );
        }
    }
}
