use breakout_editor::controller::{place_tick, PointerState};
use breakout_editor::export::{export_data, record_of, records_of, snapshot, Record};
use breakout_editor::geometry::Point;
use breakout_editor::store::PlacementStore;
use breakout_editor::tile::{Color, PlacedTile, SelectionState, TileKind};

const GRAY: Color = Color { r: 117, g: 117, b: 119 };
const GREEN: Color = Color { r: 52, g: 216, b: 0 };

fn two_tiles() -> PlacementStore {
    let left = PointerState { left_down: true, right_down: false, over_ui: false };
    let mut store = PlacementStore::new();
    let wall = SelectionState { kind: TileKind::Wall(GRAY) };
    let brick = SelectionState { kind: TileKind::Normal(GREEN) };
    place_tick(&mut store, &wall, Point { x: 6, y: 6 }, left, 1);
    place_tick(&mut store, &brick, Point { x: -18, y: 30 }, left, 2);
    store
}

#[test]
fn record_carries_code_colour_and_position() {
    let tile = PlacedTile { kind: TileKind::Wall(GRAY), position: Point { x: 6, y: -6 }, handle: 4 };
    assert_eq!(
        record_of(&tile),
        Record { brick_type: 1, color: GRAY, pos: Point { x: 6, y: -6 } }
    );
    let tile = PlacedTile { kind: TileKind::Normal(GREEN), position: Point { x: 6, y: -6 }, handle: 4 };
    assert_eq!(
        record_of(&tile),
        Record { brick_type: 0, color: GREEN, pos: Point { x: 6, y: -6 } }
    );
}

#[test]
fn records_keep_the_order_of_the_listing() {
    let a = PlacedTile { kind: TileKind::Wall(GRAY), position: Point { x: 6, y: 6 }, handle: 1 };
    let b = PlacedTile { kind: TileKind::Normal(GREEN), position: Point { x: 18, y: 6 }, handle: 2 };
    let items = vec![(9, b), (3, a), (5, b)];
    assert_eq!(records_of(&items), vec![record_of(&b), record_of(&a), record_of(&b)]);
    assert_eq!(records_of(&Vec::new()), Vec::new());
}

#[test]
fn snapshot_of_two_tiles_lists_two_records() {
    let store = two_tiles();
    let records = snapshot(&store);
    assert_eq!(records.len(), 2);
    let wall = Record { brick_type: 1, color: GRAY, pos: Point { x: 6, y: 6 } };
    let brick = Record { brick_type: 0, color: GREEN, pos: Point { x: -18, y: 30 } };
    assert!(records.contains(&wall));
    assert!(records.contains(&brick));
}

#[test]
fn snapshot_follows_the_order_of_the_store() {
    let store = two_tiles();
    let records = snapshot(&store);
    let listed: Vec<Record> = store.entries().iter().map(|item| record_of(&item.1)).collect();
    assert_eq!(records, listed);
}

#[test]
fn snapshot_of_an_empty_store_is_empty() {
    assert!(snapshot(&PlacementStore::new()).is_empty());
    assert!(export_data(&PlacementStore::new()).bricks.is_empty());
}

#[test]
fn export_document_holds_the_snapshot() {
    let store = two_tiles();
    let data = export_data(&store);
    assert_eq!(data.bricks, snapshot(&store));
}
