use breakout_editor::controller::{Decision, PointerState, TickOutcome};
use breakout_editor::editor::{Editor, FrameInput, PreviewTile};
use breakout_editor::export::Record;
use breakout_editor::geometry::{FieldGeometry, Point};
use breakout_editor::key::encode;
use breakout_editor::tile::{Color, PaletteButton, PlacedTile, TileKind};

const GRAY: Color = Color { r: 117, g: 117, b: 119 };
const GREEN: Color = Color { r: 52, g: 216, b: 0 };

fn editor() -> Editor {
    let field = FieldGeometry::new(
        Point { x: 340, y: 450 },
        Point { x: 10, y: 10 },
        Point { x: 2, y: 2 },
    )
    .unwrap();
    Editor::new(field).unwrap()
}

fn idle() -> PointerState {
    PointerState { left_down: false, right_down: false, over_ui: false }
}

fn left() -> PointerState {
    PointerState { left_down: true, right_down: false, over_ui: false }
}

fn right() -> PointerState {
    PointerState { left_down: false, right_down: true, over_ui: false }
}

fn input(cursor: Option<Point>, pressed: Vec<PaletteButton>, pointer: PointerState) -> FrameInput {
    FrameInput { cursor, pressed, pointer, export: false }
}

#[test]
fn new_editor_previews_the_default_brick_beside_the_origin() {
    let e = editor();
    assert_eq!(e.selection.kind, TileKind::Normal(GREEN));
    assert_eq!(e.cursor, Point { x: 0, y: 0 });
    assert_eq!(
        e.preview,
        PreviewTile { kind: TileKind::Normal(GREEN), position: Point { x: 6, y: 6 } }
    );
    assert_eq!(e.store.len(), 0);
}

#[test]
fn editor_refuses_a_field_that_is_not_key_safe() {
    let field = FieldGeometry::new(
        Point { x: 340, y: 450 },
        Point { x: 8, y: 10 },
        Point { x: 2, y: 2 },
    )
    .unwrap();
    assert!(Editor::new(field).is_none());
}

#[test]
fn preview_follows_the_cursor_and_stays_without_one() {
    let mut e = editor();
    let out = e.frame(&input(Some(Point { x: 343, y: 451 }), Vec::new(), idle()), 0);
    assert_eq!(out.preview.position, Point { x: 330, y: 450 });
    assert_eq!(e.cursor, Point { x: 343, y: 451 });
    let out = e.frame(&input(None, Vec::new(), idle()), 0);
    assert_eq!(out.preview.position, Point { x: 330, y: 450 });
    assert_eq!(e.cursor, Point { x: 343, y: 451 });
}

#[test]
fn selection_of_a_frame_is_the_last_button_pressed() {
    let mut e = editor();
    let pressed = vec![PaletteButton::Brick(GRAY), PaletteButton::Wall(GRAY)];
    let out = e.frame(&input(None, pressed, idle()), 0);
    assert!(out.restyled);
    assert_eq!(e.selection.kind, TileKind::Wall(GRAY));
    assert_eq!(out.preview.kind, TileKind::Wall(GRAY));
    let out = e.frame(&input(None, vec![PaletteButton::Wall(GRAY)], idle()), 0);
    assert!(!out.restyled);
    let out = e.frame(&input(None, Vec::new(), idle()), 0);
    assert!(!out.restyled);
    assert_eq!(e.selection.kind, TileKind::Wall(GRAY));
}

#[test]
fn pointer_acts_on_the_cursor_and_selection_of_the_same_frame() {
    let mut e = editor();
    let out = e.frame(
        &input(Some(Point { x: -20, y: 40 }), vec![PaletteButton::Wall(GRAY)], left()),
        11,
    );
    let tile =
        PlacedTile { kind: TileKind::Wall(GRAY), position: Point { x: -18, y: 42 }, handle: 11 };
    assert_eq!(out.outcome, TickOutcome { destroyed: None, created: Some(tile) });
    assert_eq!(e.store.get(encode(Point { x: -18, y: 42 })), Some(tile));
    assert_eq!(e.store.len(), 1);
}

#[test]
fn wall_then_same_then_brick_then_erase() {
    let mut e = editor();
    let at = Some(Point { x: 100, y: 100 });
    let center = Point { x: 102, y: 102 };
    let out = e.frame(&input(at, vec![PaletteButton::Wall(GRAY)], left()), 1);
    let wall = PlacedTile { kind: TileKind::Wall(GRAY), position: center, handle: 1 };
    assert_eq!(out.outcome.created, Some(wall));
    assert_eq!(e.store.len(), 1);

    let out = e.frame(&input(at, Vec::new(), left()), 2);
    assert_eq!(out.outcome, TickOutcome { destroyed: None, created: None });
    assert_eq!(e.store.len(), 1);
    assert_eq!(e.store.get(encode(center)), Some(wall));

    let out = e.frame(&input(at, vec![PaletteButton::Brick(GREEN)], left()), 3);
    let brick = PlacedTile { kind: TileKind::Normal(GREEN), position: center, handle: 3 };
    assert_eq!(out.outcome, TickOutcome { destroyed: Some(wall), created: Some(brick) });
    assert_eq!(e.store.len(), 1);
    assert_eq!(e.store.get(encode(center)), Some(brick));

    let out = e.frame(&input(at, Vec::new(), right()), 4);
    assert_eq!(out.outcome, TickOutcome { destroyed: Some(brick), created: None });
    assert_eq!(e.store.len(), 0);
    assert_eq!(e.store.get(encode(center)), None);
}

#[test]
fn plan_frame_foretells_the_frame() {
    let mut e = editor();
    let first = input(Some(Point { x: 5, y: 5 }), vec![PaletteButton::Wall(GRAY)], left());
    assert_eq!(e.plan_frame(&first), Decision::Insert);
    assert_eq!(e.store.len(), 0);
    assert_eq!(e.selection.kind, TileKind::Normal(GREEN));
    e.frame(&first, 1);
    assert_eq!(e.plan_frame(&input(None, Vec::new(), left())), Decision::NoOp);
    assert_eq!(
        e.plan_frame(&input(None, vec![PaletteButton::Brick(GREEN)], left())),
        Decision::Replace
    );
    assert_eq!(e.plan_frame(&input(None, Vec::new(), right())), Decision::Erase);
    assert_eq!(e.plan_frame(&input(Some(Point { x: 50, y: 5 }), Vec::new(), left())), Decision::Insert);
    assert_eq!(e.plan_frame(&input(Some(Point { x: 50, y: 5 }), Vec::new(), right())), Decision::NoOp);
}

#[test]
fn export_fires_only_when_asked_and_sees_the_tile_of_the_same_frame() {
    let mut e = editor();
    let out = e.frame(&input(Some(Point { x: 5, y: 5 }), Vec::new(), left()), 1);
    assert!(out.export.is_none());
    let mut second = input(Some(Point { x: -5, y: 5 }), vec![PaletteButton::Wall(GRAY)], left());
    second.export = true;
    let out = e.frame(&second, 2);
    let bricks = out.export.unwrap().bricks;
    assert_eq!(bricks.len(), 2);
    assert!(bricks.contains(&Record { brick_type: 0, color: GREEN, pos: Point { x: 6, y: 6 } }));
    assert!(bricks.contains(&Record { brick_type: 1, color: GRAY, pos: Point { x: -6, y: 6 } }));
}

#[test]
fn steps_of_a_frame_can_be_taken_one_by_one() {
    let mut e = editor();
    e.track_cursor(Some(Point { x: 30, y: -30 }));
    assert_eq!(e.preview.position, Point { x: 30, y: -30 });
    assert!(e.press_all(&vec![PaletteButton::Wall(GRAY)]));
    assert_eq!(e.preview.kind, TileKind::Wall(GRAY));
    let outcome = e.place(left(), 5);
    assert_eq!(
        outcome.created,
        Some(PlacedTile { kind: TileKind::Wall(GRAY), position: Point { x: 30, y: -30 }, handle: 5 })
    );
    let outcome = e.place(PointerState { left_down: true, right_down: false, over_ui: true }, 6);
    assert_eq!(outcome, TickOutcome { destroyed: None, created: None });
}

#[test]
fn dragging_paints_one_tile_per_cell() {
    let mut e = editor();
    let mut x = -400;
    let mut created = 0;
    let mut handle = 0;
    while x <= 400 {
        let out = e.frame(&input(Some(Point { x, y: 3 }), Vec::new(), left()), handle);
        assert!(out.outcome.destroyed.is_none());
        if out.outcome.created.is_some() {
            created += 1;
        }
        handle += 1;
        x += 1;
    }
    assert_eq!(created, 56);
    assert_eq!(e.store.len(), 56);
    for (key, tile) in e.store.entries() {
        assert_eq!(key, encode(tile.position));
        assert_eq!(e.geometry.snap(tile.position), tile.position);
    }
}
