use breakout_editor::geometry::{Axis, Cell, FieldGeometry, Point};

fn standard_field() -> FieldGeometry {
    FieldGeometry::new(
        Point { x: 340, y: 450 },
        Point { x: 10, y: 10 },
        Point { x: 2, y: 2 },
    )
    .unwrap()
}

#[test]
fn cursor_beyond_the_corner_is_clamped_then_snapped() {
    let field = standard_field();
    let cursor = Point { x: 343, y: 451 };
    assert_eq!(field.clamp(cursor), Point { x: 335, y: 445 });
    assert_eq!(field.snap(cursor), Point { x: 330, y: 450 });
}

#[test]
fn cursor_beyond_the_opposite_corner() {
    let field = standard_field();
    let cursor = Point { x: -1000, y: -1000 };
    assert_eq!(field.clamp(cursor), Point { x: -335, y: -445 });
    assert_eq!(field.snap(cursor), Point { x: -330, y: -450 });
}

#[test]
fn snap_goes_to_the_centre_of_the_cell_below() {
    let field = standard_field();
    assert_eq!(field.snap(Point { x: 0, y: 0 }), Point { x: 6, y: 6 });
    assert_eq!(field.snap(Point { x: 11, y: 12 }), Point { x: 6, y: 18 });
    assert_eq!(field.snap(Point { x: -1, y: -12 }), Point { x: -6, y: -6 });
    assert_eq!(field.snap(Point { x: -13, y: -25 }), Point { x: -18, y: -30 });
}

#[test]
fn snap_is_idempotent_on_a_sweep() {
    let field = standard_field();
    let mut x = -400;
    while x <= 400 {
        let mut y = -500;
        while y <= 500 {
            let once = field.snap(Point { x, y });
            assert_eq!(field.snap(once), once);
            y += 7;
        }
        x += 5;
    }
}

#[test]
fn snap_stays_within_half_a_pitch_of_the_clamped_point() {
    let field = standard_field();
    let mut v = -600;
    while v <= 600 {
        let p = Point { x: v, y: v };
        let clamped = field.clamp(p);
        let snapped = field.snap(p);
        assert!(snapped.x - 6 <= clamped.x && clamped.x < snapped.x + 6);
        assert!(snapped.y - 6 <= clamped.y && clamped.y < snapped.y + 6);
        v += 1;
    }
}

#[test]
fn standard_field_has_an_end_row_beyond_the_clamp_limit() {
    let field = standard_field();
    assert!(field.x.edges_fit());
    assert!(!field.y.edges_fit());
    assert!(!field.edges_fit());
}

#[test]
fn snap_is_bounded_where_the_end_cells_fit() {
    let field = FieldGeometry::new(
        Point { x: 340, y: 340 },
        Point { x: 10, y: 10 },
        Point { x: 2, y: 2 },
    )
    .unwrap();
    assert!(field.edges_fit());
    let mut v = -500;
    while v <= 500 {
        let s = field.snap(Point { x: v, y: -v });
        assert!(-335 <= s.x && s.x <= 335);
        assert!(-335 <= s.y && s.y <= 335);
        v += 1;
    }
}

#[test]
fn cell_and_centre_agree_with_snap() {
    let field = standard_field();
    let cursor = Point { x: -100, y: 77 };
    let cell = field.cell_at(cursor);
    assert_eq!(cell, Cell { column: -9, row: 6 });
    assert_eq!(field.center_of(cell), Some(Point { x: -102, y: 78 }));
    assert_eq!(field.center_of(cell), Some(field.snap(cursor)));
}

#[test]
fn centre_of_a_cell_outside_the_field_is_none() {
    let field = standard_field();
    assert_eq!(field.center_of(Cell { column: 28, row: 0 }), None);
    assert_eq!(field.center_of(Cell { column: -29, row: 0 }), None);
    assert_eq!(field.center_of(Cell { column: 0, row: 38 }), None);
    assert_eq!(field.center_of(Cell { column: 27, row: 37 }), Some(Point { x: 330, y: 450 }));
    assert_eq!(field.center_of(Cell { column: -28, row: -38 }), Some(Point { x: -330, y: -450 }));
}

#[test]
fn axis_rejects_sizes_that_are_not_well_formed() {
    assert_eq!(Axis::new(340, 10, 2), Some(Axis { half: 340, cell: 10, gap: 2 }));
    assert_eq!(Axis::new(340, 0, 2), None);
    assert_eq!(Axis::new(340, -1, 2), None);
    assert_eq!(Axis::new(340, 10, -1), None);
    assert_eq!(Axis::new(4, 10, 2), None);
    assert_eq!(Axis::new(5, 10, 0), Some(Axis { half: 5, cell: 10, gap: 0 }));
    assert_eq!(Axis::new(i32::MAX, 10, 2), None);
    assert_eq!(Axis::new(i32::MAX - 12, 10, 2), Some(Axis { half: i32::MAX - 12, cell: 10, gap: 2 }));
}

#[test]
fn field_rejects_a_bad_axis() {
    let p = |x: i32, y: i32| Point { x, y };
    assert!(FieldGeometry::new(p(340, 450), p(10, 10), p(2, 2)).is_some());
    assert!(FieldGeometry::new(p(340, 450), p(10, 0), p(2, 2)).is_none());
    assert!(FieldGeometry::new(p(340, 450), p(10, 10), p(-2, 2)).is_none());
}

#[test]
fn odd_sizes_use_floor_division() {
    let axis = Axis::new(20, 5, 2).unwrap();
    assert_eq!(axis.clamp(100), 18);
    assert_eq!(axis.clamp(-100), -18);
    assert_eq!(axis.snap(0), 3);
    assert_eq!(axis.snap(-1), -4);
    assert_eq!(axis.snap(100), 17);
    assert_eq!(axis.snap(-100), -18);
}

#[test]
fn well_formedness_can_be_tested() {
    assert!(Axis { half: 340, cell: 10, gap: 2 }.is_wf());
    assert!(!Axis { half: 340, cell: 0, gap: 2 }.is_wf());
    assert!(!Axis { half: 340, cell: 10, gap: -2 }.is_wf());
    assert!(!Axis { half: 4, cell: 10, gap: 2 }.is_wf());
    assert!(!Axis { half: i32::MAX, cell: i32::MAX, gap: i32::MAX }.is_wf());
    assert!(standard_field().is_wf());
    let broken = FieldGeometry {
        x: Axis { half: 340, cell: 10, gap: 2 },
        y: Axis { half: 0, cell: 10, gap: 2 },
    };
    assert!(!broken.is_wf());
}

#[test]
fn indices_and_centres_along_one_axis() {
    let axis = Axis::new(340, 10, 2).unwrap();
    assert_eq!(axis.index_at(0), 0);
    assert_eq!(axis.index_at(11), 0);
    assert_eq!(axis.index_at(12), 1);
    assert_eq!(axis.index_at(-1), -1);
    assert_eq!(axis.index_at(-12), -1);
    assert_eq!(axis.index_at(-13), -2);
    assert_eq!(axis.index_at(10_000), 27);
    assert_eq!(axis.index_at(-10_000), -28);
    assert!(axis.holds_index(27) && axis.holds_index(-28) && axis.holds_index(0));
    assert!(!axis.holds_index(28) && !axis.holds_index(-29));
    assert_eq!(axis.center_at(0), 6);
    assert_eq!(axis.center_at(-1), -6);
    assert_eq!(axis.center_at(27), 330);
    assert_eq!(axis.center_at(-28), -330);
}

#[test]
fn snap_keeps_the_order_of_coordinates() {
    let axis = Axis::new(450, 10, 2).unwrap();
    let mut c = -500;
    let mut last = axis.snap(c);
    while c <= 500 {
        let s = axis.snap(c);
        assert!(last <= s);
        assert!(axis.snap(i32::MIN) <= s && s <= axis.snap(i32::MAX));
        last = s;
        c += 1;
    }
    assert_eq!(axis.snap(i32::MIN), -450);
    assert_eq!(axis.snap(i32::MAX), 450);
}

#[test]
fn widest_axis_does_not_overflow() {
    let axis = Axis::new(i32::MAX - 3, 2, 1).unwrap();
    assert_eq!(axis.clamp(i32::MAX), i32::MAX - 4);
    assert_eq!(axis.snap(i32::MAX), 2_147_483_644);
    assert_eq!(axis.clamp(i32::MIN), -(i32::MAX - 4));
    assert_eq!(axis.snap(i32::MIN), -2_147_483_642);
}
